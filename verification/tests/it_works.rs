use auto_column::annotations::RawAnnotation;
use auto_column::column::ColumnKind;
use auto_column::column::ResolvedType;
use auto_column::emit::emit_augment;
use auto_column::schema::FieldDefinition;
use auto_column::schema::RecordDefinition;

fn ann(key: &str, value: Option<&str>) -> RawAnnotation {
    RawAnnotation {
        namespace: "auto_column".to_string(),
        key: key.to_string(),
        value: value.map(|v| v.to_string()),
    }
}

fn model_record() -> RecordDefinition {
    RecordDefinition {
        name: "Model".to_string(),
        annotations: vec![ann("table_name", Some("foo"))],
        fields: vec![
            FieldDefinition {
                name: "id".to_string(),
                ty: "u64".to_string(),
                annotations: vec![ann("primary_key", None)],
            },
            FieldDefinition {
                name: "name".to_string(),
                ty: "Option<String>".to_string(),
                annotations: vec![ann("type", Some("String(Some(255))")), ann("nullable", None)],
            },
        ],
    }
}

#[test]
fn it_works() {
    let artifact = emit_augment(&model_record()).unwrap();
    let names: Vec<String> = artifact.columns.iter().map(|c| c.name.clone()).collect();
    assert_eq!("[Id, Name]", format!("[{}]", names.join(", ")));
}

#[test]
fn round_trip_model_schema() {
    let artifact = emit_augment(&model_record()).unwrap();

    assert_eq!(artifact.columns.len(), 2);
    assert_eq!(artifact.columns[0].name, "Id");
    assert_eq!(artifact.columns[0].ty, ResolvedType::Inferred(ColumnKind::Integer));
    assert!(!artifact.columns[0].nullable);
    assert_eq!(artifact.columns[1].name, "Name");
    assert_eq!(artifact.columns[1].ty, ResolvedType::Explicit("String(Some(255))".to_string()));
    assert!(artifact.columns[1].nullable);

    let entity = artifact.entity.unwrap();
    assert_eq!(entity.table_name, "foo");

    let pk = artifact.primary_key.unwrap();
    assert_eq!(pk.columns, vec!["Id".to_string()]);
    assert!(pk.auto_increment);
}
