use auto_column::annotations::FieldOverrides;
use auto_column::annotations::RawAnnotation;
use auto_column::annotations::parse_field_overrides;
use auto_column::annotations::parse_table_name;
use auto_column::column::ColumnKind;
use auto_column::column::ResolvedType;
use auto_column::column::infer_column_type;
use auto_column::emit::column_def_token;
use auto_column::emit::emit_augment;
use auto_column::emit::emit_full_module;
use auto_column::error::SchemaError;
use auto_column::schema::ColumnSpec;
use auto_column::schema::FieldDefinition;
use auto_column::schema::RecordDefinition;
use auto_column::schema::assemble;

fn ann(key: &str, value: Option<&str>) -> RawAnnotation {
    RawAnnotation {
        namespace: "auto_column".to_string(),
        key: key.to_string(),
        value: value.map(|v| v.to_string()),
    }
}

fn field(name: &str, ty: &str, annotations: Vec<RawAnnotation>) -> FieldDefinition {
    FieldDefinition { name: name.to_string(), ty: ty.to_string(), annotations }
}

fn record(
    name: &str,
    annotations: Vec<RawAnnotation>,
    fields: Vec<FieldDefinition>,
) -> RecordDefinition {
    RecordDefinition { name: name.to_string(), annotations, fields }
}

fn no_overrides() -> FieldOverrides {
    FieldOverrides { ty: None, primary_key: false, nullable: false }
}

fn infer_bare(ty: &str) -> (ResolvedType, bool) {
    infer_column_type(ty, &no_overrides()).unwrap()
}

#[test]
fn every_table_name_infers_bare() {
    let table: Vec<(&str, ColumnKind)> = vec![
        ("char", ColumnKind::Char),
        ("String", ColumnKind::Text),
        ("&str", ColumnKind::Text),
        ("u8", ColumnKind::TinyInteger),
        ("i8", ColumnKind::TinyInteger),
        ("u16", ColumnKind::SmallInteger),
        ("i16", ColumnKind::SmallInteger),
        ("u32", ColumnKind::Integer),
        ("u64", ColumnKind::Integer),
        ("i32", ColumnKind::Integer),
        ("i64", ColumnKind::Integer),
        ("u128", ColumnKind::BigInteger),
        ("i128", ColumnKind::BigInteger),
        ("f32", ColumnKind::Float),
        ("f64", ColumnKind::Double),
        ("bool", ColumnKind::Boolean),
        ("NaiveDate", ColumnKind::Date),
        ("NaiveTime", ColumnKind::Time),
        ("NaiveDateTime", ColumnKind::DateTime),
        ("Uuid", ColumnKind::Uuid),
    ];
    for (name, kind) in table {
        let (ty, nullable) = infer_bare(name);
        assert_eq!(ty, ResolvedType::Inferred(kind));
        assert!(!nullable);
    }
}

#[test]
fn every_table_name_infers_wrapped_nullable() {
    let table: Vec<(&str, ColumnKind)> = vec![
        ("Option<u64>", ColumnKind::Integer),
        ("Option<String>", ColumnKind::Text),
        ("Option<bool>", ColumnKind::Boolean),
        ("Option<NaiveDateTime>", ColumnKind::DateTime),
        ("Option<Uuid>", ColumnKind::Uuid),
    ];
    for (name, kind) in table {
        let (ty, nullable) = infer_bare(name);
        assert_eq!(ty, ResolvedType::Inferred(kind));
        assert!(nullable);
    }
}

#[test]
fn whitespace_in_type_expression_is_ignored() {
    let (ty, nullable) = infer_bare("Option < String >");
    assert_eq!(ty, ResolvedType::Inferred(ColumnKind::Text));
    assert!(nullable);
}

#[test]
fn explicit_override_wins_over_inference() {
    let ov = FieldOverrides {
        ty: Some("Decimal(Some((10, 2)))".to_string()),
        primary_key: false,
        nullable: false,
    };
    let (ty, nullable) = infer_column_type("u64", &ov).unwrap();
    assert_eq!(ty, ResolvedType::Explicit("Decimal(Some((10, 2)))".to_string()));
    assert!(!nullable);
}

#[test]
fn explicit_override_rescues_unsupported_type() {
    let ov = FieldOverrides {
        ty: Some("Json".to_string()),
        primary_key: false,
        nullable: true,
    };
    let (ty, nullable) = infer_column_type("MyCustomStruct", &ov).unwrap();
    assert_eq!(ty, ResolvedType::Explicit("Json".to_string()));
    assert!(nullable);
}

#[test]
fn unsupported_type_fails_generation() {
    let err = infer_column_type("MyCustomStruct", &no_overrides()).unwrap_err();
    assert_eq!(err, SchemaError::UnsupportedType("MyCustomStruct".to_string()));

    let rec = record("Model", vec![], vec![field("data", "MyCustomStruct", vec![])]);
    let err = emit_augment(&rec).unwrap_err();
    assert_eq!(err, SchemaError::UnsupportedType("MyCustomStruct".to_string()));
}

#[test]
fn column_order_follows_declaration_order() {
    let rec = record(
        "Model",
        vec![],
        vec![
            field("zeta", "u64", vec![]),
            field("alpha_beta", "String", vec![]),
            field("mid", "bool", vec![]),
        ],
    );
    let d = assemble(&rec).unwrap();
    let names: Vec<&str> = d.columns.iter().map(|c| c.name.as_str()).collect();
    assert_eq!(names, vec!["Zeta", "AlphaBeta", "Mid"]);
}

#[test]
fn zero_primary_keys_yield_no_key_artifact() {
    let rec = record("Model", vec![], vec![field("id", "u64", vec![])]);
    let d = assemble(&rec).unwrap();
    assert!(d.primary_key.is_none());
}

#[test]
fn single_primary_key_auto_increments() {
    let rec = record(
        "Model",
        vec![],
        vec![
            field("id", "u64", vec![ann("primary_key", None)]),
            field("name", "String", vec![]),
        ],
    );
    let d = assemble(&rec).unwrap();
    let pk = d.primary_key.unwrap();
    assert_eq!(pk.columns, vec!["Id".to_string()]);
    assert!(pk.auto_increment);
}

#[test]
fn two_primary_keys_disable_auto_increment() {
    let rec = record(
        "Model",
        vec![],
        vec![
            field("id", "u64", vec![ann("primary_key", None)]),
            field("tenant_id", "u64", vec![ann("primary_key", None)]),
        ],
    );
    let d = assemble(&rec).unwrap();
    let pk = d.primary_key.unwrap();
    assert_eq!(pk.columns, vec!["Id".to_string(), "TenantId".to_string()]);
    assert!(!pk.auto_increment);
}

#[test]
fn colliding_identifiers_fail_with_duplicate_column() {
    let rec = record(
        "Model",
        vec![],
        vec![field("first_name", "String", vec![]), field("FirstName", "String", vec![])],
    );
    let err = assemble(&rec).unwrap_err();
    assert_eq!(err, SchemaError::DuplicateColumnName("FirstName".to_string()));
}

#[test]
fn unsupported_type_reported_before_later_duplicate() {
    let rec = record(
        "Model",
        vec![],
        vec![
            field("a", "Unknown", vec![]),
            field("b", "u64", vec![]),
            field("B", "u64", vec![]),
        ],
    );
    let err = assemble(&rec).unwrap_err();
    assert_eq!(err, SchemaError::UnsupportedType("Unknown".to_string()));
}

#[test]
fn table_name_annotation_last_one_wins() {
    let anns = vec![ann("table_name", Some("first")), ann("table_name", Some("second"))];
    assert_eq!(parse_table_name(&anns), Some("second".to_string()));
}

#[test]
fn lenient_scan_skips_malformed_and_foreign_annotations() {
    let anns = vec![
        RawAnnotation {
            namespace: "serde".to_string(),
            key: "rename".to_string(),
            value: Some("lower_case".to_string()),
        },
        ann("type", None),
        ann("primary_key", Some("oops")),
        ann("nullable", None),
    ];
    let ov = parse_field_overrides(&anns);
    assert_eq!(ov.ty, None);
    assert!(!ov.primary_key);
    assert!(ov.nullable);
}

#[test]
fn later_type_override_replaces_earlier() {
    let anns = vec![ann("type", Some("Text")), ann("type", Some("Binary(Some(16))"))];
    let ov = parse_field_overrides(&anns);
    assert_eq!(ov.ty, Some("Binary(Some(16))".to_string()));
}

#[test]
fn column_def_tokens_render_type_and_nullability() {
    let col = ColumnSpec {
        name: "Name".to_string(),
        ty: ResolvedType::Inferred(ColumnKind::Text),
        nullable: true,
    };
    assert_eq!(column_def_token(&col), "String(None).def().null()");
    let col = ColumnSpec {
        name: "Id".to_string(),
        ty: ResolvedType::Inferred(ColumnKind::Integer),
        nullable: false,
    };
    assert_eq!(column_def_token(&col), "Integer.def()");
    let col = ColumnSpec {
        name: "Name".to_string(),
        ty: ResolvedType::Explicit("String(Some(255))".to_string()),
        nullable: false,
    };
    assert_eq!(column_def_token(&col), "String(Some(255)).def()");
}

#[test]
fn full_module_emits_complete_unit() {
    let rec = record(
        "UserRecord",
        vec![ann("table_name", Some("users")), ann("primary_key", Some("id"))],
        vec![field("id", "u64", vec![]), field("login_name", "String", vec![])],
    );
    let m = emit_full_module(&rec).unwrap();
    assert_eq!(m.module_name, "user_record");
    assert_eq!(m.table_name, "users");
    let names: Vec<&str> = m.columns.iter().map(|c| c.name.as_str()).collect();
    assert_eq!(names, vec!["Id", "LoginName"]);
    assert_eq!(m.primary_key.columns, vec!["Id".to_string()]);
    assert!(m.primary_key.auto_increment);
    assert!(m.relations.is_empty());
}

#[test]
fn full_module_without_table_name_fails() {
    let rec = record("M", vec![ann("primary_key", Some("id"))], vec![field("id", "u64", vec![])]);
    let err = emit_full_module(&rec).unwrap_err();
    assert_eq!(err, SchemaError::MissingRequiredAnnotation("table_name".to_string()));
}

#[test]
fn full_module_with_flag_table_name_fails_as_malformed() {
    let rec = record(
        "M",
        vec![ann("table_name", None), ann("primary_key", Some("id"))],
        vec![field("id", "u64", vec![])],
    );
    let err = emit_full_module(&rec).unwrap_err();
    assert_eq!(err, SchemaError::MalformedAnnotation("table_name".to_string()));
}

#[test]
fn full_module_without_primary_keys_fails() {
    let rec = record("M", vec![ann("table_name", Some("m"))], vec![field("id", "u64", vec![])]);
    let err = emit_full_module(&rec).unwrap_err();
    assert_eq!(err, SchemaError::MissingRequiredAnnotation("primary_key".to_string()));
}

#[test]
fn full_module_with_flag_primary_key_fails_as_malformed() {
    let rec = record(
        "M",
        vec![ann("table_name", Some("m")), ann("primary_key", None)],
        vec![field("id", "u64", vec![])],
    );
    let err = emit_full_module(&rec).unwrap_err();
    assert_eq!(err, SchemaError::MalformedAnnotation("primary_key".to_string()));
}
