//! Emission adapters: render a schema descriptor into the two supported
//! wiring shapes, and render column types as the target runtime's
//! column-definition tokens.
use vstd::prelude::*;
use vstd::string::StringExecFns;
use crate::annotations::RawAnnotation;
use crate::annotations::AnnotationView;
use crate::annotations::ann_views;
use crate::chars::str_is;
use crate::column::ColumnKind;
use crate::column::ResolvedType;
use crate::column::ResolvedTypeView;
use crate::error::SchemaError;
use crate::names::pascal_case;
use crate::names::pascal_of;
use crate::names::snake_case;
use crate::names::snake_of;
use crate::schema::ColumnSpec;
use crate::schema::ColumnSpecView;
use crate::schema::ColumnsOutcome;
use crate::schema::PrimaryKeySpec;
use crate::schema::RecordDefinition;
use crate::schema::RecordDefinitionView;
use crate::schema::assemble;
use crate::schema::assemble_error_matches;
use crate::schema::col_views;
use crate::schema::columns_of;
use crate::schema::name_views;
use crate::schema::pk_names_of;

verus! {

/// The column-type constructor token for an inferred column kind.
pub open spec fn kind_token(k: ColumnKind) -> Seq<char> {
    match k {
        ColumnKind::Char => "Char(None)"@,
        ColumnKind::Text => "String(None)"@,
        ColumnKind::TinyInteger => "TinyInteger"@,
        ColumnKind::SmallInteger => "SmallInteger"@,
        ColumnKind::Integer => "Integer"@,
        ColumnKind::BigInteger => "BigInteger"@,
        ColumnKind::Float => "Float"@,
        ColumnKind::Double => "Double"@,
        ColumnKind::Boolean => "Boolean"@,
        ColumnKind::Date => "Date"@,
        ColumnKind::Time => "Time"@,
        ColumnKind::DateTime => "DateTime"@,
        ColumnKind::Uuid => "Uuid"@,
    }
}

/// The column-type token of a resolved type: the table's token for an
/// inferred kind, the override literal verbatim for an explicit one.
pub open spec fn type_token_of(t: ResolvedTypeView) -> Seq<char> {
    match t {
        ResolvedTypeView::Inferred(k) => kind_token(k),
        ResolvedTypeView::Explicit(s) => s,
    }
}

/// The full column-definition token of a column: its type token, the
/// definition accessor, and the nullability marker when the column is
/// nullable.
pub open spec fn def_token_of(c: ColumnSpecView) -> Seq<char> {
    type_token_of(c.ty) + ".def()"@ + if c.nullable {
        ".null()"@
    } else {
        Seq::<char>::empty()
    }
}

/// Renders the column-type constructor token of a resolved type.
pub fn column_type_token(t: &ResolvedType) -> (r: String)
    ensures
        r@ == type_token_of(t@),
{
    match t {
        ResolvedType::Inferred(k) => match k {
            ColumnKind::Char => String::from_str("Char(None)"),
            ColumnKind::Text => String::from_str("String(None)"),
            ColumnKind::TinyInteger => String::from_str("TinyInteger"),
            ColumnKind::SmallInteger => String::from_str("SmallInteger"),
            ColumnKind::Integer => String::from_str("Integer"),
            ColumnKind::BigInteger => String::from_str("BigInteger"),
            ColumnKind::Float => String::from_str("Float"),
            ColumnKind::Double => String::from_str("Double"),
            ColumnKind::Boolean => String::from_str("Boolean"),
            ColumnKind::Date => String::from_str("Date"),
            ColumnKind::Time => String::from_str("Time"),
            ColumnKind::DateTime => String::from_str("DateTime"),
            ColumnKind::Uuid => String::from_str("Uuid"),
        },
        ResolvedType::Explicit(s) => s.clone(),
    }
}

/// Renders the full column-definition token of a derived column.
pub fn column_def_token(c: &ColumnSpec) -> (r: String)
    ensures
        r@ == def_token_of(c@),
{
    let mut r = column_type_token(&c.ty);
    r.append(".def()");
    if c.nullable {
        r.append(".null()");
    }
    proof {
        if !c.nullable {
            assert(r@ =~= def_token_of(c@));
        }
    }
    r
}

/// The entity identity emitted when a table name was supplied.
#[derive(Debug, Clone, PartialEq, Eq)]
pub struct EntityIdentity {
    /// The table name the entity reports.
    pub table_name: String,
}

/// The augment shape: the wiring emitted next to a caller-authored record.
/// The column enumeration always comes; the entity identity only when a
/// table name was supplied; the primary-key enumeration only when at least
/// one field is flagged.
#[derive(Debug, Clone, PartialEq, Eq)]
pub struct AugmentArtifact {
    /// The derived columns, in field declaration order.
    pub columns: Vec<ColumnSpec>,
    /// The entity identity, when a record-level table name was given.
    pub entity: Option<EntityIdentity>,
    /// The primary-key enumeration, when at least one field is flagged.
    pub primary_key: Option<PrimaryKeySpec>,
}

/// Whether an augment artifact is the one owed for this record.
pub open spec fn augment_matches(a: AugmentArtifact, rec: RecordDefinitionView) -> bool {
    &&& columns_of(rec.fields) == ColumnsOutcome::Columns(col_views(a.columns@))
    &&& match a.entity {
        Some(e) => crate::annotations::record_table_name_of(rec.annotations) == Some(
            e.table_name@,
        ),
        None => crate::annotations::record_table_name_of(rec.annotations) is None,
    }
    &&& match a.primary_key {
        Some(pk) => {
            &&& pk_names_of(rec.fields).len() > 0
            &&& name_views(pk.columns@) == pk_names_of(rec.fields)
            &&& pk.auto_increment == (pk_names_of(rec.fields).len() == 1)
        },
        None => pk_names_of(rec.fields).len() == 0,
    }
}

/// Emits the augment shape for a caller-authored record: derives the
/// descriptor and renders it as column wiring, an optional entity identity,
/// and an optional primary-key enumeration.
pub fn emit_augment(rec: &RecordDefinition) -> (r: Result<AugmentArtifact, SchemaError>)
    ensures
        match r {
            Ok(a) => augment_matches(a, rec@),
            Err(e) => assemble_error_matches(e, rec@),
        },
{
    let d = match assemble(rec) {
        Ok(d) => d,
        Err(e) => {
            return Err(e);
        },
    };
    let entity = match d.table_name {
        Some(t) => Some(EntityIdentity { table_name: t }),
        None => None,
    };
    Ok(AugmentArtifact { columns: d.columns, entity, primary_key: d.primary_key })
}

/// The record-level scan of the full-module shape: the table name and the
/// caller-supplied primary-key identifier list, with a note of any
/// malformed occurrence of either required key.
#[derive(Debug, Clone, PartialEq, Eq)]
pub struct ModuleScan {
    /// The last well-formed `table_name` value, if any.
    pub table_name: Option<String>,
    /// The raw primary-key identifiers, in annotation order.
    pub primary_keys: Vec<String>,
    /// Whether a `table_name` annotation appeared as a bare flag.
    pub malformed_table: bool,
    /// Whether a `primary_key` annotation appeared as a bare flag.
    pub malformed_pk: bool,
}

/// The mathematical shape of a full-module record-level scan.
pub ghost struct ModuleScanView {
    pub table_name: Option<Seq<char>>,
    pub primary_keys: Seq<Seq<char>>,
    pub malformed_table: bool,
    pub malformed_pk: bool,
}

impl View for ModuleScan {
    type V = ModuleScanView;

    open spec fn view(&self) -> ModuleScanView {
        ModuleScanView {
            table_name: match self.table_name {
                Some(t) => Some(t@),
                None => None,
            },
            primary_keys: name_views(self.primary_keys@),
            malformed_table: self.malformed_table,
            malformed_pk: self.malformed_pk,
        }
    }
}

/// One step of the full-module record-level scan.
pub open spec fn apply_module_annotation(o: ModuleScanView, a: AnnotationView) -> ModuleScanView {
    if a.namespace != "auto_column"@ {
        o
    } else if a.key == "table_name"@ {
        match a.value {
            Some(v) => ModuleScanView { table_name: Some(v), ..o },
            None => ModuleScanView { malformed_table: true, ..o },
        }
    } else if a.key == "primary_key"@ {
        match a.value {
            Some(v) => ModuleScanView { primary_keys: o.primary_keys.push(v), ..o },
            None => ModuleScanView { malformed_pk: true, ..o },
        }
    } else {
        o
    }
}

/// The full-module scan of a record's annotations, processed in order.
pub open spec fn module_scan_of(anns: Seq<AnnotationView>) -> ModuleScanView
    decreases anns.len(),
{
    if anns.len() == 0 {
        ModuleScanView {
            table_name: None,
            primary_keys: Seq::empty(),
            malformed_table: false,
            malformed_pk: false,
        }
    } else {
        apply_module_annotation(module_scan_of(anns.drop_last()), anns.last())
    }
}

/// Scans a record's annotations for the full-module shape: the table name,
/// the primary-key identifier list, and any malformed occurrence of either.
pub fn parse_module_scan(anns: &Vec<RawAnnotation>) -> (r: ModuleScan)
    ensures
        r@ == module_scan_of(ann_views(anns@)),
{
    let mut r = ModuleScan {
        table_name: None,
        primary_keys: Vec::new(),
        malformed_table: false,
        malformed_pk: false,
    };
    proof {
        assert(name_views(r.primary_keys@) =~= Seq::<Seq<char>>::empty());
    }
    let mut i: usize = 0;
    while i < anns.len()
        invariant
            i <= anns@.len(),
            r@ == module_scan_of(ann_views(anns@).take(i as int)),
        decreases anns@.len() - i,
    {
        let a = &anns[i];
        proof {
            reveal_strlit("table_name");
            reveal_strlit("primary_key");
            assert("table_name"@.len() == 10);
            assert("primary_key"@.len() == 11);
            assert("table_name"@ != "primary_key"@);
            assert(ann_views(anns@).take(i + 1 as int).drop_last() =~= ann_views(anns@).take(
                i as int,
            ));
            assert(ann_views(anns@).take(i + 1 as int).last() == anns@[i as int]@);
        }
        if str_is(a.namespace.as_str(), "auto_column") {
            if str_is(a.key.as_str(), "table_name") {
                match &a.value {
                    Some(v) => {
                        r.table_name = Some(v.clone());
                    },
                    None => {
                        r.malformed_table = true;
                    },
                }
            } else if str_is(a.key.as_str(), "primary_key") {
                match &a.value {
                    Some(v) => {
                        let ghost prev = r.primary_keys@;
                        r.primary_keys.push(v.clone());
                        proof {
                            assert(name_views(r.primary_keys@) =~= name_views(prev).push(v@));
                        }
                    },
                    None => {
                        r.malformed_pk = true;
                    },
                }
            }
        }
        i += 1;
    }
    proof {
        assert(ann_views(anns@).take(anns@.len() as int) =~= ann_views(anns@));
    }
    r
}

/// The pascal-cased renderings of a list of identifiers.
pub open spec fn pascal_names(names: Seq<Seq<char>>) -> Seq<Seq<char>> {
    names.map_values(|s: Seq<char>| pascal_of(s))
}

/// The full-module shape: a complete self-contained schema unit generated
/// from a bare field list. The primary-key enumeration comes from the
/// caller-supplied identifier list, not from per-field flags, and
/// auto-increment always holds in this shape. The relation enumeration is
/// an empty stub for callers to extend by hand.
#[derive(Debug, Clone, PartialEq, Eq)]
pub struct FullModuleArtifact {
    /// The generated module identifier, in lower snake case.
    pub module_name: String,
    /// The table name the entity identity reports.
    pub table_name: String,
    /// The derived columns, in field declaration order.
    pub columns: Vec<ColumnSpec>,
    /// The primary-key enumeration; auto-increment always holds here.
    pub primary_key: PrimaryKeySpec,
    /// The relation enumeration stub: always empty.
    pub relations: Vec<String>,
}

/// Whether a full-module artifact is the one owed for this record.
pub open spec fn full_module_matches(a: FullModuleArtifact, rec: RecordDefinitionView) -> bool {
    let scan = module_scan_of(rec.annotations);
    &&& a.module_name@ == snake_of(rec.name)
    &&& scan.table_name == Some(a.table_name@)
    &&& scan.primary_keys.len() > 0
    &&& columns_of(rec.fields) == ColumnsOutcome::Columns(col_views(a.columns@))
    &&& name_views(a.primary_key.columns@) == pascal_names(scan.primary_keys)
    &&& a.primary_key.auto_increment == true
    &&& a.relations@.len() == 0
}

/// Whether the error is the one the full-module shape owes: a missing or
/// malformed required record-level annotation first, a field failure next.
pub open spec fn full_module_error_matches(e: SchemaError, rec: RecordDefinitionView) -> bool {
    let scan = module_scan_of(rec.annotations);
    if scan.table_name is None {
        if scan.malformed_table {
            e matches SchemaError::MalformedAnnotation(k) && k@ == "table_name"@
        } else {
            e matches SchemaError::MissingRequiredAnnotation(k) && k@ == "table_name"@
        }
    } else if scan.primary_keys.len() == 0 {
        if scan.malformed_pk {
            e matches SchemaError::MalformedAnnotation(k) && k@ == "primary_key"@
        } else {
            e matches SchemaError::MissingRequiredAnnotation(k) && k@ == "primary_key"@
        }
    } else {
        assemble_error_matches(e, rec)
    }
}

/// Emits the full-module shape from a bare field list: a self-contained
/// unit with a module identifier, an entity identity, the column
/// enumeration, a primary-key enumeration from the caller-supplied list
/// (auto-increment always true), and an empty relation stub.
pub fn emit_full_module(rec: &RecordDefinition) -> (r: Result<FullModuleArtifact, SchemaError>)
    ensures
        match r {
            Ok(a) => full_module_matches(a, rec@),
            Err(e) => full_module_error_matches(e, rec@),
        },
{
    let scan = parse_module_scan(&rec.annotations);
    let table_name = match scan.table_name {
        Some(t) => t,
        None => {
            if scan.malformed_table {
                return Err(SchemaError::MalformedAnnotation(String::from_str("table_name")));
            } else {
                return Err(SchemaError::MissingRequiredAnnotation(String::from_str("table_name")));
            }
        },
    };
    if scan.primary_keys.len() == 0 {
        proof {
            assert(name_views(scan.primary_keys@).len() == 0);
        }
        if scan.malformed_pk {
            return Err(SchemaError::MalformedAnnotation(String::from_str("primary_key")));
        } else {
            return Err(SchemaError::MissingRequiredAnnotation(String::from_str("primary_key")));
        }
    }
    let d = match assemble(rec) {
        Ok(d) => d,
        Err(e) => {
            return Err(e);
        },
    };
    let mut pk_cols: Vec<String> = Vec::new();
    proof {
        assert(name_views(pk_cols@) =~= Seq::<Seq<char>>::empty());
        assert(pascal_names(name_views(scan.primary_keys@).take(0)) =~= Seq::<Seq<char>>::empty());
    }
    let mut i: usize = 0;
    while i < scan.primary_keys.len()
        invariant
            i <= scan.primary_keys@.len(),
            name_views(pk_cols@) == pascal_names(name_views(scan.primary_keys@).take(i as int)),
        decreases scan.primary_keys@.len() - i,
    {
        let ghost prev = pk_cols@;
        pk_cols.push(pascal_case(scan.primary_keys[i].as_str()));
        proof {
            assert(name_views(pk_cols@) =~= name_views(prev).push(
                pascal_of(scan.primary_keys@[i as int]@),
            ));
            assert(pascal_names(name_views(scan.primary_keys@).take(i + 1 as int)) =~= pascal_names(
                name_views(scan.primary_keys@).take(i as int),
            ).push(pascal_of(scan.primary_keys@[i as int]@)));
        }
        i += 1;
    }
    proof {
        assert(name_views(scan.primary_keys@).take(scan.primary_keys@.len() as int) =~= name_views(
            scan.primary_keys@,
        ));
    }
    let module_name = snake_case(rec.name.as_str());
    Ok(
        FullModuleArtifact {
            module_name,
            table_name,
            columns: d.columns,
            primary_key: PrimaryKeySpec { columns: pk_cols, auto_increment: true },
            relations: Vec::new(),
        },
    )
}

} // verus!
