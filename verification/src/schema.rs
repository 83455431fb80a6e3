//! Record definitions and the schema assembler: folds parsed overrides
//! through the type inference engine field by field, in declaration order,
//! and builds the schema descriptor.
use vstd::prelude::*;
use crate::annotations::RawAnnotation;
use crate::annotations::AnnotationView;
use crate::annotations::ann_views;
use crate::annotations::field_overrides_of;
use crate::annotations::parse_field_overrides;
use crate::annotations::parse_table_name;
use crate::annotations::record_table_name_of;
use crate::column::ResolvedType;
use crate::column::ResolvedTypeView;
use crate::column::infer_spec;
use crate::column::infer_column_type;
use crate::error::SchemaError;
use crate::names::pascal_case;
use crate::names::pascal_of;

verus! {

/// One field of a record definition: its identifier, its declared type
/// expression as written, and its annotations in order.
#[derive(Debug, Clone, PartialEq, Eq)]
pub struct FieldDefinition {
    /// The field identifier.
    pub name: String,
    /// The declared type expression, as unparsed text.
    pub ty: String,
    /// The field-level annotations, in source order.
    pub annotations: Vec<RawAnnotation>,
}

/// The mathematical shape of a field definition.
pub ghost struct FieldDefinitionView {
    pub name: Seq<char>,
    pub ty: Seq<char>,
    pub annotations: Seq<AnnotationView>,
}

impl View for FieldDefinition {
    type V = FieldDefinitionView;

    open spec fn view(&self) -> FieldDefinitionView {
        FieldDefinitionView {
            name: self.name@,
            ty: self.ty@,
            annotations: ann_views(self.annotations@),
        }
    }
}

/// A record definition: the input the engine derives a schema from.
/// The engine never mutates it.
#[derive(Debug, Clone, PartialEq, Eq)]
pub struct RecordDefinition {
    /// The record identifier.
    pub name: String,
    /// The record-level annotations, in source order.
    pub annotations: Vec<RawAnnotation>,
    /// The fields, in declaration order.
    pub fields: Vec<FieldDefinition>,
}

/// The mathematical shape of a record definition.
pub ghost struct RecordDefinitionView {
    pub name: Seq<char>,
    pub annotations: Seq<AnnotationView>,
    pub fields: Seq<FieldDefinitionView>,
}

impl View for RecordDefinition {
    type V = RecordDefinitionView;

    open spec fn view(&self) -> RecordDefinitionView {
        RecordDefinitionView {
            name: self.name@,
            annotations: ann_views(self.annotations@),
            fields: self.fields@.map_values(|f: FieldDefinition| f@),
        }
    }
}

/// The column derived for one field: its generated (Pascal-cased)
/// identifier, its resolved column type, and its nullability.
#[derive(Debug, Clone, PartialEq, Eq)]
pub struct ColumnSpec {
    /// The generated column identifier.
    pub name: String,
    /// The resolved column type.
    pub ty: ResolvedType,
    /// Whether the column is nullable.
    pub nullable: bool,
}

/// The mathematical shape of a column spec.
pub ghost struct ColumnSpecView {
    pub name: Seq<char>,
    pub ty: ResolvedTypeView,
    pub nullable: bool,
}

impl View for ColumnSpec {
    type V = ColumnSpecView;

    open spec fn view(&self) -> ColumnSpecView {
        ColumnSpecView { name: self.name@, ty: self.ty@, nullable: self.nullable }
    }
}

/// The views of a sequence of column specs.
pub open spec fn col_views(cols: Seq<ColumnSpec>) -> Seq<ColumnSpecView> {
    cols.map_values(|c: ColumnSpec| c@)
}

/// The primary-key set: the flagged columns' generated identifiers in
/// declaration order, and the auto-increment policy.
#[derive(Debug, Clone, PartialEq, Eq)]
pub struct PrimaryKeySpec {
    /// The generated identifiers of the key columns, in declaration order.
    pub columns: Vec<String>,
    /// Whether the key auto-increments: true exactly for a single key column.
    pub auto_increment: bool,
}

/// The views of a sequence of generated identifiers.
pub open spec fn name_views(names: Seq<String>) -> Seq<Seq<char>> {
    names.map_values(|s: String| s@)
}

/// The aggregate schema descriptor: the sole artifact handed to emission.
#[derive(Debug, Clone, PartialEq, Eq)]
pub struct SchemaDescriptor {
    /// The table name, when a record-level `table_name` annotation gave one.
    pub table_name: Option<String>,
    /// The full column sequence, in field declaration order.
    pub columns: Vec<ColumnSpec>,
    /// The primary-key set, absent when no field is flagged.
    pub primary_key: Option<PrimaryKeySpec>,
}

/// The outcome the assembler owes for a field sequence: the derived columns,
/// or the index of the first field that fails.
pub ghost enum ColumnsOutcome {
    /// Every field resolved; the columns, in declaration order.
    Columns(Seq<ColumnSpecView>),
    /// Inference failed first at this field index.
    Unsupported(int),
    /// This field index first collapsed onto an earlier column identifier.
    Duplicate(int),
}

/// What one field contributes: its inference outcome under its own
/// annotations' override set.
pub open spec fn field_infer(f: FieldDefinitionView) -> Option<(ResolvedTypeView, bool)> {
    infer_spec(f.ty, field_overrides_of(f.annotations))
}

/// The column derived for one field whose inference yielded `p`.
pub open spec fn column_of(f: FieldDefinitionView, p: (ResolvedTypeView, bool)) -> ColumnSpecView {
    ColumnSpecView { name: pascal_of(f.name), ty: p.0, nullable: p.1 }
}

/// The assembler's fold over the fields, in declaration order. Each field is
/// inferred first; a field whose generated identifier equals an earlier
/// column's identifier is a duplicate. The first failure wins.
pub open spec fn columns_of(fields: Seq<FieldDefinitionView>) -> ColumnsOutcome
    decreases fields.len(),
{
    if fields.len() == 0 {
        ColumnsOutcome::Columns(Seq::empty())
    } else {
        match columns_of(fields.drop_last()) {
            ColumnsOutcome::Columns(cols) => {
                let f = fields.last();
                match field_infer(f) {
                    None => ColumnsOutcome::Unsupported(fields.len() - 1),
                    Some(p) => {
                        if exists|j: int| 0 <= j < cols.len() && cols[j].name == pascal_of(f.name) {
                            ColumnsOutcome::Duplicate(fields.len() - 1)
                        } else {
                            ColumnsOutcome::Columns(cols.push(column_of(f, p)))
                        }
                    },
                }
            },
            o => o,
        }
    }
}

/// The generated identifiers of the primary-key-flagged fields, in
/// declaration order.
pub open spec fn pk_names_of(fields: Seq<FieldDefinitionView>) -> Seq<Seq<char>>
    decreases fields.len(),
{
    if fields.len() == 0 {
        Seq::empty()
    } else {
        let prev = pk_names_of(fields.drop_last());
        let f = fields.last();
        if field_overrides_of(f.annotations).primary_key {
            prev.push(pascal_of(f.name))
        } else {
            prev
        }
    }
}

/// How many fields carry the primary-key flag.
pub open spec fn flagged_count(fields: Seq<FieldDefinitionView>) -> nat
    decreases fields.len(),
{
    if fields.len() == 0 {
        0
    } else {
        flagged_count(fields.drop_last()) + if field_overrides_of(
            fields.last().annotations,
        ).primary_key {
            1nat
        } else {
            0nat
        }
    }
}

/// The primary-key enumeration is as long as the count of flagged fields;
/// with the assembler's auto-increment policy this makes auto-increment hold
/// exactly when a single field carries the primary-key flag.
pub proof fn lemma_pk_names_count(fields: Seq<FieldDefinitionView>)
    ensures
        pk_names_of(fields).len() == flagged_count(fields),
    decreases fields.len(),
{
    if fields.len() > 0 {
        lemma_pk_names_count(fields.drop_last());
    }
}

/// The column enumeration preserves field declaration order exactly: a
/// successful fold yields one column per field, in order, each carrying the
/// field's Pascal-cased identifier and its own inference outcome.
pub proof fn lemma_columns_order(fields: Seq<FieldDefinitionView>, cols: Seq<ColumnSpecView>)
    requires
        columns_of(fields) == ColumnsOutcome::Columns(cols),
    ensures
        cols.len() == fields.len(),
        forall|i: int|
            0 <= i < fields.len() ==> ((#[trigger] field_infer(fields[i])) matches Some(p)
                && cols[i] == column_of(fields[i], p)),
    decreases fields.len(),
{
    if fields.len() > 0 {
        match columns_of(fields.drop_last()) {
            ColumnsOutcome::Columns(cols0) => {
                lemma_columns_order(fields.drop_last(), cols0);
                assert(cols == cols0.push(
                    column_of(fields.last(), field_infer(fields.last()).unwrap()),
                ));
                assert(forall|i: int|
                    0 <= i < fields.len() - 1 ==> fields.drop_last()[i] == fields[i] && cols0[i]
                        == cols[i]);
            },
            _ => {
                assert(false);
            },
        }
    }
}

/// A successful fold never carries two columns with the same generated
/// identifier: colliding fields fail instead of collapsing silently.
pub proof fn lemma_columns_unique(fields: Seq<FieldDefinitionView>, cols: Seq<ColumnSpecView>)
    requires
        columns_of(fields) == ColumnsOutcome::Columns(cols),
    ensures
        forall|i: int, j: int| 0 <= i < j < cols.len() ==> cols[i].name != cols[j].name,
    decreases fields.len(),
{
    if fields.len() > 0 {
        match columns_of(fields.drop_last()) {
            ColumnsOutcome::Columns(cols0) => {
                lemma_columns_unique(fields.drop_last(), cols0);
                lemma_columns_order(fields.drop_last(), cols0);
                assert(cols == cols0.push(
                    column_of(fields.last(), field_infer(fields.last()).unwrap()),
                ));
                assert(forall|i: int| 0 <= i < cols0.len() ==> cols0[i] == cols[i]);
                assert(cols.last().name == pascal_of(fields.last().name));
                assert(forall|i: int|
                    0 <= i < cols0.len() ==> (#[trigger] cols[i]).name != cols[cols.len()
                        - 1].name);
            },
            _ => {
                assert(false);
            },
        }
    }
}

/// A field whose (unwrapped) declared type has no table entry and no
/// override makes the whole derivation fail: there is no silent fallback.
pub proof fn lemma_rejects_unsupported(fields: Seq<FieldDefinitionView>, i: int)
    requires
        0 <= i < fields.len(),
        field_infer(fields[i]) is None,
    ensures
        !(columns_of(fields) matches ColumnsOutcome::Columns(_)),
{
    match columns_of(fields) {
        ColumnsOutcome::Columns(cols) => {
            lemma_columns_order(fields, cols);
        },
        _ => {},
    }
}

/// Two fields whose identifiers collapse to the same generated column
/// identifier make the whole derivation fail with a duplicate, never a
/// silently merged column.
pub proof fn lemma_rejects_duplicate(fields: Seq<FieldDefinitionView>, i: int, j: int)
    requires
        0 <= i < j < fields.len(),
        pascal_of(fields[i].name) == pascal_of(fields[j].name),
    ensures
        !(columns_of(fields) matches ColumnsOutcome::Columns(_)),
{
    match columns_of(fields) {
        ColumnsOutcome::Columns(cols) => {
            lemma_columns_order(fields, cols);
            lemma_columns_unique(fields, cols);
            let pi = field_infer(fields[i]);
            let pj = field_infer(fields[j]);
            assert(cols[i].name == pascal_of(fields[i].name));
            assert(cols[j].name == pascal_of(fields[j].name));
        },
        _ => {},
    }
}

/// A failed fold over a prefix of the fields decides the fold over all of
/// them: the assembler's first failure is final.
pub proof fn lemma_columns_of_extend_error(fields: Seq<FieldDefinitionView>, m: int)
    requires
        0 <= m <= fields.len(),
        !(columns_of(fields.take(m)) matches ColumnsOutcome::Columns(_)),
    ensures
        columns_of(fields) == columns_of(fields.take(m)),
    decreases fields.len() - m,
{
    if m < fields.len() {
        assert(fields.take(m + 1).drop_last() =~= fields.take(m));
        lemma_columns_of_extend_error(fields, m + 1);
    } else {
        assert(fields.take(m) =~= fields);
    }
}

/// Whether the assembler succeeds on a descriptor matching the fold's
/// columns, table name, and primary-key policy.
pub open spec fn descriptor_matches(d: SchemaDescriptor, rec: RecordDefinitionView) -> bool {
    &&& columns_of(rec.fields) == ColumnsOutcome::Columns(col_views(d.columns@))
    &&& match d.table_name {
        Some(t) => record_table_name_of(rec.annotations) == Some(t@),
        None => record_table_name_of(rec.annotations) is None,
    }
    &&& match d.primary_key {
        Some(pk) => {
            &&& pk_names_of(rec.fields).len() > 0
            &&& name_views(pk.columns@) == pk_names_of(rec.fields)
            &&& pk.auto_increment == (pk_names_of(rec.fields).len() == 1)
        },
        None => pk_names_of(rec.fields).len() == 0,
    }
}

/// Whether the error is the one the assembler owes for this record: the
/// first field failure, carrying the offending text.
pub open spec fn assemble_error_matches(e: SchemaError, rec: RecordDefinitionView) -> bool {
    match columns_of(rec.fields) {
        ColumnsOutcome::Columns(_) => false,
        ColumnsOutcome::Unsupported(i) => e matches SchemaError::UnsupportedType(t) && t@
            == rec.fields[i].ty,
        ColumnsOutcome::Duplicate(i) => e matches SchemaError::DuplicateColumnName(n) && n@
            == pascal_of(rec.fields[i].name),
    }
}

/// Derives the schema descriptor for a record definition.
///
/// Processes the fields in declaration order, inferring each column and
/// collecting flagged primary keys; fails fast on the first field whose
/// type cannot be resolved or whose generated identifier duplicates an
/// earlier one. Succeeds on exactly the records whose fold yields columns.
pub fn assemble(rec: &RecordDefinition) -> (r: Result<SchemaDescriptor, SchemaError>)
    ensures
        match r {
            Ok(d) => descriptor_matches(d, rec@),
            Err(e) => assemble_error_matches(e, rec@),
        },
{
    let table_name = parse_table_name(&rec.annotations);
    let mut columns: Vec<ColumnSpec> = Vec::new();
    let mut pk_names: Vec<String> = Vec::new();
    let mut i: usize = 0;
    proof {
        assert(rec@.fields.take(0) =~= Seq::<FieldDefinitionView>::empty());
        assert(col_views(columns@) =~= Seq::<ColumnSpecView>::empty());
        assert(name_views(pk_names@) =~= Seq::<Seq<char>>::empty());
    }
    while i < rec.fields.len()
        invariant
            i <= rec.fields@.len(),
            columns_of(rec@.fields.take(i as int)) == ColumnsOutcome::Columns(col_views(columns@)),
            name_views(pk_names@) == pk_names_of(rec@.fields.take(i as int)),
            col_views(columns@).len() == i,
        decreases rec.fields@.len() - i,
    {
        let f = &rec.fields[i];
        proof {
            assert(rec@.fields.take(i + 1 as int).drop_last() =~= rec@.fields.take(i as int));
            assert(rec@.fields.take(i + 1 as int).last() == rec@.fields[i as int]);
            assert(rec@.fields[i as int] == f@);
        }
        let ov = parse_field_overrides(&f.annotations);
        let inferred = match infer_column_type(f.ty.as_str(), &ov) {
            Ok(p) => p,
            Err(e) => {
                proof {
                    assert(columns_of(rec@.fields.take(i + 1 as int))
                        == ColumnsOutcome::Unsupported(i as int));
                    lemma_columns_of_extend_error(rec@.fields, i + 1 as int);
                }
                return Err(e);
            },
        };
        let col_name = pascal_case(f.name.as_str());
        let mut dup = false;
        let mut j: usize = 0;
        while j < columns.len()
            invariant
                j <= columns@.len(),
                dup ==> exists|k: int|
                    0 <= k < columns@.len() && col_views(columns@)[k].name == col_name@,
                !dup ==> forall|k: int| 0 <= k < j ==> col_views(columns@)[k].name != col_name@,
            decreases columns@.len() - j,
        {
            if columns[j].name == col_name {
                proof {
                    assert(col_views(columns@)[j as int].name == col_name@);
                }
                dup = true;
            }
            j += 1;
        }
        if dup {
            proof {
                assert(columns_of(rec@.fields.take(i + 1 as int)) == ColumnsOutcome::Duplicate(
                    i as int,
                ));
                lemma_columns_of_extend_error(rec@.fields, i + 1 as int);
            }
            return Err(SchemaError::DuplicateColumnName(col_name));
        }
        let ghost ty_v = inferred.0@;
        let ghost nul_v = inferred.1;
        let ghost name_v = col_name@;
        if ov.primary_key {
            pk_names.push(col_name.clone());
            proof {
                assert(name_views(pk_names@) =~= pk_names_of(rec@.fields.take(i + 1 as int)));
            }
        } else {
            proof {
                assert(name_views(pk_names@) =~= pk_names_of(rec@.fields.take(i + 1 as int)));
            }
        }
        let col = ColumnSpec { name: col_name, ty: inferred.0, nullable: inferred.1 };
        let ghost col_v = col@;
        let ghost prev_cols = columns@;
        columns.push(col);
        proof {
            assert(col_v == ColumnSpecView { name: name_v, ty: ty_v, nullable: nul_v });
            assert(col_views(columns@) =~= col_views(prev_cols).push(col_v));
            assert(field_infer(rec@.fields[i as int]) == Some((ty_v, nul_v)));
            assert(column_of(rec@.fields[i as int], (ty_v, nul_v)) == col_v);
            assert(columns_of(rec@.fields.take(i + 1 as int)) == ColumnsOutcome::Columns(
                col_views(columns@),
            ));
        }
        i += 1;
    }
    proof {
        assert(rec@.fields.take(rec.fields@.len() as int) =~= rec@.fields);
    }
    let primary_key = if pk_names.len() == 0 {
        None
    } else {
        let auto_increment = pk_names.len() == 1;
        Some(PrimaryKeySpec { columns: pk_names, auto_increment })
    };
    Ok(SchemaDescriptor { table_name, columns, primary_key })
}

} // verus!
