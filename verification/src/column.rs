//! Column types and the type inference engine: maps a field's declared type
//! expression, together with its override set, to a column type and a
//! nullability flag.
use vstd::prelude::*;
use crate::annotations::FieldOverrides;
use crate::annotations::FieldOverridesView;
use crate::chars::chars_eq_str;
use crate::chars::lemma_strip_spaces_id;
use crate::chars::chars_range;
use crate::chars::strip_spaces;
use crate::chars::strip_spaces_exec;
use crate::error::SchemaError;

verus! {

/// The closed set of column types the fixed inference table can produce.
#[derive(Debug, Clone, Copy, PartialEq, Eq, Structural)]
pub enum ColumnKind {
    /// A single-character column.
    Char,
    /// A variable-length string column.
    Text,
    /// An 8-bit integer column.
    TinyInteger,
    /// A 16-bit integer column.
    SmallInteger,
    /// A 32/64-bit integer column.
    Integer,
    /// A 128-bit integer column.
    BigInteger,
    /// A 32-bit floating-point column.
    Float,
    /// A 64-bit floating-point column.
    Double,
    /// A boolean column.
    Boolean,
    /// A date-only column.
    Date,
    /// A time-only column.
    Time,
    /// A date-and-time column.
    DateTime,
    /// A UUID column.
    Uuid,
}

/// A resolved column type: either inferred from the fixed table, or the
/// verbatim literal of an explicit `type` override.
#[derive(Debug, Clone, PartialEq, Eq)]
pub enum ResolvedType {
    /// Inferred from the fixed table.
    Inferred(ColumnKind),
    /// The verbatim column-type constructor literal of a `type` override.
    Explicit(String),
}

/// The mathematical shape of a resolved column type.
pub ghost enum ResolvedTypeView {
    Inferred(ColumnKind),
    Explicit(Seq<char>),
}

impl View for ResolvedType {
    type V = ResolvedTypeView;

    open spec fn view(&self) -> ResolvedTypeView {
        match self {
            ResolvedType::Inferred(k) => ResolvedTypeView::Inferred(*k),
            ResolvedType::Explicit(s) => ResolvedTypeView::Explicit(s@),
        }
    }
}

/// The fixed inference table: the column type for a recognized type name,
/// matched case-sensitively and exactly.
pub open spec fn table_lookup(s: Seq<char>) -> Option<ColumnKind> {
    if s == "char"@ {
        Some(ColumnKind::Char)
    } else if s == "String"@ || s == "&str"@ {
        Some(ColumnKind::Text)
    } else if s == "u8"@ || s == "i8"@ {
        Some(ColumnKind::TinyInteger)
    } else if s == "u16"@ || s == "i16"@ {
        Some(ColumnKind::SmallInteger)
    } else if s == "u32"@ || s == "u64"@ || s == "i32"@ || s == "i64"@ {
        Some(ColumnKind::Integer)
    } else if s == "u128"@ || s == "i128"@ {
        Some(ColumnKind::BigInteger)
    } else if s == "f32"@ {
        Some(ColumnKind::Float)
    } else if s == "f64"@ {
        Some(ColumnKind::Double)
    } else if s == "bool"@ {
        Some(ColumnKind::Boolean)
    } else if s == "NaiveDate"@ {
        Some(ColumnKind::Date)
    } else if s == "NaiveTime"@ {
        Some(ColumnKind::Time)
    } else if s == "NaiveDateTime"@ {
        Some(ColumnKind::DateTime)
    } else if s == "Uuid"@ {
        Some(ColumnKind::Uuid)
    } else {
        None
    }
}

/// Whether a whitespace-stripped type expression has the optional-wrapper
/// shape `Option<Inner>`.
pub open spec fn is_option_shape(s: Seq<char>) -> bool {
    s.len() >= 8 && s.subrange(0, 7) == "Option<"@ && s[s.len() - 1] == '>'
}

/// The inner type expression of an optional-wrapper shape.
pub open spec fn option_inner(s: Seq<char>) -> Seq<char> {
    s.subrange(7, s.len() - 1)
}

/// What inference yields for a declared type expression under an override
/// set: the resolved type and nullability, or nothing when the (unwrapped)
/// type has no table entry and no override escapes it.
///
/// An explicit `type` override wins outright and is trusted literally;
/// nullability then comes only from the explicit `nullable` flag. Otherwise
/// the expression is stripped of spaces, an optional wrapper is unwrapped
/// (forcing nullability), and the effective name is looked up in the table.
pub open spec fn infer_spec(declared: Seq<char>, ov: FieldOverridesView) -> Option<
    (ResolvedTypeView, bool),
> {
    match ov.ty {
        Some(t) => Some((ResolvedTypeView::Explicit(t), ov.nullable)),
        None => {
            let stripped = strip_spaces(declared);
            let eff = if is_option_shape(stripped) {
                option_inner(stripped)
            } else {
                stripped
            };
            let wrapped = is_option_shape(stripped);
            match table_lookup(eff) {
                Some(k) => Some((ResolvedTypeView::Inferred(k), wrapped)),
                None => None,
            }
        },
    }
}

/// Every name in the fixed table is already whitespace-free and does not
/// itself have the optional-wrapper shape.
pub proof fn lemma_table_names_plain(s: Seq<char>)
    requires
        table_lookup(s) is Some,
    ensures
        strip_spaces(s) == s,
        !is_option_shape(s),
{
    reveal_strlit("char");
    reveal_strlit("String");
    reveal_strlit("&str");
    reveal_strlit("u8");
    reveal_strlit("i8");
    reveal_strlit("u16");
    reveal_strlit("i16");
    reveal_strlit("u32");
    reveal_strlit("u64");
    reveal_strlit("i32");
    reveal_strlit("i64");
    reveal_strlit("u128");
    reveal_strlit("i128");
    reveal_strlit("f32");
    reveal_strlit("f64");
    reveal_strlit("bool");
    reveal_strlit("NaiveDate");
    reveal_strlit("NaiveTime");
    reveal_strlit("NaiveDateTime");
    reveal_strlit("Uuid");
    reveal_strlit("Option<");
    if s == "NaiveDate"@ || s == "NaiveTime"@ || s == "NaiveDateTime"@ {
        assert(forall|i: int| 0 <= i < s.len() ==> s[i] != ' ');
        lemma_strip_spaces_id(s);
        assert(s[0] == 'N');
        assert("Option<"@[0] == 'O');
        if is_option_shape(s) {
            assert(s.subrange(0, 7)[0] == s[0]);
            assert(false);
        }
    } else {
        assert(s.len() < 8);
        assert(forall|i: int| 0 <= i < s.len() ==> s[i] != ' ');
        lemma_strip_spaces_id(s);
    }
}

/// Every supported type name in the fixed table, declared bare and without
/// overrides, infers to its mapped column type with nullability off.
pub proof fn lemma_plain_name_infers(s: Seq<char>, k: ColumnKind)
    requires
        table_lookup(s) == Some(k),
    ensures
        infer_spec(s, crate::annotations::no_overrides()) == Some(
            (ResolvedTypeView::Inferred(k), false),
        ),
{
    lemma_table_names_plain(s);
}

/// Every supported type name in the fixed table, declared under the
/// optional wrapper and without overrides, infers to its mapped column type
/// with nullability on.
pub proof fn lemma_optional_name_infers(s: Seq<char>, k: ColumnKind)
    requires
        table_lookup(s) == Some(k),
    ensures
        infer_spec("Option<"@ + s + ">"@, crate::annotations::no_overrides()) == Some(
            (ResolvedTypeView::Inferred(k), true),
        ),
{
    let w = "Option<"@ + s + ">"@;
    lemma_table_names_plain(s);
    reveal_strlit("Option<");
    reveal_strlit(">");
    assert("Option<"@.len() == 7);
    assert(">"@.len() == 1);
    crate::chars::lemma_strip_spaces_add("Option<"@ + s, ">"@);
    crate::chars::lemma_strip_spaces_add("Option<"@, s);
    assert(forall|i: int| 0 <= i < "Option<"@.len() ==> "Option<"@[i] != ' ');
    lemma_strip_spaces_id("Option<"@);
    assert(forall|i: int| 0 <= i < ">"@.len() ==> ">"@[i] != ' ');
    lemma_strip_spaces_id(">"@);
    assert(strip_spaces(w) =~= w);
    assert(w.len() == 8 + s.len());
    assert(w.subrange(0, 7) =~= "Option<"@);
    assert(w[w.len() - 1] == '>');
    assert(is_option_shape(w));
    assert(option_inner(w) =~= s);
}

/// An explicit `type` override always wins over inference: whatever the
/// declared type expression, the resolved type is the override literal
/// verbatim, and nullability comes only from the explicit flag.
pub proof fn lemma_explicit_override_wins(declared: Seq<char>, ov: FieldOverridesView)
    requires
        ov.ty is Some,
    ensures
        infer_spec(declared, ov) matches Some(p) && p.0 == ResolvedTypeView::Explicit(
            ov.ty.unwrap(),
        ) && p.1 == ov.nullable,
{
}

/// Looks up a whitespace-free type name in the fixed table.
fn table_lookup_exec(v: &Vec<char>) -> (r: Option<ColumnKind>)
    ensures
        r == table_lookup(v@),
{
    if chars_eq_str(v, "char") {
        Some(ColumnKind::Char)
    } else if chars_eq_str(v, "String") || chars_eq_str(v, "&str") {
        Some(ColumnKind::Text)
    } else if chars_eq_str(v, "u8") || chars_eq_str(v, "i8") {
        Some(ColumnKind::TinyInteger)
    } else if chars_eq_str(v, "u16") || chars_eq_str(v, "i16") {
        Some(ColumnKind::SmallInteger)
    } else if chars_eq_str(v, "u32") || chars_eq_str(v, "u64") || chars_eq_str(v, "i32")
        || chars_eq_str(v, "i64") {
        Some(ColumnKind::Integer)
    } else if chars_eq_str(v, "u128") || chars_eq_str(v, "i128") {
        Some(ColumnKind::BigInteger)
    } else if chars_eq_str(v, "f32") {
        Some(ColumnKind::Float)
    } else if chars_eq_str(v, "f64") {
        Some(ColumnKind::Double)
    } else if chars_eq_str(v, "bool") {
        Some(ColumnKind::Boolean)
    } else if chars_eq_str(v, "NaiveDate") {
        Some(ColumnKind::Date)
    } else if chars_eq_str(v, "NaiveTime") {
        Some(ColumnKind::Time)
    } else if chars_eq_str(v, "NaiveDateTime") {
        Some(ColumnKind::DateTime)
    } else if chars_eq_str(v, "Uuid") {
        Some(ColumnKind::Uuid)
    } else {
        None
    }
}

/// Checks a whitespace-free type expression for the `Option<Inner>` shape.
fn option_shape_exec(v: &Vec<char>) -> (r: bool)
    ensures
        r == is_option_shape(v@),
{
    if v.len() < 8 {
        return false;
    }
    let prefix = chars_range(v, 0, 7);
    let pre_ok = chars_eq_str(&prefix, "Option<");
    let last = v[v.len() - 1];
    pre_ok && last == '>'
}

/// Resolves one field's column type and nullability.
///
/// Returns the inference outcome of `infer_spec`; when the (unwrapped)
/// declared type has no table entry and no override, fails with
/// `UnsupportedType` carrying the declared type expression as written.
pub fn infer_column_type(declared: &str, ov: &FieldOverrides) -> (r: Result<
    (ResolvedType, bool),
    SchemaError,
>)
    ensures
        match r {
            Ok(p) => infer_spec(declared@, ov@) == Some((p.0@, p.1)),
            Err(e) => infer_spec(declared@, ov@) is None && (e matches SchemaError::UnsupportedType(
                t,
            ) && t@ == declared@),
        },
{
    match &ov.ty {
        Some(t) => Ok((ResolvedType::Explicit(t.clone()), ov.nullable)),
        None => {
            let stripped = strip_spaces_exec(declared);
            let wrapped = option_shape_exec(&stripped);
            let eff = if wrapped {
                chars_range(&stripped, 7, stripped.len() - 1)
            } else {
                stripped
            };
            match table_lookup_exec(&eff) {
                Some(k) => Ok((ResolvedType::Inferred(k), wrapped)),
                None => Err(SchemaError::UnsupportedType(declared.to_owned())),
            }
        },
    }
}

} // verus!
