//! Raw annotations attached to a record or a field, and the lenient scan
//! that folds them into a structured override set.
use vstd::prelude::*;
use crate::chars::str_is;

verus! {

/// One raw annotation as the host's source representation hands it over:
/// a namespace, a key, and either a string-literal value or a bare flag.
#[derive(Debug, Clone, PartialEq, Eq)]
pub struct RawAnnotation {
    /// The annotation namespace; only `auto_column` is recognized.
    pub namespace: String,
    /// The key inside the namespace, such as `type` or `primary_key`.
    pub key: String,
    /// The string-literal value, or `None` for a bare flag.
    pub value: Option<String>,
}

/// The mathematical shape of a raw annotation.
pub ghost struct AnnotationView {
    pub namespace: Seq<char>,
    pub key: Seq<char>,
    pub value: Option<Seq<char>>,
}

impl View for RawAnnotation {
    type V = AnnotationView;

    open spec fn view(&self) -> AnnotationView {
        AnnotationView {
            namespace: self.namespace@,
            key: self.key@,
            value: match self.value {
                Some(v) => Some(v@),
                None => None,
            },
        }
    }
}

/// The views of a sequence of raw annotations.
pub open spec fn ann_views(anns: Seq<RawAnnotation>) -> Seq<AnnotationView> {
    anns.map_values(|a: RawAnnotation| a@)
}

/// The merged field-level override set: an explicit column type, the
/// primary-key flag, and the nullability flag.
#[derive(Debug, Clone, PartialEq, Eq)]
pub struct FieldOverrides {
    /// Explicit column-type constructor literal from `type = "..."`.
    pub ty: Option<String>,
    /// Whether a `primary_key` flag was seen.
    pub primary_key: bool,
    /// Whether a `nullable` flag was seen.
    pub nullable: bool,
}

/// The mathematical shape of a field-level override set.
pub ghost struct FieldOverridesView {
    pub ty: Option<Seq<char>>,
    pub primary_key: bool,
    pub nullable: bool,
}

impl View for FieldOverrides {
    type V = FieldOverridesView;

    open spec fn view(&self) -> FieldOverridesView {
        FieldOverridesView {
            ty: match self.ty {
                Some(v) => Some(v@),
                None => None,
            },
            primary_key: self.primary_key,
            nullable: self.nullable,
        }
    }
}

/// The override set with nothing set: no explicit type, no flags.
pub open spec fn no_overrides() -> FieldOverridesView {
    FieldOverridesView { ty: None, primary_key: false, nullable: false }
}

/// One step of the lenient field-level scan: a recognized, well-formed
/// annotation updates the override set, anything else is skipped.
/// Value-bearing keys take the last-seen value; flags are or'd in.
pub open spec fn apply_field_annotation(o: FieldOverridesView, a: AnnotationView) -> FieldOverridesView {
    if a.namespace != "auto_column"@ {
        o
    } else if a.key == "type"@ && a.value is Some {
        FieldOverridesView { ty: a.value, primary_key: o.primary_key, nullable: o.nullable }
    } else if a.key == "primary_key"@ && a.value is None {
        FieldOverridesView { ty: o.ty, primary_key: true, nullable: o.nullable }
    } else if a.key == "nullable"@ && a.value is None {
        FieldOverridesView { ty: o.ty, primary_key: o.primary_key, nullable: true }
    } else {
        o
    }
}

/// The override set that the lenient scan derives from a field's
/// annotations, processed in order.
pub open spec fn field_overrides_of(anns: Seq<AnnotationView>) -> FieldOverridesView
    decreases anns.len(),
{
    if anns.len() == 0 {
        no_overrides()
    } else {
        apply_field_annotation(field_overrides_of(anns.drop_last()), anns.last())
    }
}

/// The record-level `table_name` value that the lenient scan derives from a
/// record's annotations: the last well-formed occurrence, if any.
pub open spec fn record_table_name_of(anns: Seq<AnnotationView>) -> Option<Seq<char>>
    decreases anns.len(),
{
    if anns.len() == 0 {
        None
    } else {
        let a = anns.last();
        if a.namespace == "auto_column"@ && a.key == "table_name"@ && a.value is Some {
            a.value
        } else {
            record_table_name_of(anns.drop_last())
        }
    }
}

/// Scans a field's annotations leniently into its override set.
///
/// Unrecognized namespaces and keys are ignored, and a malformed annotation
/// (a value-bearing key given as a bare flag, or a flag given a value) is
/// treated as absent. The last `type` value seen wins; flags accumulate.
pub fn parse_field_overrides(anns: &Vec<RawAnnotation>) -> (r: FieldOverrides)
    ensures
        r@ == field_overrides_of(ann_views(anns@)),
{
    let mut r = FieldOverrides { ty: None, primary_key: false, nullable: false };
    let mut i: usize = 0;
    while i < anns.len()
        invariant
            i <= anns@.len(),
            r@ == field_overrides_of(ann_views(anns@).take(i as int)),
        decreases anns@.len() - i,
    {
        let a = &anns[i];
        proof {
            reveal_strlit("type");
            reveal_strlit("primary_key");
            reveal_strlit("nullable");
            assert("type"@.len() == 4);
            assert("primary_key"@.len() == 11);
            assert("nullable"@.len() == 8);
            assert("type"@ != "primary_key"@);
            assert("type"@ != "nullable"@);
            assert("primary_key"@ != "nullable"@);
            assert(ann_views(anns@).take(i + 1 as int).drop_last() =~= ann_views(anns@).take(
                i as int,
            ));
            assert(ann_views(anns@).take(i + 1 as int).last() == anns@[i as int]@);
        }
        if str_is(a.namespace.as_str(), "auto_column") {
            if str_is(a.key.as_str(), "type") {
                match &a.value {
                    Some(v) => {
                        r.ty = Some(v.clone());
                    },
                    None => {},
                }
            } else if str_is(a.key.as_str(), "primary_key") {
                match &a.value {
                    Some(_) => {},
                    None => {
                        r.primary_key = true;
                    },
                }
            } else if str_is(a.key.as_str(), "nullable") {
                match &a.value {
                    Some(_) => {},
                    None => {
                        r.nullable = true;
                    },
                }
            }
        }
        i += 1;
    }
    proof {
        assert(ann_views(anns@).take(anns@.len() as int) =~= ann_views(anns@));
    }
    r
}

/// Scans a record's annotations leniently for its `table_name` value.
///
/// Returns the last well-formed `table_name = "..."` in the recognized
/// namespace; malformed or unrecognized annotations are skipped.
pub fn parse_table_name(anns: &Vec<RawAnnotation>) -> (r: Option<String>)
    ensures
        match r {
            Some(s) => record_table_name_of(ann_views(anns@)) == Some(s@),
            None => record_table_name_of(ann_views(anns@)) is None,
        },
{
    let mut r: Option<String> = None;
    let mut i: usize = 0;
    while i < anns.len()
        invariant
            i <= anns@.len(),
            match r {
                Some(s) => record_table_name_of(ann_views(anns@).take(i as int)) == Some(s@),
                None => record_table_name_of(ann_views(anns@).take(i as int)) is None,
            },
        decreases anns@.len() - i,
    {
        let a = &anns[i];
        proof {
            assert(ann_views(anns@).take(i + 1 as int).drop_last() =~= ann_views(anns@).take(
                i as int,
            ));
            assert(ann_views(anns@).take(i + 1 as int).last() == anns@[i as int]@);
        }
        if str_is(a.namespace.as_str(), "auto_column") && str_is(a.key.as_str(), "table_name") {
            match &a.value {
                Some(v) => {
                    r = Some(v.clone());
                },
                None => {},
            }
        }
        i += 1;
    }
    proof {
        assert(ann_views(anns@).take(anns@.len() as int) =~= ann_views(anns@));
    }
    r
}

} // verus!
