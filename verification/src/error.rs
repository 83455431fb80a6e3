use vstd::prelude::*;

verus! {

/// Why schema derivation failed for one record definition.
///
/// Each variant carries the offending identifier or type text, so the
/// build-time diagnostic can name what violated which rule.
#[derive(Debug, Clone, PartialEq, Eq)]
pub enum SchemaError {
    /// The declared (or unwrapped) type has no entry in the fixed inference
    /// table and no explicit `type` override was given.
    UnsupportedType(String),
    /// The full-module shape was invoked without a required record-level
    /// annotation (`table_name`, or a non-empty primary-key list).
    MissingRequiredAnnotation(String),
    /// Two fields collapse to the same generated column identifier.
    DuplicateColumnName(String),
    /// An annotation's value is not the literal kind its key requires, in a
    /// context that requires that annotation.
    MalformedAnnotation(String),
}

} // verus!
