//! Build-time derivation of relational-schema metadata from a typed record
//! definition: attribute parsing, type-to-column inference, naming-convention
//! transformation, primary-key policy, and emission of the resulting
//! schema descriptor in two wiring shapes.
#![allow(unused_imports)]

pub mod annotations;
pub mod chars;
pub mod column;
pub mod emit;
pub mod error;
pub mod names;
pub mod schema;
