//! Turns an enumerated type whose members carry fixed integer, string or
//! tuple discriminants into one with a fallback member that keeps any value
//! the fixed members do not cover, and converts both ways between the two.
use vstd::prelude::*;

pub mod convert;
pub mod decl;
pub mod literal;
pub mod resolve;
pub mod shape;
pub mod transform;

pub use convert::{conversions, discriminant_value, Conversions, Scalar, Value, Variant};
pub use decl::{Discriminant, EnumDecl, Literal, Member};
pub use resolve::{parse_int_expr, resolve_discriminants, Resolved, TransformError};
pub use shape::{fallback_fields, Args, ValueType};
pub use transform::{other, Transformed};

verus! {

} // verus!
