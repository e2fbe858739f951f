//! Offline code generator for enumerated types with explicit numeric
//! discriminants.
//!
//! Given a description of an enumerated type — its name, a `repr`-style
//! annotation naming a primitive integer type, and an ordered list of
//! (variant name, discriminant value) pairs — the generator emits source
//! text for two conversions: a fallible one from the numeric representation
//! to the enumeration (`TryFrom`), and a total one from the enumeration to
//! its representation (`Into`). The semantics of the generated fallible
//! conversion (first matching entry wins, unmatched inputs are returned as
//! the error) is also provided directly as a verified lookup over the
//! variant table.

use vstd::prelude::*;

pub mod emit;
pub mod errors;
pub mod extract;
pub mod model;
pub mod render;
pub mod repr;
pub mod resolver;
pub mod table;

verus! {

} // verus!
