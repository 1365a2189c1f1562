//! The integer vectors of `glam` that carry grid coordinates.
//!
//! Both are declared with their fields, so a coordinate is to the verifier
//! what it is to the compiler: three integers.

use vstd::prelude::*;

verus! {

/// `glam::IVec3`: three `i32` components, `x`, `y` and `z`.
#[verifier::external_type_specification]
pub struct ExIVec3(glam::IVec3);

/// `glam::UVec3`: three `u32` components, `x`, `y` and `z`.
#[verifier::external_type_specification]
pub struct ExUVec3(glam::UVec3);

} // verus!
