//! What is taken on trust of the vector type that samples are handed out in.
//!
//! Nothing in this file is proved. It states what the `accelerometer` crate
//! does, as its source shows it.

use vstd::prelude::*;

verus! {

/// `accelerometer::vector::I32x3`, a vector of three `i32` components in the
/// public fields `x`, `y` and `z`.
#[verifier::external_type_specification]
#[verifier::external_body]
pub struct ExI32x3(accelerometer::vector::I32x3);

/// What a vector holds: its fields `x`, `y` and `z`, in this order.
pub uninterp spec fn components(vector: accelerometer::vector::I32x3) -> Seq<i32>;

/// `I32x3::new` stores its three arguments in the fields `x`, `y` and `z` of
/// the vector that it returns.
pub assume_specification[ accelerometer::vector::I32x3::new ](x: i32, y: i32, z: i32) -> (vector:
    accelerometer::vector::I32x3)
    ensures
        components(vector) == seq![x, y, z],
;

} // verus!
