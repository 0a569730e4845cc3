//! One visual transform in the chain.

use vstd::prelude::*;
use crate::field::Field;
use crate::matrix::{Mat3, Mat4, spec_mat3_identity, spec_mat4_identity};

verus! {

/// A single visual transform: a pattern selector plus the color and position
/// transforms applied before the pattern branch runs. Immutable once pushed
/// onto a chain.
#[derive(Clone, Copy, Debug)]
pub struct Filter {
    pub color: Mat4,
    pub coordinates: bool,
    pub field: Field,
    pub position: Mat3,
    pub wrap: bool,
}

impl Filter {
    pub open spec fn spec_is_default(self) -> bool {
        &&& self.color.entries@ == spec_mat4_identity()
        &&& self.coordinates == false
        &&& self.field == Field::Nothing
        &&& self.position.entries@ == spec_mat3_identity()
        &&& self.wrap == false
    }
}

impl Default for Filter {
    fn default() -> (r: Self)
        ensures
            r.spec_is_default(),
    {
        Filter {
            color: Mat4::identity(),
            coordinates: false,
            field: Field::Nothing,
            position: Mat3::identity(),
            wrap: false,
        }
    }
}

} // verus!
