//! Named presets a session can start from.

use vstd::prelude::*;
use crate::field::Field;
use crate::filter::Filter;
use crate::matrix::{spec_mat3_identity, spec_mat3_scaling, spec_mat4_diagonal, NEG_ONE_BITS, ONE_BITS};
use crate::state::{State, Text};

verus! {

/// Bit pattern of single-precision `2.0`: the scaling the `Highwaystar`
/// preset applies.
pub const TWO_BITS: u32 = 0x4000_0000;

/// Bit pattern of single-precision `0.05`: the `Hello` preset's text size.
pub const HELLO_SIZE_BITS: u32 = 0x3D4C_CCCD;

/// Bit pattern of single-precision `0.10`: the `Hello` preset's horizontal
/// text offset.
pub const HELLO_X_BITS: u32 = 0x3DCC_CCCD;

/// Bit pattern of single-precision `-0.10`: the `Hello` preset's vertical
/// text offset.
pub const HELLO_Y_BITS: u32 = 0xBDCC_CCCD;

/// A filter whose color transform inverts red, green and blue, with the
/// given pattern and an identity position.
pub open spec fn spec_inverted_filter(f: Filter, field: Field) -> bool {
    &&& f.color.entries@ == spec_mat4_diagonal(NEG_ONE_BITS, NEG_ONE_BITS, NEG_ONE_BITS, ONE_BITS)
    &&& f.coordinates == false
    &&& f.field == field
    &&& f.position.entries@ == spec_mat3_identity()
    &&& f.wrap == false
}

/// A named preset.
#[derive(Clone, Copy, Debug, PartialEq, Eq, Structural)]
pub enum Program {
    All,
    Bottom,
    Circle,
    Frequencies,
    Hello,
    Highwaystar,
    Middle,
    Nothing,
    RedX,
    Rip,
    Top,
    X,
}

impl Program {
    /// The state the preset stands for.
    pub fn state(self) -> (r: State)
        ensures
            r.alpha.wf() && r.alpha.spec_value() == 0,
            r.parameter.wf() && r.parameter.spec_value() == 0,
            match self {
                Program::All => r.filters@.len() == 1 && spec_inverted_filter(
                    r.filters@[0],
                    Field::All,
                ) && r.db == 0 && r.text is None,
                Program::Bottom => r.filters@.len() == 1 && spec_inverted_filter(
                    r.filters@[0],
                    Field::Bottom,
                ) && r.db == 0 && r.text is None,
                Program::Circle => r.filters@.len() == 1 && spec_inverted_filter(
                    r.filters@[0],
                    Field::Circle,
                ) && r.db == 0 && r.text is None,
                Program::Frequencies => r.filters@.len() == 1 && spec_inverted_filter(
                    r.filters@[0],
                    Field::Frequencies,
                ) && r.db == 0 && r.text is None,
                Program::Hello => r.filters@.len() == 1 && spec_inverted_filter(
                    r.filters@[0],
                    Field::Frequencies,
                ) && r.db == -40 && (r.text matches Some(t) && t.size == HELLO_SIZE_BITS
                    && t.x == HELLO_X_BITS && t.y == HELLO_Y_BITS && t.string@
                    == "hello world"@),
                Program::Highwaystar => r.filters@.len() == 8 && (forall|j: int|
                    0 <= j < 8 ==> {
                        let f = #[trigger] r.filters@[j];
                        &&& f.color.entries@ == spec_mat4_diagonal(
                            NEG_ONE_BITS,
                            NEG_ONE_BITS,
                            NEG_ONE_BITS,
                            ONE_BITS,
                        )
                        &&& f.field == Field::Circle
                        &&& f.position.entries@ == spec_mat3_scaling(TWO_BITS)
                        &&& f.coordinates == false
                        &&& f.wrap == false
                    }) && r.db == 0 && r.text is None,
                Program::Middle => r.filters@.len() == 2 && spec_inverted_filter(
                    r.filters@[0],
                    Field::Top,
                ) && spec_inverted_filter(r.filters@[1], Field::Bottom) && r.db == 0
                    && r.text is None,
                Program::Nothing => r.filters@.len() == 0 && r.db == 0 && r.text is None,
                Program::RedX => r.filters@.len() == 1 && ({
                    let f = r.filters@[0];
                    &&& f.color.entries@ == spec_mat4_diagonal(
                        NEG_ONE_BITS,
                        ONE_BITS,
                        ONE_BITS,
                        ONE_BITS,
                    )
                    &&& f.field == Field::X
                    &&& f.position.entries@ == spec_mat3_identity()
                    &&& f.coordinates == false
                    &&& f.wrap == false
                }) && r.db == 0 && r.text is None,
                Program::Rip => r.filters@.len() == 2 && spec_inverted_filter(
                    r.filters@[0],
                    Field::Top,
                ) && spec_inverted_filter(r.filters@[1], Field::Samples) && r.db == 0
                    && r.text is None,
                Program::Top => r.filters@.len() == 1 && spec_inverted_filter(
                    r.filters@[0],
                    Field::Top,
                ) && r.db == 0 && r.text is None,
                Program::X => r.filters@.len() == 1 && spec_inverted_filter(
                    r.filters@[0],
                    Field::X,
                ) && r.db == 0 && r.text is None,
            },
    {
        match self {
            Program::All => State::default().invert().all().push(),
            Program::Bottom => State::default().invert().bottom().push(),
            Program::Circle => State::default().invert().circle().push(),
            Program::Frequencies => State::default().invert().frequencies().push(),
            Program::Hello => State::default().db(-40).text(
                Some(
                    Text {
                        size: HELLO_SIZE_BITS,
                        string: "hello world".to_string(),
                        x: HELLO_X_BITS,
                        y: HELLO_Y_BITS,
                    },
                ),
            ).invert().frequencies().push(),
            Program::Highwaystar => State::default().invert().circle().scale(TWO_BITS).times(8),
            Program::Middle => State::default().invert().top().push().bottom().push(),
            Program::Nothing => State::default(),
            Program::RedX => State::default().invert_r().x().push(),
            Program::Rip => State::default().invert().top().push().samples().push(),
            Program::Top => State::default().invert().top().push(),
            Program::X => State::default().invert().x().push(),
        }
    }
}

} // verus!
