//! Byte-level serialization of booleans.
//!
//! A boolean travels as a single byte, 1 for true and 0 for false; any other
//! byte is rejected when read back, since no boolean has that bit pattern.

use vstd::prelude::*;

verus! {

/// A byte that is not the bit pattern of any boolean.
#[derive(Clone, Copy, Debug, PartialEq, Eq, Structural)]
pub enum BoolError {
    Bool { value: u8 },
}

/// The byte a boolean is stored as.
pub open spec fn spec_bool_bit_pattern(value: bool) -> u8 {
    if value {
        1
    } else {
        0
    }
}

/// The bit pattern of `value` as a byte: 1 for true, 0 for false.
pub fn bool_bit_pattern(value: bool) -> (r: u8)
    ensures
        r == spec_bool_bit_pattern(value),
{
    if value {
        1
    } else {
        0
    }
}

/// Accumulates serialized booleans into a byte buffer.
pub struct BoolSerializer {
    state: Vec<u8>,
}

impl BoolSerializer {
    pub closed spec fn spec_state(self) -> Seq<u8> {
        self.state@
    }

    /// Wrap the buffer serialized bytes are appended to.
    pub fn new(state: Vec<u8>) -> (r: BoolSerializer)
        ensures
            r.spec_state() == state@,
    {
        BoolSerializer { state }
    }

    /// Append the byte form of `value`.
    pub fn serialize(&mut self, value: bool)
        requires
            old(self).spec_state().len() < usize::MAX,
        ensures
            final(self).spec_state() == old(self).spec_state().push(spec_bool_bit_pattern(value)),
    {
        let byte = bool_bit_pattern(value);
        self.state.push(byte);
    }

    /// Hand the accumulated bytes back.
    pub fn state(self) -> (r: Vec<u8>)
        ensures
            r@ == self.spec_state(),
    {
        self.state
    }
}

/// Validate a stored byte as a boolean: exactly the two boolean bit patterns
/// are accepted, and an invalid byte is reported with its value.
pub fn check(suspect: u8) -> (r: Result<bool, BoolError>)
    ensures
        suspect == spec_bool_bit_pattern(false) ==> r == Result::<bool, BoolError>::Ok(false),
        suspect == spec_bool_bit_pattern(true) ==> r == Result::<bool, BoolError>::Ok(true),
        suspect > 1 ==> r == Result::<bool, BoolError>::Err(BoolError::Bool { value: suspect }),
{
    if suspect == 0 {
        Ok(false)
    } else if suspect == 1 {
        Ok(true)
    } else {
        Err(BoolError::Bool { value: suspect })
    }
}

/// A boolean's view is itself.
pub fn from_view(view: &bool) -> (r: bool)
    ensures
        r == view,
{
    *view
}

} // verus!
