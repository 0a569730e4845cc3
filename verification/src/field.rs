//! The visual pattern a filter pass selects in the shader.

use vstd::prelude::*;

verus! {

/// Which pattern branch the shader evaluates for a filter pass.
#[derive(Clone, Copy, Debug, PartialEq, Eq, Structural)]
pub enum Field {
    All,
    Bottom,
    Circle,
    Frequencies,
    Nothing,
    Samples,
    Top,
    X,
}

impl Default for Field {
    fn default() -> (r: Self)
        ensures
            r == Field::Nothing,
    {
        Field::Nothing
    }
}

impl Field {
    /// The tag under which this field is serialized into a parameter record.
    pub open spec fn spec_tag(self) -> u32 {
        match self {
            Field::All => 0,
            Field::Bottom => 1,
            Field::Circle => 2,
            Field::Frequencies => 3,
            Field::Nothing => 4,
            Field::Samples => 5,
            Field::Top => 6,
            Field::X => 7,
        }
    }

    pub fn tag(self) -> (r: u32)
        ensures
            r == self.spec_tag(),
            r < 8,
    {
        match self {
            Field::All => 0,
            Field::Bottom => 1,
            Field::Circle => 2,
            Field::Frequencies => 3,
            Field::Nothing => 4,
            Field::Samples => 5,
            Field::Top => 6,
            Field::X => 7,
        }
    }

    /// The field with the given serialized tag, if the tag is in range.
    pub fn from_tag(tag: u32) -> (r: Option<Field>)
        ensures
            tag < 8 ==> (r matches Some(f) && f.spec_tag() == tag),
            tag >= 8 ==> r is None,
    {
        match tag {
            0 => Some(Field::All),
            1 => Some(Field::Bottom),
            2 => Some(Field::Circle),
            3 => Some(Field::Frequencies),
            4 => Some(Field::Nothing),
            5 => Some(Field::Samples),
            6 => Some(Field::Top),
            7 => Some(Field::X),
            _ => None,
        }
    }

    pub open spec fn spec_name(self) -> Seq<char> {
        match self {
            Field::All => "All"@,
            Field::Bottom => "Bottom"@,
            Field::Circle => "Circle"@,
            Field::Frequencies => "Frequencies"@,
            Field::Nothing => "None"@,
            Field::Samples => "Samples"@,
            Field::Top => "Top"@,
            Field::X => "X"@,
        }
    }

    /// The field's name as it appears in shader source and presets.
    pub fn name(self) -> (r: &'static str)
        ensures
            r@ == self.spec_name(),
    {
        match self {
            Field::All => "All",
            Field::Bottom => "Bottom",
            Field::Circle => "Circle",
            Field::Frequencies => "Frequencies",
            Field::Nothing => "None",
            Field::Samples => "Samples",
            Field::Top => "Top",
            Field::X => "X",
        }
    }

    pub open spec fn spec_constant(self) -> Seq<char> {
        match self {
            Field::All => "FIELD_ALL"@,
            Field::Bottom => "FIELD_BOTTOM"@,
            Field::Circle => "FIELD_CIRCLE"@,
            Field::Frequencies => "FIELD_FREQUENCIES"@,
            Field::Nothing => "FIELD_NONE"@,
            Field::Samples => "FIELD_SAMPLES"@,
            Field::Top => "FIELD_TOP"@,
            Field::X => "FIELD_X"@,
        }
    }

    /// The shader constant naming this field: `FIELD_` followed by the
    /// upper-cased field name.
    pub fn constant(self) -> (r: &'static str)
        ensures
            r@ == self.spec_constant(),
    {
        match self {
            Field::All => "FIELD_ALL",
            Field::Bottom => "FIELD_BOTTOM",
            Field::Circle => "FIELD_CIRCLE",
            Field::Frequencies => "FIELD_FREQUENCIES",
            Field::Nothing => "FIELD_NONE",
            Field::Samples => "FIELD_SAMPLES",
            Field::Top => "FIELD_TOP",
            Field::X => "FIELD_X",
        }
    }

    pub open spec fn spec_function(self) -> Seq<char> {
        match self {
            Field::All => "field_all"@,
            Field::Bottom => "field_bottom"@,
            Field::Circle => "field_circle"@,
            Field::Frequencies => "field_frequencies"@,
            Field::Nothing => "field_none"@,
            Field::Samples => "field_samples"@,
            Field::Top => "field_top"@,
            Field::X => "field_x"@,
        }
    }

    /// The shader function evaluating this field: `field_` followed by the
    /// lower-cased field name.
    pub fn function(self) -> (r: &'static str)
        ensures
            r@ == self.spec_function(),
    {
        match self {
            Field::All => "field_all",
            Field::Bottom => "field_bottom",
            Field::Circle => "field_circle",
            Field::Frequencies => "field_frequencies",
            Field::Nothing => "field_none",
            Field::Samples => "field_samples",
            Field::Top => "field_top",
            Field::X => "field_x",
        }
    }

    pub open spec fn spec_icon(self) -> char {
        match self {
            Field::All => 'A',
            Field::Bottom => 'B',
            Field::Circle => 'C',
            Field::Frequencies => 'F',
            Field::Nothing => ' ',
            Field::Samples => 'S',
            Field::Top => 'T',
            Field::X => 'X',
        }
    }

    /// The single-character icon shown for this field in the overlay.
    pub fn icon(self) -> (r: char)
        ensures
            r == self.spec_icon(),
    {
        match self {
            Field::All => 'A',
            Field::Bottom => 'B',
            Field::Circle => 'C',
            Field::Frequencies => 'F',
            Field::Nothing => ' ',
            Field::Samples => 'S',
            Field::Top => 'T',
            Field::X => 'X',
        }
    }
}

} // verus!
