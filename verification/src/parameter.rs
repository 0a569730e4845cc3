//! Signed 7-bit control values from encoders and presets.

use vstd::prelude::*;
use vstd::string::StrSliceExecFns;

verus! {

/// Smallest value a parameter can hold.
pub const PARAMETER_MIN: i8 = -64;

/// Largest value a parameter can hold.
pub const PARAMETER_MAX: i8 = 63;

/// Why a string failed to parse as a parameter.
#[derive(Clone, Copy, Debug, PartialEq, Eq, Structural)]
pub enum ParameterError {
    /// A syntactically valid integer below [`PARAMETER_MIN`].
    NegativeOverflow { value: i8 },
    /// Not a decimal integer that fits in a signed byte.
    Parse,
    /// A syntactically valid integer above [`PARAMETER_MAX`].
    PositiveOverflow { value: i8 },
}

/// A control value clamped to `[-64, 63]`, the signed range of a 7-bit
/// controller step.
#[derive(Clone, Copy, Debug)]
pub struct Parameter(i8);

impl Parameter {
    pub closed spec fn spec_value(self) -> int {
        self.0 as int
    }

    /// Every constructed parameter stays in the controller range.
    pub open spec fn wf(self) -> bool {
        PARAMETER_MIN <= self.spec_value() <= PARAMETER_MAX
    }

    /// The clamped value `raw` maps to.
    pub open spec fn spec_clamp(raw: int) -> int {
        if raw < PARAMETER_MIN {
            PARAMETER_MIN as int
        } else if raw > PARAMETER_MAX {
            PARAMETER_MAX as int
        } else {
            raw
        }
    }

    /// Clamp `value` into the controller range.
    pub fn new(value: i8) -> (r: Parameter)
        ensures
            r.wf(),
            r.spec_value() == Self::spec_clamp(value as int),
    {
        if value < PARAMETER_MIN {
            Parameter(PARAMETER_MIN)
        } else if value > PARAMETER_MAX {
            Parameter(PARAMETER_MAX)
        } else {
            Parameter(value)
        }
    }

    pub fn value(self) -> (r: i8)
        ensures
            r == self.spec_value(),
    {
        self.0
    }

    /// Add with saturation at the byte range, then clamp to the controller
    /// range.
    pub fn saturating_add(self, rhs: i8) -> (r: Parameter)
        ensures
            r.wf(),
            r.spec_value() == Self::spec_clamp(self.spec_value() + rhs),
    {
        let sum: i32 = self.0 as i32 + rhs as i32;
        if sum < PARAMETER_MIN as i32 {
            Parameter(PARAMETER_MIN)
        } else if sum > PARAMETER_MAX as i32 {
            Parameter(PARAMETER_MAX)
        } else {
            Parameter(sum as i8)
        }
    }

    /// Subtract with saturation at the byte range, then clamp to the
    /// controller range.
    pub fn saturating_sub(self, rhs: i8) -> (r: Parameter)
        ensures
            r.wf(),
            r.spec_value() == Self::spec_clamp(self.spec_value() - rhs),
    {
        let diff: i32 = self.0 as i32 - rhs as i32;
        if diff < PARAMETER_MIN as i32 {
            Parameter(PARAMETER_MIN)
        } else if diff > PARAMETER_MAX as i32 {
            Parameter(PARAMETER_MAX)
        } else {
            Parameter(diff as i8)
        }
    }

    /// The parameter a 7-bit controller byte denotes, shifted so the
    /// controller's zero maps to [`PARAMETER_MIN`].
    pub fn from_midi(value: u8) -> (r: Parameter)
        requires
            value < 128,
        ensures
            r.wf(),
            r.spec_value() == value - 64,
    {
        Parameter((value as i32 - 64) as i8)
    }

    /// Numerator of the parameter's position in the unit interval: the
    /// parameter denotes `numerator / 127`, so the minimum maps to 0 and the
    /// maximum to 1.
    pub fn unipolar_numerator(self) -> (r: u8)
        requires
            self.wf(),
        ensures
            r == self.spec_value() + 64,
            r <= 127,
    {
        (self.0 as i32 + 64) as u8
    }
}

impl Default for Parameter {
    fn default() -> (r: Self)
        ensures
            r.wf(),
            r.spec_value() == 0,
    {
        Parameter(0)
    }
}

pub open spec fn spec_is_digit(c: char) -> bool {
    48 <= c as int <= 57
}

pub open spec fn spec_digit_val(c: char) -> int {
    c as int - 48
}

/// The value of a nonempty run of decimal digits, most significant first.
pub open spec fn spec_digits_val(s: Seq<char>) -> int
    decreases s.len(),
{
    if s.len() == 0 {
        0
    } else {
        spec_digits_val(s.drop_last()) * 10 + spec_digit_val(s.last())
    }
}

pub open spec fn spec_all_digits(s: Seq<char>) -> bool {
    s.len() > 0 && forall|i: int| 0 <= i < s.len() ==> spec_is_digit(s[i])
}

/// The integer a string denotes: an optional sign followed by at least one
/// decimal digit, with no bound on magnitude.
pub open spec fn spec_parse_int(s: Seq<char>) -> Option<int> {
    if s.len() > 0 && (s[0] == '-' || s[0] == '+') {
        if spec_all_digits(s.skip(1)) {
            if s[0] == '-' {
                Some(-spec_digits_val(s.skip(1)))
            } else {
                Some(spec_digits_val(s.skip(1)))
            }
        } else {
            None
        }
    } else {
        if spec_all_digits(s) {
            Some(spec_digits_val(s))
        } else {
            None
        }
    }
}

/// The outcome `Parameter::from_str` owes for a given string: strings that
/// are not a signed-byte integer fail to parse, integers outside the
/// controller range report which bound they broke, and the rest succeed.
pub open spec fn spec_from_str_result(s: Seq<char>, r: Result<Parameter, ParameterError>) -> bool {
    match spec_parse_int(s) {
        Option::None => r == Result::<Parameter, ParameterError>::Err(ParameterError::Parse),
        Option::Some(v) => {
            if v < i8::MIN || v > i8::MAX {
                r == Result::<Parameter, ParameterError>::Err(ParameterError::Parse)
            } else if v < PARAMETER_MIN {
                r == Result::<Parameter, ParameterError>::Err(ParameterError::NegativeOverflow {
                    value: v as i8,
                })
            } else if v > PARAMETER_MAX {
                r == Result::<Parameter, ParameterError>::Err(ParameterError::PositiveOverflow {
                    value: v as i8,
                })
            } else {
                r matches Result::Ok(p) && p.wf() && p.spec_value() == v
            }
        },
    }
}

impl Parameter {
    /// Parse a decimal integer and reject it when it falls outside the
    /// controller range, reporting which bound it broke.
    pub fn from_str(s: &str) -> (r: Result<Parameter, ParameterError>)
        ensures
            spec_from_str_result(s@, r),
            r matches Ok(p) ==> p.wf(),
    {
        let n = s.unicode_len();
        if n == 0 {
            return Err(ParameterError::Parse);
        }

        let first = s.get_char(0);
        let negative = first == '-';
        let start: usize = if first == '-' || first == '+' {
            1
        } else {
            0
        };

        if start == n {
            // A bare sign has no digits.
            return Err(ParameterError::Parse);
        }

        let ghost digits = s@.skip(start as int);

        let mut value: i32 = 0;
        let mut i: usize = start;
        while i < n
            invariant
                start <= i <= n,
                n == s@.len(),
                n > 0,
                start == 0 || start == 1,
                start == 1 <==> (s@[0] == '-' || s@[0] == '+'),
                negative <==> s@[0] == '-',
                digits == s@.skip(start as int),
                0 <= value <= 2009,
                forall|k: int| start <= k < i ==> spec_is_digit(s@[k]),
                spec_digits_val(s@.subrange(start as int, i as int)) <= 200 ==> value
                    == spec_digits_val(s@.subrange(start as int, i as int)),
                spec_digits_val(s@.subrange(start as int, i as int)) > 200 ==> value > 200,
            decreases n - i,
        {
            let c = s.get_char(i);
            let d = c as u32;
            if d < 48 || d > 57 {
                proof {
                    assert(!spec_is_digit(s@[i as int]));
                    assert(s@.skip(start as int)[i - start] == s@[i as int]);
                    assert(!spec_all_digits(s@.skip(start as int)));
                    if start == 1 {
                        assert(s@[0] == '-' || s@[0] == '+');
                        assert(spec_parse_int(s@) is None);
                    } else {
                        assert(!(s@[0] == '-' || s@[0] == '+'));
                        assert(s@.skip(0) =~= s@);
                        assert(!spec_all_digits(s@));
                        assert(spec_parse_int(s@) is None);
                    }
                }
                return Err(ParameterError::Parse);
            }
            proof {
                let pre = s@.subrange(start as int, i as int);
                let post = s@.subrange(start as int, i + 1);
                assert(post.drop_last() =~= pre);
                assert(post.last() == s@[i as int]);
            }
            if value <= 200 {
                value = value * 10 + (d - 48) as i32;
            }
            i += 1;
        }

        let ghost parsed: int = if negative {
            -spec_digits_val(digits)
        } else {
            spec_digits_val(digits)
        };

        proof {
            assert(s@.subrange(start as int, n as int) =~= digits);
            assert(spec_all_digits(digits));
            if start == 0 {
                assert(s@.skip(0) =~= s@);
                assert(spec_parse_int(s@) == Some(parsed));
            } else {
                assert(spec_parse_int(s@) == Some(parsed));
            }
            assert(spec_digits_val(digits) <= 200 ==> value == spec_digits_val(digits));
            assert(spec_digits_val(digits) > 200 ==> value > 200);
        }

        let cap: i32 = if negative {
            128
        } else {
            127
        };

        if value > cap {
            return Err(ParameterError::Parse);
        }

        let signed: i32 = if negative {
            -value
        } else {
            value
        };

        if signed < PARAMETER_MIN as i32 {
            Err(ParameterError::NegativeOverflow { value: signed as i8 })
        } else if signed > PARAMETER_MAX as i32 {
            Err(ParameterError::PositiveOverflow { value: signed as i8 })
        } else {
            Ok(Parameter(signed as i8))
        }
    }
}

} // verus!
