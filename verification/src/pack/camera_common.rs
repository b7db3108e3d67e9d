//! Data types and tables shared between the camera packs.
use vstd::prelude::*;

use crate::pack::lookup::first_code;
use crate::pack::lookup::lemma_first_code;
use crate::report::Violation;

verus! {

/// Focus mode of the camera
#[derive(Debug, PartialEq, Eq, Hash, Clone, Copy, Structural)]
pub enum FocusMode {
    /// Automatic focus
    Automatic,
    /// Manual focus
    Manual,
}

impl FocusMode {
    /// The code of the value in its field of 1 bit.
    pub open spec fn code(self) -> u8 {
        match self {
            FocusMode::Automatic => 0u8,
            FocusMode::Manual => 1u8,
        }
    }

    /// The value with the given code.
    pub open spec fn with_code(code: u8) -> FocusMode {
        if code == 0 {
            FocusMode::Automatic
        } else {
            FocusMode::Manual
        }
    }

    pub fn to_bits(self) -> (r: u8)
        ensures
            r == self.code(),
            r < 2,
            FocusMode::with_code(r) == self,
    {
        match self {
            FocusMode::Automatic => 0,
            FocusMode::Manual => 1,
        }
    }

    pub fn from_bits(bits: u8) -> (r: FocusMode)
        requires
            bits < 2,
        ensures
            r == FocusMode::with_code(bits),
            r.code() == bits,
    {
        if bits == 0 {
            FocusMode::Automatic
        } else {
            FocusMode::Manual
        }
    }

    /// Values and codes below 2 correspond one to one.
    pub proof fn lemma_codes(self, code: u8)
        ensures
            self.code() < 2,
            FocusMode::with_code(self.code()) == self,
            code < 2 ==> FocusMode::with_code(code).code() == code,
    {
    }
}

/// Ten to the power of `n`, for `n` up to 3.
pub open spec fn pow10(n: nat) -> nat {
    if n == 0 {
        1
    } else if n == 1 {
        10
    } else if n == 2 {
        100
    } else {
        1000
    }
}

/// The focus position, in centimetres, of a code of seven bits: none for
/// `0x7F`, else the upper five bits times ten to the power of the lower two.
pub open spec fn focus_position_of(code: u8) -> Option<u16> {
    if code >= 0x7F {
        None
    } else {
        Some(((code / 4) * pow10((code % 4) as nat)) as u16)
    }
}

/// The code of a focus position: the smallest of those that stand for it
/// (several do, as 1 times 10 is 10 times 1).
pub open spec fn focus_position_code(position: Option<u16>) -> Option<u8> {
    first_code(|code: u8| focus_position_of(code), position, 0, 128)
}

/// A focus position is absent or has a code.
pub open spec fn focus_position_check(position: Option<u16>) -> Result<(), Violation> {
    match position {
        None => Ok(()),
        Some(p) => if focus_position_code(position) is Some {
            Ok(())
        } else {
            Err(Violation::FocusPositionUnsupported { position: p })
        },
    }
}

/// Computes [`focus_position_of`].
pub fn focus_position(code: u8) -> (r: Option<u16>)
    ensures
        r == focus_position_of(code),
{
    if code >= 0x7F {
        None
    } else {
        let msb: u16 = (code / 4) as u16;
        let lsb: u8 = code % 4;
        let scale: u16 = if lsb == 0 {
            1
        } else if lsb == 1 {
            10
        } else if lsb == 2 {
            100
        } else {
            1000
        };
        Some(msb * scale)
    }
}

/// Whether two focus positions, present or absent, are one.
fn same_position(a: Option<u16>, b: Option<u16>) -> (r: bool)
    ensures
        r == (a == b),
{
    match (a, b) {
        (None, None) => true,
        (Some(x), Some(y)) => x == y,
        _ => false,
    }
}

/// Computes [`focus_position_code`].
pub fn find_focus_position_code(position: Option<u16>) -> (r: Option<u8>)
    ensures
        r == focus_position_code(position),
{
    let ghost table = |code: u8| focus_position_of(code);
    let mut code: u8 = 0;
    while code < 128
        invariant
            code <= 128,
            table == (|code: u8| focus_position_of(code)),
            first_code(table, position, 0, 128) == first_code(table, position, code as nat, 128),
        decreases 128 - code,
    {
        if same_position(focus_position(code), position) {
            assert(table(code) == position);
            return Some(code);
        }
        assert(table(code) != position);
        code = code + 1;
    }
    None
}

/// A focus position is one of those that a code stands for.
pub fn check_focus_position(position: Option<u16>) -> (r: Result<(), Violation>)
    ensures
        r == focus_position_check(position),
{
    match position {
        None => Ok(()),
        Some(p) => if find_focus_position_code(position).is_some() {
            Ok(())
        } else {
            Err(Violation::FocusPositionUnsupported { position: p })
        },
    }
}

/// The code of the focus position of a code stands for the same position, and
/// is no larger: law of the table of focus positions.
pub proof fn lemma_focus_position_code(code: u8)
    requires
        code < 128,
    ensures
        focus_position_code(focus_position_of(code)) is Some,
        focus_position_code(focus_position_of(code))->Some_0 <= code,
        focus_position_of(focus_position_code(focus_position_of(code))->Some_0)
            == focus_position_of(code),
{
    let table = |code: u8| focus_position_of(code);
    lemma_first_code(table, focus_position_of(code), 0, 128);
    assert(table(code) == focus_position_of(code));
}

/// A focus position that has a code is the position of its code.
pub proof fn lemma_focus_position_of_code(position: Option<u16>)
    requires
        focus_position_code(position) is Some,
    ensures
        focus_position_code(position)->Some_0 < 128,
        focus_position_of(focus_position_code(position)->Some_0) == position,
        focus_position_code(focus_position_of(focus_position_code(position)->Some_0))
            == focus_position_code(position),
{
    lemma_first_code(|code: u8| focus_position_of(code), position, 0, 128);
}

} // verus!
