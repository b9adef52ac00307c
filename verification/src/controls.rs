//! Control identifier table: the stable logical name of each physical
//! knob, by its row and column on the 4x4 controller grid, and the raw
//! controller number it sends.
//!
//! The hardware numbers its knobs row by row, so the knob at
//! (row, column) sends controller number `4 * row + column`.

use vstd::prelude::*;

verus! {

/// One physical knob of the 4x4 grid, named by (row, column).
#[derive(Clone, Copy, Debug, PartialEq, Eq, Structural)]
pub enum ControlIdentifier {
    ZeroZero,
    ZeroOne,
    ZeroTwo,
    ZeroThree,
    OneZero,
    OneOne,
    OneTwo,
    OneThree,
    TwoZero,
    TwoOne,
    TwoTwo,
    TwoThree,
    ThreeZero,
    ThreeOne,
    ThreeTwo,
    ThreeThree,
}

impl ControlIdentifier {
    /// The knob's row on the grid, 0 to 3.
    pub open spec fn row_spec(self) -> int {
        match self {
            ControlIdentifier::ZeroZero => 0,
            ControlIdentifier::ZeroOne => 0,
            ControlIdentifier::ZeroTwo => 0,
            ControlIdentifier::ZeroThree => 0,
            ControlIdentifier::OneZero => 1,
            ControlIdentifier::OneOne => 1,
            ControlIdentifier::OneTwo => 1,
            ControlIdentifier::OneThree => 1,
            ControlIdentifier::TwoZero => 2,
            ControlIdentifier::TwoOne => 2,
            ControlIdentifier::TwoTwo => 2,
            ControlIdentifier::TwoThree => 2,
            ControlIdentifier::ThreeZero => 3,
            ControlIdentifier::ThreeOne => 3,
            ControlIdentifier::ThreeTwo => 3,
            ControlIdentifier::ThreeThree => 3,
        }
    }

    /// The knob's column on the grid, 0 to 3.
    pub open spec fn column_spec(self) -> int {
        match self {
            ControlIdentifier::ZeroZero => 0,
            ControlIdentifier::ZeroOne => 1,
            ControlIdentifier::ZeroTwo => 2,
            ControlIdentifier::ZeroThree => 3,
            ControlIdentifier::OneZero => 0,
            ControlIdentifier::OneOne => 1,
            ControlIdentifier::OneTwo => 2,
            ControlIdentifier::OneThree => 3,
            ControlIdentifier::TwoZero => 0,
            ControlIdentifier::TwoOne => 1,
            ControlIdentifier::TwoTwo => 2,
            ControlIdentifier::TwoThree => 3,
            ControlIdentifier::ThreeZero => 0,
            ControlIdentifier::ThreeOne => 1,
            ControlIdentifier::ThreeTwo => 2,
            ControlIdentifier::ThreeThree => 3,
        }
    }

    /// The raw controller number the knob sends: row by row over the
    /// grid.
    pub open spec fn controller_number_spec(self) -> int {
        4 * self.row_spec() + self.column_spec()
    }

    /// The raw controller number of this knob, 0 to 15.
    pub fn controller_number(&self) -> (n: u8)
        ensures
            n == self.controller_number_spec(),
            n < 16,
    {
        match self {
            ControlIdentifier::ZeroZero => 0,
            ControlIdentifier::ZeroOne => 1,
            ControlIdentifier::ZeroTwo => 2,
            ControlIdentifier::ZeroThree => 3,
            ControlIdentifier::OneZero => 4,
            ControlIdentifier::OneOne => 5,
            ControlIdentifier::OneTwo => 6,
            ControlIdentifier::OneThree => 7,
            ControlIdentifier::TwoZero => 8,
            ControlIdentifier::TwoOne => 9,
            ControlIdentifier::TwoTwo => 10,
            ControlIdentifier::TwoThree => 11,
            ControlIdentifier::ThreeZero => 12,
            ControlIdentifier::ThreeOne => 13,
            ControlIdentifier::ThreeTwo => 14,
            ControlIdentifier::ThreeThree => 15,
        }
    }
}

/// The knob whose raw controller number is `n`, for `n` on the grid.
pub open spec fn control_for_number_spec(n: int) -> Option<ControlIdentifier> {
    if n == 0 {
        Some(ControlIdentifier::ZeroZero)
    } else if n == 1 {
        Some(ControlIdentifier::ZeroOne)
    } else if n == 2 {
        Some(ControlIdentifier::ZeroTwo)
    } else if n == 3 {
        Some(ControlIdentifier::ZeroThree)
    } else if n == 4 {
        Some(ControlIdentifier::OneZero)
    } else if n == 5 {
        Some(ControlIdentifier::OneOne)
    } else if n == 6 {
        Some(ControlIdentifier::OneTwo)
    } else if n == 7 {
        Some(ControlIdentifier::OneThree)
    } else if n == 8 {
        Some(ControlIdentifier::TwoZero)
    } else if n == 9 {
        Some(ControlIdentifier::TwoOne)
    } else if n == 10 {
        Some(ControlIdentifier::TwoTwo)
    } else if n == 11 {
        Some(ControlIdentifier::TwoThree)
    } else if n == 12 {
        Some(ControlIdentifier::ThreeZero)
    } else if n == 13 {
        Some(ControlIdentifier::ThreeOne)
    } else if n == 14 {
        Some(ControlIdentifier::ThreeTwo)
    } else if n == 15 {
        Some(ControlIdentifier::ThreeThree)
    } else {
        None
    }
}

/// The knob that sends raw controller number `n`: `Some` exactly for
/// the sixteen numbers of the grid, `None` for every other controller
/// number.
pub fn control_for_number(n: u8) -> (r: Option<ControlIdentifier>)
    ensures
        r == control_for_number_spec(n as int),
        r is Some <==> n < 16,
{
    match n {
        0 => Some(ControlIdentifier::ZeroZero),
        1 => Some(ControlIdentifier::ZeroOne),
        2 => Some(ControlIdentifier::ZeroTwo),
        3 => Some(ControlIdentifier::ZeroThree),
        4 => Some(ControlIdentifier::OneZero),
        5 => Some(ControlIdentifier::OneOne),
        6 => Some(ControlIdentifier::OneTwo),
        7 => Some(ControlIdentifier::OneThree),
        8 => Some(ControlIdentifier::TwoZero),
        9 => Some(ControlIdentifier::TwoOne),
        10 => Some(ControlIdentifier::TwoTwo),
        11 => Some(ControlIdentifier::TwoThree),
        12 => Some(ControlIdentifier::ThreeZero),
        13 => Some(ControlIdentifier::ThreeOne),
        14 => Some(ControlIdentifier::ThreeTwo),
        15 => Some(ControlIdentifier::ThreeThree),
        _ => None,
    }
}

/// Controller numbers name knobs one for one: the number of each knob
/// leads back to that knob, and two knobs with the same number are the
/// same knob.
pub proof fn lemma_controller_number_round_trip(c: ControlIdentifier, d: ControlIdentifier)
    ensures
        control_for_number_spec(c.controller_number_spec()) == Some(c),
        c.controller_number_spec() == d.controller_number_spec() ==> c == d,
{
}

} // verus!
