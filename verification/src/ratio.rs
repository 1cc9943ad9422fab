//! Exact figures: sizes in binary units and percentages, as ratios of integers.
//!
//! A size of `b` bytes in gibibytes is the ratio `b / 1024^3`, and the share
//! that `part` has of `whole`, in percent, is `100 * part / whole`. Both are
//! kept as numerator and denominator, so that nothing is rounded before the
//! figure is shown.

use vstd::prelude::*;

verus! {

/// Bytes in a gibibyte, the unit of disk and memory figures.
pub const GIBIBYTE: u64 = 1_073_741_824;

/// Bytes in a mebibyte, the unit of a process's memory figure.
pub const MEBIBYTE: u64 = 1_048_576;

/// The quotient of two integers.
pub struct Fraction {
    pub num: int,
    pub den: int,
}

impl Fraction {
    /// Whether two quotients are the same number.
    pub open spec fn same(self, other: Fraction) -> bool {
        self.num * other.den == other.num * self.den
    }

    pub open spec fn is_zero(self) -> bool {
        self.num == 0
    }

    /// The sum of two quotients.
    pub open spec fn plus(self, other: Fraction) -> Fraction {
        Fraction { num: self.num * other.den + other.num * self.den, den: self.den * other.den }
    }

    /// One quotient divided by another.
    pub open spec fn over(self, other: Fraction) -> Fraction {
        Fraction { num: self.num * other.den, den: self.den * other.num }
    }

    /// A quotient multiplied by an integer.
    pub open spec fn times(self, factor: int) -> Fraction {
        Fraction { num: self.num * factor, den: self.den }
    }

    /// Whether the quotient lies between two integers, for a positive
    /// denominator.
    pub open spec fn within(self, low: int, high: int) -> bool {
        low * self.den <= self.num <= high * self.den
    }
}

/// A size of `bytes` bytes, in gibibytes.
pub open spec fn gibibytes(bytes: int) -> Fraction {
    Fraction { num: bytes, den: GIBIBYTE as int }
}

/// A size of `bytes` bytes, in mebibytes.
pub open spec fn mebibytes(bytes: int) -> Fraction {
    Fraction { num: bytes, den: MEBIBYTE as int }
}

/// The share of `part` in `whole`, in percent; zero where `whole` is zero.
pub open spec fn percentage(part: int, whole: int) -> Fraction {
    if whole == 0 {
        Fraction { num: 0, den: 1 }
    } else {
        Fraction { num: 100 * part, den: whole }
    }
}

/// The largest part, in absolute value, whose percentage can be held.
pub const PART_LIMIT: i128 = 0x1_0000_0000_0000_0000;

/// A ratio of two integers with a positive denominator.
#[derive(Clone, Copy, Debug, PartialEq, Eq, Structural)]
pub struct Ratio {
    numerator: i128,
    denominator: u64,
}

impl View for Ratio {
    type V = Fraction;

    closed spec fn view(&self) -> Fraction {
        Fraction { num: self.numerator as int, den: self.denominator as int }
    }
}

impl Ratio {
    /// Every ratio that this library makes has a positive denominator.
    pub open spec fn wf(self) -> bool {
        self@.den > 0
    }

    /// The ratio `numerator / denominator`, unless the denominator is zero.
    pub fn new(numerator: i128, denominator: u64) -> (ratio: Option<Ratio>)
        ensures
            ratio is Some <==> denominator != 0,
            ratio is Some ==> ratio->0@ == (Fraction {
                num: numerator as int,
                den: denominator as int,
            }) && ratio->0.wf(),
    {
        if denominator == 0 {
            None
        } else {
            Some(Ratio { numerator, denominator })
        }
    }

    /// A size in gibibytes.
    pub fn in_gibibytes(bytes: i128) -> (ratio: Ratio)
        ensures
            ratio@ == gibibytes(bytes as int),
            ratio.wf(),
    {
        Ratio { numerator: bytes, denominator: GIBIBYTE }
    }

    /// A size in mebibytes.
    pub fn in_mebibytes(bytes: i128) -> (ratio: Ratio)
        ensures
            ratio@ == mebibytes(bytes as int),
            ratio.wf(),
    {
        Ratio { numerator: bytes, denominator: MEBIBYTE }
    }

    /// The share of `part` in `whole`, in percent. A zero `whole` gives zero
    /// percent.
    pub fn percent_of(part: i128, whole: u64) -> (ratio: Ratio)
        requires
            -PART_LIMIT <= part <= PART_LIMIT,
        ensures
            ratio@ == percentage(part as int, whole as int),
            ratio.wf(),
    {
        if whole == 0 {
            Ratio { numerator: 0, denominator: 1 }
        } else {
            Ratio { numerator: 100 * part, denominator: whole }
        }
    }

    pub fn numerator(&self) -> (numerator: i128)
        ensures
            numerator == self@.num,
    {
        self.numerator
    }

    pub fn denominator(&self) -> (denominator: u64)
        ensures
            denominator == self@.den,
    {
        self.denominator
    }
}

/// A percentage is the share times one hundred: for a nonzero `whole`, and
/// sizes given in any one unit, `percentage(part, whole)` is the size of the
/// part over the size of the whole, times 100.
pub proof fn lemma_percentage_is_scaled_share(part: int, whole: int, unit: int)
    requires
        whole != 0,
        unit != 0,
    ensures
        percentage(part, whole).same(
            (Fraction { num: part, den: unit }).over(Fraction { num: whole, den: unit }).times(100),
        ),
{
    assert((100 * part) * (unit * whole) == ((part * unit) * 100) * whole) by (nonlinear_arith);
}

/// The percentage of nothing is zero, and so is every percentage of a zero
/// whole.
pub proof fn lemma_percentage_zero(part: int, whole: int)
    ensures
        whole == 0 ==> percentage(part, whole).is_zero(),
        part == 0 ==> percentage(part, whole).is_zero(),
{
}

/// A part between nothing and the whole is between 0 and 100 percent of it.
pub proof fn lemma_percentage_bounded(part: int, whole: int)
    requires
        0 <= part <= whole,
    ensures
        percentage(part, whole).den > 0,
        percentage(part, whole).within(0, 100),
{
}

} // verus!
