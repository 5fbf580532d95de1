//! Fixed-point text for temperatures: one decimal place, ASCII, as the
//! display shows current, target and variance.

use vstd::prelude::*;

use crate::pid::VARIANCE_BOUND;

verus! {

/// The decimal digits of `n`, most significant first, ASCII.
pub open spec fn dec_digits(n: nat) -> Seq<u8>
    decreases n,
{
    if n < 10 {
        seq![(0x30 + n) as u8]
    } else {
        dec_digits(n / 10) + seq![(0x30 + n % 10) as u8]
    }
}

/// The tenths of a degree nearest to a magnitude of `m` sixteenths, ties
/// to even (as float formatting rounds).
pub open spec fn tenths_of(m: nat) -> nat {
    let q = 5 * m / 8;
    let r = 5 * m % 8;
    if r > 4 || (r == 4 && q % 2 == 1) {
        q + 1
    } else {
        q
    }
}

/// The display text of a temperature in sixteenths of a degree: an
/// optional minus sign, the whole degrees, a point, one decimal digit.
pub open spec fn temp_text_spec(s: int) -> Seq<u8> {
    let mt = tenths_of(vstd::math::abs(s));
    let digits = dec_digits(mt / 10) + seq![0x2Eu8, (0x30 + mt % 10) as u8];
    if s < 0 {
        seq![0x2Du8] + digits
    } else {
        digits
    }
}

/// Renders a temperature in sixteenths of a degree as fixed-point text
/// with one decimal place, e.g. 312 (19.5 degrees C) as `19.5` and -8 as
/// `-0.5`.  The sign follows the sixteenths, so small negative values
/// render as `-0.0`, as float renderers print them.
pub fn temp_text(sixteenths: i32) -> (r: Vec<u8>)
    requires
        -VARIANCE_BOUND <= sixteenths <= VARIANCE_BOUND,
    ensures
        r@ == temp_text_spec(sixteenths as int),
{
    let mut out: Vec<u8> = Vec::new();
    if sixteenths < 0 {
        out.push(0x2D);
    }
    let m: u32 = if sixteenths < 0 {
        (-sixteenths) as u32
    } else {
        sixteenths as u32
    };
    let q: u32 = (5 * m) / 8;
    let rem: u32 = (5 * m) % 8;
    let mt: u32 = if rem > 4 || (rem == 4 && q % 2 == 1) {
        q + 1
    } else {
        q
    };
    let whole: u32 = mt / 10;
    let tenth: u32 = mt % 10;
    proof {
        assert(mt == tenths_of(m as nat));
        assert(whole <= 2075);
        if whole < 10 {
        } else if whole < 100 {
            assert(dec_digits(whole as nat) == dec_digits((whole / 10) as nat) + seq![(0x30 + (
            whole % 10) as nat) as u8]);
        } else if whole < 1000 {
            assert(dec_digits((whole / 10) as nat) == dec_digits((whole / 100) as nat) + seq![(0x30
                + ((whole / 10) % 10) as nat) as u8]);
            assert(dec_digits(whole as nat) == dec_digits((whole / 10) as nat) + seq![(0x30 + (
            whole % 10) as nat) as u8]);
        } else {
            assert(dec_digits((whole / 100) as nat) == dec_digits((whole / 1000) as nat) + seq![(
            0x30 + ((whole / 100) % 10) as nat) as u8]);
            assert(dec_digits((whole / 10) as nat) == dec_digits((whole / 100) as nat) + seq![(0x30
                + ((whole / 10) % 10) as nat) as u8]);
            assert(dec_digits(whole as nat) == dec_digits((whole / 10) as nat) + seq![(0x30 + (
            whole % 10) as nat) as u8]);
        }
    }
    if whole >= 1000 {
        out.push(0x30 + (whole / 1000) as u8);
    }
    if whole >= 100 {
        out.push(0x30 + ((whole / 100) % 10) as u8);
    }
    if whole >= 10 {
        out.push(0x30 + ((whole / 10) % 10) as u8);
    }
    out.push(0x30 + (whole % 10) as u8);
    out.push(0x2E);
    out.push(0x30 + tenth as u8);
    proof {
        assert(out@ =~= temp_text_spec(sixteenths as int));
    }
    out
}

} // verus!
