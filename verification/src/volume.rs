//! Stereo volume levels on an abstract 0..=255 scale, and the linear rescale
//! into a register's native code range. The range may be inverted: a louder
//! input may map to a numerically smaller code.
use vstd::prelude::*;
use vstd::arithmetic::mul::lemma_mul_inequality;
use vstd::arithmetic::mul::lemma_mul_upper_bound;
use vstd::arithmetic::mul::lemma_mul_nonnegative;
use vstd::arithmetic::mul::lemma_mul_basics;
use vstd::arithmetic::div_mod::lemma_div_is_ordered;
use vstd::arithmetic::div_mod::lemma_div_pos_is_pos;
use vstd::arithmetic::div_mod::lemma_div_multiples_vanish_fancy;

verus! {

/// A pair of channel levels, each on the abstract 0..=255 scale.
#[derive(Debug)]
pub struct Volume {
    pub left: u8,
    pub right: u8,
}

/// The code that level `v` maps to in the range from `quiet` (level 0) to
/// `full` (level 255): a linear rescale rounded to the nearest code, moving
/// from `quiet` toward `full` as `v` grows, in whichever direction the
/// range runs. Adding 127 before the division by 255 rounds the scaled
/// quotient to the nearest integer; an exact half can never occur.
pub open spec fn spec_rescale(v: u8, quiet: u8, full: u8) -> u8 {
    if quiet <= full {
        (quiet + ((v as int) * (full - quiet) + 127) / 255) as u8
    } else {
        (quiet - ((v as int) * (quiet - full) + 127) / 255) as u8
    }
}

/// The rescaled code never leaves the closed range between `quiet` and
/// `full`, and the endpoints map exactly: level 0 to `quiet`, 255 to `full`.
pub proof fn lemma_rescale_range(v: u8, quiet: u8, full: u8)
    ensures
        quiet <= full ==> quiet <= spec_rescale(v, quiet, full) <= full,
        quiet >= full ==> full <= spec_rescale(v, quiet, full) <= quiet,
        v == 0 ==> spec_rescale(v, quiet, full) == quiet,
        v == 255 ==> spec_rescale(v, quiet, full) == full,
{
    let span: int = if quiet <= full {
        full - quiet
    } else {
        quiet - full
    };
    let t: int = (v as int) * span + 127;
    lemma_mul_inequality(v as int, 255, span);
    assert(t <= 255 * span + 127);
    lemma_mul_upper_bound(v as int, 255, span, 255);
    lemma_mul_nonnegative(v as int, span);
    lemma_div_pos_is_pos(t, 255);
    lemma_div_is_ordered(t, 255 * span + 127, 255);
    lemma_div_multiples_vanish_fancy(span, 127, 255);
    assert((255 * span + 127) / 255 == span);
    assert(0 <= t / 255 <= span);
    if v == 0 {
        lemma_mul_basics(span);
        lemma_div_multiples_vanish_fancy(0, 127, 255);
    }
    if v == 255 {
        assert(t == 255 * span + 127);
    }
}

/// Monotonicity: as the level grows, the code moves toward `full` —
/// upward when the range is direct, downward when it is inverted.
pub proof fn lemma_rescale_monotone(a: u8, b: u8, quiet: u8, full: u8)
    requires
        a <= b,
    ensures
        quiet <= full ==> spec_rescale(a, quiet, full) <= spec_rescale(b, quiet, full),
        quiet >= full ==> spec_rescale(a, quiet, full) >= spec_rescale(b, quiet, full),
{
    let span: int = if quiet <= full {
        full - quiet
    } else {
        quiet - full
    };
    lemma_mul_inequality(a as int, b as int, span);
    assert((a as int) * span + 127 <= (b as int) * span + 127);
    lemma_div_is_ordered((a as int) * span + 127, (b as int) * span + 127, 255);
    lemma_mul_nonnegative(a as int, span);
    lemma_div_pos_is_pos((a as int) * span + 127, 255);
    lemma_mul_inequality(b as int, 255, span);
    lemma_div_is_ordered((b as int) * span + 127, 255 * span + 127, 255);
    lemma_div_multiples_vanish_fancy(span, 127, 255);
    assert(0 <= ((a as int) * span + 127) / 255 <= ((b as int) * span + 127) / 255 <= span);
}

/// Rescale one channel level into the `quiet`..`full` code range.
pub fn volume_to_range(v: u8, quiet: u8, full: u8) -> (r: u8)
    ensures
        r == spec_rescale(v, quiet, full),
{
    proof {
        lemma_rescale_range(v, quiet, full);
    }
    if quiet <= full {
        let span: u32 = (full - quiet) as u32;
        proof {
            lemma_mul_upper_bound(v as int, 255, span as int, 255);
            lemma_mul_nonnegative(v as int, span as int);
            lemma_mul_inequality(v as int, 255, span as int);
            lemma_div_is_ordered((v as int) * (span as int) + 127, 255 * (span as int) + 127, 255);
            lemma_div_multiples_vanish_fancy(span as int, 127, 255);
        }
        let t: u32 = ((v as u32) * span + 127) / 255;
        quiet + (t as u8)
    } else {
        let span: u32 = (quiet - full) as u32;
        proof {
            lemma_mul_upper_bound(v as int, 255, span as int, 255);
            lemma_mul_nonnegative(v as int, span as int);
            lemma_mul_inequality(v as int, 255, span as int);
            lemma_div_is_ordered((v as int) * (span as int) + 127, 255 * (span as int) + 127, 255);
            lemma_div_multiples_vanish_fancy(span as int, 127, 255);
        }
        let t: u32 = ((v as u32) * span + 127) / 255;
        quiet - (t as u8)
    }
}

impl Volume {
    /// Rescale both channels into the `quiet`..`full` code range.
    pub fn to_range(&self, quiet: u8, full: u8) -> (r: (u8, u8))
        ensures
            r.0 == spec_rescale(self.left, quiet, full),
            r.1 == spec_rescale(self.right, quiet, full),
    {
        let left = volume_to_range(self.left, quiet, full);
        let right = volume_to_range(self.right, quiet, full);
        (left, right)
    }
}

impl From<(u8, u8)> for Volume {
    fn from(pair: (u8, u8)) -> (r: Self) {
        Volume { left: pair.0, right: pair.1 }
    }
}

impl vstd::std_specs::convert::FromSpecImpl<(u8, u8)> for Volume {
    open spec fn obeys_from_spec() -> bool {
        true
    }

    open spec fn from_spec(pair: (u8, u8)) -> Self {
        Volume { left: pair.0, right: pair.1 }
    }
}

impl From<u8> for Volume {
    fn from(vol: u8) -> (r: Self) {
        Volume { left: vol, right: vol }
    }
}

impl vstd::std_specs::convert::FromSpecImpl<u8> for Volume {
    open spec fn obeys_from_spec() -> bool {
        true
    }

    open spec fn from_spec(vol: u8) -> Self {
        Volume { left: vol, right: vol }
    }
}

} // verus!
