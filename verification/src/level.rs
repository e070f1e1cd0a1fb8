//! The level curve: from cumulative experience to a level.
//!
//! A level is held exactly, as a whole number of parts of which
//! [`PARTS_PER_LEVEL`] make one level. Every cost on the curve divides that
//! number, so a level is only ever rounded when it is shown.

use vstd::prelude::*;
use crate::text::{fixed_two, magnitude, push_fixed_two};

verus! {

/// The parts that make one level: 70000.
pub const PARTS_PER_LEVEL: i64 = 70000;

/// The experience that one whole prestige takes: 487000, for the four
/// opening levels, which cost 500, 1000, 2000 and 3500, and ninety-six
/// levels at 5000.
pub const PRESTIGE_COST: i32 = 487000;

/// The part of a level that `rest` experience buys where the level costs
/// `cost`, in parts.
#[verifier::inline]
pub open spec fn share(rest: int, cost: int) -> int
    recommends
        cost > 0,
{
    70000 * rest / cost
}

/// The level reached with `rest` experience inside one prestige, in parts.
///
/// The costs of the opening levels are paid one after the other, a whole
/// level for each, until what is left does not pay for the next; that
/// rest buys its share of the next level. What is left after the fourth
/// level is counted in levels of 5000.
pub open spec fn ramp_parts(rest: int) -> int
    recommends
        0 <= rest < 487000,
{
    if rest < 500 {
        share(rest, 500)
    } else if rest < 1500 {
        70000 + share(rest - 500, 1000)
    } else if rest < 3500 {
        140000 + share(rest - 1500, 2000)
    } else if rest < 7000 {
        210000 + share(rest - 3500, 3500)
    } else {
        280000 + share(rest - 7000, 5000)
    }
}

/// The level reached with `xp` experience, in parts.
///
/// Each whole prestige is worth a hundred levels, and what is left over
/// is read off the curve. An amount below zero, which no player has, is
/// the amount above zero mirrored, with what is left over after its whole
/// prestiges priced at the first level's cost.
pub open spec fn level_parts(xp: int) -> int {
    if xp >= 0 {
        7000000 * (xp / 487000) + ramp_parts(xp % 487000)
    } else {
        -(7000000 * ((-xp) / 487000) + share((-xp) % 487000, 500))
    }
}

/// A level of `parts` parts as it is shown: in levels with two decimal
/// places, rounded to the nearest hundredth, a tie going to the even one.
pub open spec fn level_shown(parts: int) -> Seq<char> {
    if parts < 0 {
        fixed_two(true, (-parts) as nat, 70000)
    } else {
        fixed_two(false, parts as nat, 70000)
    }
}

/// A level, exact.
#[derive(Clone, Copy, Debug, PartialEq, Eq, Structural)]
pub struct Level {
    parts: i64,
}

impl Level {
    /// The level in parts of which [`PARTS_PER_LEVEL`] make one.
    pub closed spec fn parts(self) -> int {
        self.parts as int
    }

    /// The level as it is shown.
    pub open spec fn shown(self) -> Seq<char> {
        level_shown(self.parts())
    }

    /// The level that `parts` parts make.
    pub fn from_parts(parts: i64) -> (level: Level)
        ensures
            level.parts() == parts,
    {
        Level { parts }
    }

    /// The level in parts.
    pub fn as_parts(&self) -> (parts: i64)
        ensures
            parts == self.parts(),
    {
        self.parts
    }

    /// Whether the level lies above `levels` whole levels: strictly above,
    /// so that a level of exactly `levels` does not.
    pub fn exceeds(&self, levels: u32) -> (b: bool)
        ensures
            b == (self.parts() > 70000 * levels),
    {
        self.parts > PARTS_PER_LEVEL * (levels as i64)
    }

    /// Appends the level as it is shown to `out`.
    pub fn push_shown(&self, out: &mut String)
        ensures
            final(out)@ == old(out)@ + self.shown(),
    {
        push_fixed_two(out, self.parts < 0, magnitude(self.parts), 70000);
    }
}

/// The level reached with `xp` experience.
pub fn xp_to_level(xp: i32) -> (level: Level)
    ensures
        level.parts() == level_parts(xp as int),
        xp == 0 ==> level.parts() == 0,
        xp >= 0 ==> level.parts() >= 0,
{
    if xp == 0 {
        return Level { parts: 0 };
    }
    let cycle: i64 = PRESTIGE_COST as i64;
    if xp < 0 {
        let owed: i64 = -(xp as i64);
        let parts: i64 = 7000000 * (owed / cycle) + PARTS_PER_LEVEL * (owed % cycle) / 500;
        return Level { parts: -parts };
    }
    let prestiges: i64 = xp as i64 / cycle;
    let mut parts: i64 = 7000000 * prestiges;
    let mut rest: i64 = xp as i64 % cycle;
    let ghost left: int = rest as int;
    let costs: [i64; 4] = [500, 1000, 2000, 3500];
    let mut paid: usize = 0;
    while paid < 4
        invariant
            0 <= paid <= 4,
            costs@ == seq![500i64, 1000i64, 2000i64, 3500i64],
            0 <= prestiges <= 4409,
            0 <= rest <= left < 487000,
            paid == 0 ==> rest == left,
            paid == 1 ==> rest == left - 500,
            paid == 2 ==> rest == left - 1500,
            paid == 3 ==> rest == left - 3500,
            paid == 4 ==> rest == left - 7000,
            parts == 7000000 * prestiges + 70000 * paid,
            left == xp % 487000,
            prestiges == xp / 487000,
            xp > 0,
        decreases 4 - paid,
    {
        let cost: i64 = costs[paid];
        if rest < cost {
            // not enough for this level: the rest buys its share of it
            assert(cost == 500 || cost == 1000 || cost == 2000 || cost == 3500);
            return Level { parts: parts + PARTS_PER_LEVEL * rest / cost };
        }
        parts = parts + PARTS_PER_LEVEL;
        rest = rest - cost;
        paid = paid + 1;
    }
    Level { parts: parts + PARTS_PER_LEVEL * rest / 5000 }
}

/// More experience never gives a lower level.
pub proof fn lemma_level_monotonic(x: int, y: int)
    requires
        0 <= x <= y,
    ensures
        level_parts(x) <= level_parts(y),
{
    let c = 487000int;
    lemma_ramp_bounds(x % c);
    lemma_ramp_bounds(y % c);
    if x / c == y / c {
        lemma_ramp_monotonic(x % c, y % c);
    } else {
        assert(x / c < y / c);
    }
}

/// No experience is level zero, and no experience above zero is a level
/// below zero.
pub proof fn lemma_level_not_below_zero(xp: int)
    requires
        xp >= 0,
    ensures
        level_parts(0) == 0,
        level_parts(xp) >= 0,
{
    lemma_level_monotonic(0, xp);
}

/// The curve meets its whole levels exactly: four levels at the end of
/// the opening, and a hundred levels with every prestige.
pub proof fn lemma_level_landmarks(prestiges: nat)
    ensures
        level_parts(7000) == 4 * 70000,
        level_parts(487000) == 100 * 70000,
        level_parts(974000) == 200 * 70000,
        level_parts(487000 * (prestiges as int)) == 100 * 70000 * (prestiges as int),
{
    let c = 487000int;
    let n = prestiges as int;
    assert((c * n) / c == n && (c * n) % c == 0) by (nonlinear_arith)
        requires
            c == 487000,
            n >= 0,
    ;
}

/// No share on the curve is cut: each cost divides the parts that the
/// rest before it buys.
pub proof fn lemma_shares_are_whole(rest: int)
    ensures
        share(rest, 500) * 500 == 70000 * rest,
        share(rest, 1000) * 1000 == 70000 * rest,
        share(rest, 2000) * 2000 == 70000 * rest,
        share(rest, 3500) * 3500 == 70000 * rest,
        share(rest, 5000) * 5000 == 70000 * rest,
{
    assert(70000 * rest == 500 * (140 * rest));
    assert(70000 * rest == 1000 * (70 * rest));
    assert(70000 * rest == 2000 * (35 * rest));
    assert(70000 * rest == 3500 * (20 * rest));
    assert(70000 * rest == 5000 * (14 * rest));
}

/// Inside one prestige the level stays below a hundred levels.
pub proof fn lemma_ramp_bounds(rest: int)
    requires
        0 <= rest < 487000,
    ensures
        0 <= ramp_parts(rest) < 100 * 70000,
{
}

/// Inside one prestige the level never falls as the experience grows.
pub proof fn lemma_ramp_monotonic(low: int, high: int)
    requires
        0 <= low <= high < 487000,
    ensures
        ramp_parts(low) <= ramp_parts(high),
{
}

} // verus!
