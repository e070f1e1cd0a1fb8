//! Emphasis: how much a figure stands out, and the marker that shows it.

use vstd::prelude::*;
use crate::level::Level;
use crate::ratio::{lemma_above_lower_bound, Ratio};
use crate::text::{decimal, push_decimal};

verus! {

/// How much a figure stands out, from not at all to the most.
#[derive(Clone, Copy, Debug, PartialEq, Eq, Structural)]
pub enum EmphasisTier {
    Unmarked,
    Tier1,
    Tier2,
    Tier3,
}

impl EmphasisTier {
    /// The place of the tier in their order, from 0 for the lowest.
    pub open spec fn rank(self) -> int {
        match self {
            EmphasisTier::Unmarked => 0,
            EmphasisTier::Tier1 => 1,
            EmphasisTier::Tier2 => 2,
            EmphasisTier::Tier3 => 3,
        }
    }

    /// The colour by which the tier is handed to [`bold_and_underline`]:
    /// -1 for no emphasis, else the tier's number.
    pub open spec fn colour(self) -> int {
        match self {
            EmphasisTier::Unmarked => -1,
            EmphasisTier::Tier1 => 1,
            EmphasisTier::Tier2 => 2,
            EmphasisTier::Tier3 => 3,
        }
    }

    /// The higher of two tiers.
    pub open spec fn higher(self, other: EmphasisTier) -> EmphasisTier {
        if self.rank() >= other.rank() {
            self
        } else {
            other
        }
    }

    /// The place of the tier in their order.
    pub fn order(&self) -> (r: u8)
        ensures
            r == self.rank(),
    {
        match self {
            EmphasisTier::Unmarked => 0,
            EmphasisTier::Tier1 => 1,
            EmphasisTier::Tier2 => 2,
            EmphasisTier::Tier3 => 3,
        }
    }

    /// The colour that stands for the tier.
    pub fn colour_code(&self) -> (c: i32)
        ensures
            c == self.colour(),
    {
        match self {
            EmphasisTier::Unmarked => -1,
            EmphasisTier::Tier1 => 1,
            EmphasisTier::Tier2 => 2,
            EmphasisTier::Tier3 => 3,
        }
    }

    /// The higher of two tiers.
    pub fn max(self, other: EmphasisTier) -> (m: EmphasisTier)
        ensures
            m == self.higher(other),
            m.rank() >= self.rank(),
            m.rank() >= other.rank(),
            m == self || m == other,
    {
        if self.order() >= other.order() {
            self
        } else {
            other
        }
    }
}

/// The tier of a level of `parts` parts: above 300 levels the highest,
/// above 200 the second, above 100 the first. Each bound is strict.
pub open spec fn tier_of_level(parts: int) -> EmphasisTier {
    if parts > 300 * 70000 {
        EmphasisTier::Tier3
    } else if parts > 200 * 70000 {
        EmphasisTier::Tier2
    } else if parts > 100 * 70000 {
        EmphasisTier::Tier1
    } else {
        EmphasisTier::Unmarked
    }
}

/// The tier of a ratio: above 3 the highest, above 2 the second, above 1
/// the first. Each bound is strict.
pub open spec fn tier_of_ratio(ratio: Ratio) -> EmphasisTier {
    if ratio.above(3) {
        EmphasisTier::Tier3
    } else if ratio.above(2) {
        EmphasisTier::Tier2
    } else if ratio.above(1) {
        EmphasisTier::Tier1
    } else {
        EmphasisTier::Unmarked
    }
}

/// The tier of a level.
pub fn level_tier(level: &Level) -> (tier: EmphasisTier)
    ensures
        tier == tier_of_level(level.parts()),
{
    if level.exceeds(300) {
        EmphasisTier::Tier3
    } else if level.exceeds(200) {
        EmphasisTier::Tier2
    } else if level.exceeds(100) {
        EmphasisTier::Tier1
    } else {
        EmphasisTier::Unmarked
    }
}

/// The tier of a ratio.
pub fn ratio_tier(ratio: &Ratio) -> (tier: EmphasisTier)
    ensures
        tier == tier_of_ratio(*ratio),
{
    if ratio.exceeds(3) {
        EmphasisTier::Tier3
    } else if ratio.exceeds(2) {
        EmphasisTier::Tier2
    } else if ratio.exceeds(1) {
        EmphasisTier::Tier1
    } else {
        EmphasisTier::Unmarked
    }
}

/// The number that selects the marker's colour: 31, red, for 3; 33,
/// yellow, for 2; 34, blue, for 1; and 37, white, for any number that is
/// no tier's.
pub open spec fn marker_colour(colour: int) -> nat {
    if colour == 3 {
        31
    } else if colour == 2 {
        33
    } else if colour == 1 {
        34
    } else {
        37
    }
}

/// `text` as it is sent for the colour `colour`: unchanged for -1, and
/// else between the marker that switches bold, underline and the colour
/// on and the marker that switches them off.
pub open spec fn emphasised(text: Seq<char>, colour: int) -> Seq<char> {
    if colour == -1 {
        text
    } else {
        "\u{1B}[1;4;"@ + decimal(marker_colour(colour)) + "m"@ + text + "\u{1B}[0m"@
    }
}

/// Wraps `text` in the marker of the colour `colour`.
pub fn bold_and_underline(text: &str, colour: i32) -> (marked: String)
    ensures
        marked@ == emphasised(text@, colour as int),
{
    if colour == -1 {
        return text.to_owned();
    }
    let code: u128 = match colour {
        3 => 31,
        2 => 33,
        1 => 34,
        _ => 37,
    };
    let mut marked = String::from_str("\u{1B}[1;4;");
    push_decimal(&mut marked, code);
    marked.append("m");
    marked.append(text);
    marked.append("\u{1B}[0m");
    marked
}

/// A higher level never has a lower tier.
pub proof fn lemma_level_tier_monotonic(a: int, b: int)
    requires
        a <= b,
    ensures
        tier_of_level(a).rank() <= tier_of_level(b).rank(),
{
}

/// A level of exactly 300 is not in the highest tier, and any level
/// above it is; the same holds at 200 and at 100.
pub proof fn lemma_level_bounds_strict(parts: int)
    ensures
        tier_of_level(parts) == EmphasisTier::Tier3 <==> parts > 300 * 70000,
        tier_of_level(parts).rank() >= 2 <==> parts > 200 * 70000,
        tier_of_level(parts).rank() >= 1 <==> parts > 100 * 70000,
{
}

} // verus!

verus! {

/// Of two ratios of counts with positive denominators, the greater never
/// has the lower tier.
pub proof fn lemma_ratio_tier_monotonic(a: Ratio, b: Ratio)
    requires
        a.denominator > 0,
        b.denominator > 0,
        a.numerator * b.denominator <= b.numerator * a.denominator,
    ensures
        tier_of_ratio(a).rank() <= tier_of_ratio(b).rank(),
{
    lemma_above_carries(a, b, 1);
    lemma_above_carries(a, b, 2);
    lemma_above_carries(a, b, 3);
}

/// What the smaller of two ratios lies above, the greater lies above too.
proof fn lemma_above_carries(a: Ratio, b: Ratio, bound: int)
    requires
        a.denominator > 0,
        b.denominator > 0,
        a.numerator * b.denominator <= b.numerator * a.denominator,
    ensures
        a.above(bound) ==> b.above(bound),
{
    let (an, ad) = (a.numerator as int, a.denominator as int);
    let (bn, bd) = (b.numerator as int, b.denominator as int);
    if an > bound * ad {
        assert(bn > bound * bd) by (nonlinear_arith)
            requires
                ad > 0,
                bd > 0,
                an * bd <= bn * ad,
                an > bound * ad,
        ;
    }
}

/// A ratio of exactly 3 is not in the highest tier, and any ratio above
/// it is; the same holds at 2 and at 1.
pub proof fn lemma_ratio_bounds_strict(ratio: Ratio)
    ensures
        tier_of_ratio(ratio) == EmphasisTier::Tier3 <==> ratio.above(3),
        tier_of_ratio(ratio).rank() >= 2 <==> ratio.above(2),
        tier_of_ratio(ratio).rank() >= 1 <==> ratio.above(1),
{
    if ratio.above(3) {
        lemma_above_lower_bound(ratio, 2, 3);
        lemma_above_lower_bound(ratio, 1, 3);
    }
    if ratio.above(2) {
        lemma_above_lower_bound(ratio, 1, 2);
    }
}

} // verus!
