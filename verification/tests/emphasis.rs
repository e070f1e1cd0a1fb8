use bedwars_stats::emphasis::{bold_and_underline, level_tier, ratio_tier, EmphasisTier};
use bedwars_stats::level::{xp_to_level, Level};
use bedwars_stats::ratio::Ratio;

#[test]
fn level_of_exactly_300_is_not_in_the_highest_tier() {
    // 300.0 and 300.01
    assert_eq!(level_tier(&xp_to_level(1_461_000)), EmphasisTier::Tier2);
    assert_eq!(level_tier(&xp_to_level(1_461_005)), EmphasisTier::Tier3);
    assert_eq!(level_tier(&Level::from_parts(300 * 70000)), EmphasisTier::Tier2);
    assert_eq!(level_tier(&Level::from_parts(300 * 70000 + 700)), EmphasisTier::Tier3);
    assert_eq!(level_tier(&Level::from_parts(300 * 70000 + 1)), EmphasisTier::Tier3);
}

#[test]
fn level_tiers_start_above_each_hundred() {
    assert_eq!(level_tier(&xp_to_level(0)), EmphasisTier::Unmarked);
    assert_eq!(level_tier(&xp_to_level(487_000)), EmphasisTier::Unmarked);
    assert_eq!(level_tier(&xp_to_level(487_001)), EmphasisTier::Tier1);
    assert_eq!(level_tier(&xp_to_level(974_000)), EmphasisTier::Tier1);
    assert_eq!(level_tier(&xp_to_level(974_001)), EmphasisTier::Tier2);
    assert_eq!(level_tier(&xp_to_level(i32::MAX)), EmphasisTier::Tier3);
    assert_eq!(level_tier(&xp_to_level(-1)), EmphasisTier::Unmarked);
}

#[test]
fn level_tier_goes_by_the_exact_level() {
    // shown as 300.00, and still above 300
    let level = xp_to_level(1_461_001);
    let mut shown = String::new();
    level.push_shown(&mut shown);
    assert_eq!(shown, "300.00");
    assert_eq!(level_tier(&level), EmphasisTier::Tier3);
}

#[test]
fn ratio_tiers_start_above_each_bound() {
    assert_eq!(ratio_tier(&Ratio::new(1, 1)), EmphasisTier::Unmarked);
    assert_eq!(ratio_tier(&Ratio::new(101, 100)), EmphasisTier::Tier1);
    assert_eq!(ratio_tier(&Ratio::new(2, 1)), EmphasisTier::Tier1);
    assert_eq!(ratio_tier(&Ratio::new(201, 100)), EmphasisTier::Tier2);
    assert_eq!(ratio_tier(&Ratio::new(3, 1)), EmphasisTier::Tier2);
    assert_eq!(ratio_tier(&Ratio::new(301, 100)), EmphasisTier::Tier3);
    assert_eq!(ratio_tier(&Ratio::new(0, 1)), EmphasisTier::Unmarked);
    assert_eq!(ratio_tier(&Ratio::new(-9, 1)), EmphasisTier::Unmarked);
}

#[test]
fn ratio_over_zero_has_the_tier_of_what_it_is() {
    assert_eq!(ratio_tier(&Ratio::new(10, 0)), EmphasisTier::Tier3);
    assert_eq!(ratio_tier(&Ratio::new(-10, 0)), EmphasisTier::Unmarked);
    assert_eq!(ratio_tier(&Ratio::new(0, 0)), EmphasisTier::Unmarked);
}

#[test]
fn tiers_are_in_order() {
    let tiers = [
        EmphasisTier::Unmarked,
        EmphasisTier::Tier1,
        EmphasisTier::Tier2,
        EmphasisTier::Tier3,
    ];
    for (i, low) in tiers.iter().enumerate() {
        assert_eq!(low.order() as usize, i);
        for high in &tiers[i..] {
            assert_eq!(low.max(*high), *high);
            assert_eq!(high.max(*low), *high);
        }
    }
}

#[test]
fn tiers_have_their_colours() {
    assert_eq!(EmphasisTier::Unmarked.colour_code(), -1);
    assert_eq!(EmphasisTier::Tier1.colour_code(), 1);
    assert_eq!(EmphasisTier::Tier2.colour_code(), 2);
    assert_eq!(EmphasisTier::Tier3.colour_code(), 3);
}

#[test]
fn markers_wrap_the_text() {
    assert_eq!(bold_and_underline("Foo", -1), "Foo");
    assert_eq!(bold_and_underline("Foo", 3), "\u{1b}[1;4;31mFoo\u{1b}[0m");
    assert_eq!(bold_and_underline("Foo", 2), "\u{1b}[1;4;33mFoo\u{1b}[0m");
    assert_eq!(bold_and_underline("Foo", 1), "\u{1b}[1;4;34mFoo\u{1b}[0m");
    assert_eq!(bold_and_underline("", 1), "\u{1b}[1;4;34m\u{1b}[0m");
}

#[test]
fn a_colour_of_no_tier_is_white() {
    assert_eq!(bold_and_underline("Foo", 0), "\u{1b}[1;4;37mFoo\u{1b}[0m");
    assert_eq!(bold_and_underline("Foo", 4), "\u{1b}[1;4;37mFoo\u{1b}[0m");
    assert_eq!(bold_and_underline("Foo", -2), "\u{1b}[1;4;37mFoo\u{1b}[0m");
    assert_eq!(bold_and_underline("Foo", i32::MIN), "\u{1b}[1;4;37mFoo\u{1b}[0m");
}
