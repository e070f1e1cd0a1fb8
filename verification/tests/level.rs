use bedwars_stats::level::{xp_to_level, Level, PARTS_PER_LEVEL, PRESTIGE_COST};

fn shown(level: Level) -> String {
    let mut out = String::new();
    level.push_shown(&mut out);
    out
}

// The walk over the level costs in single precision.
fn walked(xp: i32) -> f32 {
    if xp == 0 {
        return 0.0;
    }
    let costs = [500, 1000, 2000, 3500];
    let cycle = 7000 + 96 * 5000;
    let mut level = 0.0;
    let prestiges = xp / cycle;
    level += 100.0 * prestiges as f32;
    let mut rest = xp - prestiges * cycle;
    for cost in costs {
        if rest < cost {
            level += (rest as f32) / (cost as f32);
            rest = 0;
            break;
        }
        level += 1.0;
        rest -= cost;
    }
    if rest > 0 {
        level += (rest as f32) / 5000.0
    }
    level
}

#[test]
fn level_of_nothing_is_zero() {
    assert_eq!(xp_to_level(0).as_parts(), 0);
    assert_eq!(shown(xp_to_level(0)), "0.00");
}

#[test]
fn level_landmarks_are_exact() {
    assert_eq!(xp_to_level(7000).as_parts(), 4 * PARTS_PER_LEVEL);
    assert_eq!(xp_to_level(487000).as_parts(), 100 * PARTS_PER_LEVEL);
    assert_eq!(xp_to_level(974000).as_parts(), 200 * PARTS_PER_LEVEL);
    assert_eq!(shown(xp_to_level(7000)), "4.00");
    assert_eq!(shown(xp_to_level(487000)), "100.00");
    assert_eq!(shown(xp_to_level(974000)), "200.00");
}

#[test]
fn level_walks_the_opening_costs() {
    assert_eq!(xp_to_level(250).as_parts(), PARTS_PER_LEVEL / 2);
    assert_eq!(xp_to_level(499).as_parts(), 69860);
    assert_eq!(xp_to_level(500).as_parts(), PARTS_PER_LEVEL);
    assert_eq!(xp_to_level(1000).as_parts(), PARTS_PER_LEVEL + PARTS_PER_LEVEL / 2);
    assert_eq!(xp_to_level(1500).as_parts(), 2 * PARTS_PER_LEVEL);
    assert_eq!(xp_to_level(2500).as_parts(), 2 * PARTS_PER_LEVEL + PARTS_PER_LEVEL / 2);
    assert_eq!(xp_to_level(3500).as_parts(), 3 * PARTS_PER_LEVEL);
    assert_eq!(xp_to_level(5250).as_parts(), 3 * PARTS_PER_LEVEL + PARTS_PER_LEVEL / 2);
    assert_eq!(xp_to_level(6999).as_parts(), 4 * PARTS_PER_LEVEL - 20);
}

#[test]
fn level_climbs_at_the_flat_cost() {
    assert_eq!(xp_to_level(12000).as_parts(), 5 * PARTS_PER_LEVEL);
    assert_eq!(xp_to_level(9500).as_parts(), 4 * PARTS_PER_LEVEL + PARTS_PER_LEVEL / 2);
    assert_eq!(xp_to_level(486999).as_parts(), 100 * PARTS_PER_LEVEL - 14);
    assert_eq!(xp_to_level(487250).as_parts(), 100 * PARTS_PER_LEVEL + PARTS_PER_LEVEL / 2);
    assert_eq!(xp_to_level(494000).as_parts(), 104 * PARTS_PER_LEVEL);
    assert_eq!(xp_to_level(i32::MAX).as_parts(), 4409 * 7_000_000 + 280_000 + 14 * (300647 - 7000));
}

#[test]
fn level_never_falls_as_experience_grows() {
    let mut last = xp_to_level(0).as_parts();
    let mut xp = 0;
    while xp < 1_500_000 {
        let now = xp_to_level(xp).as_parts();
        assert!(now >= last, "level fell at {}", xp);
        last = now;
        xp += 1;
    }
    assert!(xp_to_level(i32::MAX).as_parts() >= last);
}

#[test]
fn level_below_zero_counts_downwards() {
    assert_eq!(xp_to_level(-100).as_parts(), -14000);
    assert_eq!(shown(xp_to_level(-100)), "-0.20");
    assert_eq!(xp_to_level(-487000).as_parts(), -100 * PARTS_PER_LEVEL);
    assert_eq!(xp_to_level(-487001).as_parts(), -100 * PARTS_PER_LEVEL - 140);
    assert_eq!(
        xp_to_level(i32::MIN).as_parts(),
        -(4409 * 7_000_000 + 140 * 300648)
    );
    assert_eq!(shown(xp_to_level(-1)), "-0.00");
}

#[test]
fn level_is_shown_with_two_places() {
    assert_eq!(shown(xp_to_level(250)), "0.50");
    assert_eq!(shown(xp_to_level(1)), "0.00");
    assert_eq!(shown(xp_to_level(3)), "0.01");
    assert_eq!(shown(xp_to_level(499)), "1.00");
    assert_eq!(shown(xp_to_level(7001)), "4.00");
    assert_eq!(shown(xp_to_level(7026)), "4.01");
    assert_eq!(shown(xp_to_level(1_461_005)), "300.01");
    assert_eq!(shown(xp_to_level(i32::MAX)), "440962.73");
    assert_eq!(shown(Level::from_parts(i64::MAX)), "131762457669353.94");
    assert_eq!(shown(Level::from_parts(i64::MIN)), "-131762457669353.94");
}

#[test]
fn level_ties_go_to_the_even_hundredth() {
    // 1.005, 1.015, 4.005 and 4.015
    assert_eq!(shown(xp_to_level(505)), "1.00");
    assert_eq!(shown(xp_to_level(515)), "1.02");
    assert_eq!(shown(xp_to_level(7025)), "4.00");
    assert_eq!(shown(xp_to_level(7075)), "4.02");
    assert_eq!(shown(Level::from_parts(350)), "0.00");
    assert_eq!(shown(Level::from_parts(1050)), "0.02");
    assert_eq!(shown(Level::from_parts(351)), "0.01");
    assert_eq!(shown(Level::from_parts(349)), "0.00");
}

#[test]
fn level_bounds_are_strict() {
    let level = xp_to_level(1_461_000);
    assert_eq!(level, Level::from_parts(300 * PARTS_PER_LEVEL));
    assert!(!level.exceeds(300));
    assert!(level.exceeds(299));
    assert!(xp_to_level(1_461_001).exceeds(300));
    assert!(!xp_to_level(0).exceeds(0));
    assert!(xp_to_level(1).exceeds(0));
    assert!(!xp_to_level(-1).exceeds(0));
    assert!(Level::from_parts(i64::MAX).exceeds(u32::MAX));
    assert!(!Level::from_parts(70000 * 4294967295).exceeds(u32::MAX));
    assert!(Level::from_parts(i64::MAX).exceeds(1_000_000_000));
    assert_eq!(PRESTIGE_COST, 7000 + 96 * 5000);
}

#[test]
fn level_agrees_with_the_walk_in_single_precision() {
    // Below 128 levels single precision is fine enough to tell any two
    // levels apart that are shown differently, so the two differ only
    // where the level lies exactly between two hundredths.
    let mut xp = 0;
    while xp <= 600_000 {
        let level = xp_to_level(xp);
        let tie = level.as_parts() % 700 == 350;
        if !tie {
            assert_eq!(shown(level), format!("{:.2}", walked(xp)), "at {}", xp);
        }
        xp += 1;
    }
}
