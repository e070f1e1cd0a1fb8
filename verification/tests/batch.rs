use bedwars_stats::batch::Batch;
use bedwars_stats::commands::stats::StatsError;
use bedwars_stats::ignore_list::IgnoreList;

fn ignoring(names: &[&str]) -> IgnoreList {
    let mut list = IgnoreList::new();
    for name in names {
        list.add(name);
    }
    list
}

#[test]
fn a_batch_is_begun_by_a_trigger_only() {
    assert!(Batch::begin("hello", &IgnoreList::new()).is_none());
    assert!(Batch::begin("ONLINE:", &IgnoreList::new()).is_none());
    assert!(Batch::begin("ONLINE: A", &IgnoreList::new()).is_some());
}

#[test]
fn ignored_players_get_no_line() {
    // whatever comes of fetching for A and for C
    let outcomes: [Result<String, StatsError>; 4] = [
        Ok("line".to_string()),
        Err(StatsError::Provider("down".to_string())),
        Err(StatsError::NoStats),
        Ok("\u{1b}[1;4;31mX\u{1b}[0m: Nicked!".to_string()),
    ];
    for first in &outcomes {
        for second in &outcomes {
            let mut batch = Batch::begin("ONLINE: A, B, C", &ignoring(&["B"])).unwrap();
            assert_eq!(batch.pending(), Some("A".to_string()));
            batch = batch.record(first);
            assert_eq!(batch.pending(), Some("C".to_string()));
            batch = batch.record(second);
            assert_eq!(batch.pending(), None);
            let report = batch.finish();
            assert_eq!(report.lines().count(), 4);
            assert_eq!(report.matches('\n').count(), 3);
        }
    }
}

#[test]
fn lines_keep_the_order_of_the_roster() {
    let mut batch = Batch::begin("ONLINE: A, B, C", &ignoring(&["B"])).unwrap();
    batch = batch.record(&Ok("A: Level 1.00".to_string()));
    batch = batch.record(&Ok("C: Level 2.00".to_string()));
    assert_eq!(batch.finish(), "```ansi\nA: Level 1.00\nC: Level 2.00\n```");
}

#[test]
fn a_failure_takes_one_line_and_no_other() {
    let mut batch = Batch::begin("ONLINE: A, B, C", &IgnoreList::new()).unwrap();
    batch = batch.record(&Ok("A: fine".to_string()));
    batch = batch.record(&Err(StatsError::Provider("Invalid API key".to_string())));
    batch = batch.record(&Err(StatsError::NoStats));
    assert_eq!(
        batch.finish(),
        "```ansi\nA: fine\nError: Invalid API key\nError: Unable to retrieve bedwars stats\n```"
    );
}

#[test]
fn a_full_batch_takes_no_more_lines() {
    let mut batch = Batch::begin("ONLINE: A", &IgnoreList::new()).unwrap();
    batch = batch.record(&Ok("A: fine".to_string()));
    assert_eq!(batch.pending(), None);
    batch = batch.record(&Ok("B: more".to_string()));
    assert_eq!(batch.pending(), None);
    assert_eq!(batch.finish(), "```ansi\nA: fine\n```");
}

#[test]
fn a_batch_without_players_is_an_empty_block() {
    let batch = Batch::begin("ONLINE: A, B", &ignoring(&["A", "B"])).unwrap();
    assert_eq!(batch.pending(), None);
    assert_eq!(batch.finish(), "```ansi\n```");
}

#[test]
fn the_report_may_be_read_before_the_batch_is_full() {
    let mut batch = Batch::begin("ONLINE: A, B", &IgnoreList::new()).unwrap();
    assert_eq!(batch.finish(), "```ansi\n```");
    batch = batch.record(&Ok("A: fine".to_string()));
    assert_eq!(batch.finish(), "```ansi\nA: fine\n```");
    assert_eq!(batch.pending(), Some("B".to_string()));
}

#[test]
fn names_are_not_merged() {
    let mut batch = Batch::begin("ONLINE: A, A, , A", &ignoring(&["C"])).unwrap();
    for expected in ["A", "A", "", "A"] {
        assert_eq!(batch.pending(), Some(expected.to_string()));
        batch = batch.record(&Ok(format!("<{}>", expected)));
    }
    assert_eq!(batch.finish(), "```ansi\n<A>\n<A>\n<>\n<A>\n```");
}

#[test]
fn what_is_ignored_is_settled_when_the_batch_begins() {
    let mut ignored = ignoring(&["B"]);
    let mut batch = Batch::begin("ONLINE: A, B, C", &ignored).unwrap();
    ignored.add("C");
    assert!(ignored.remove("B"));
    batch = batch.record(&Ok("A".to_string()));
    assert_eq!(batch.pending(), Some("C".to_string()));
    batch = batch.record(&Ok("C".to_string()));
    assert_eq!(batch.pending(), None);
}
