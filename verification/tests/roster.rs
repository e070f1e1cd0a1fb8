use bedwars_stats::roster::{roster, split_roster};

fn pieces(text: &str) -> Vec<String> {
    text.split(", ").map(|s| s.to_string()).collect()
}

#[test]
fn a_roster_is_split_at_comma_and_space() {
    assert_eq!(split_roster("A, B, C"), vec!["A", "B", "C"]);
    assert_eq!(split_roster("Alpha"), vec!["Alpha"]);
    assert_eq!(split_roster("Alpha, Beta_2"), vec!["Alpha", "Beta_2"]);
}

#[test]
fn only_comma_and_space_together_part_names() {
    assert_eq!(split_roster("A,B, C"), vec!["A,B", "C"]);
    assert_eq!(split_roster("A ,B"), vec!["A ,B"]);
    assert_eq!(split_roster("A,  B"), vec!["A", " B"]);
    assert_eq!(split_roster("A,, B"), vec!["A,", "B"]);
    assert_eq!(split_roster("A B"), vec!["A B"]);
}

#[test]
fn empty_names_are_kept() {
    assert_eq!(split_roster(""), vec![""]);
    assert_eq!(split_roster(", "), vec!["", ""]);
    assert_eq!(split_roster("A, "), vec!["A", ""]);
    assert_eq!(split_roster(", A"), vec!["", "A"]);
    assert_eq!(split_roster("A, , B"), vec!["A", "", "B"]);
    assert_eq!(split_roster(","), vec![","]);
    assert_eq!(split_roster(", ,"), vec!["", ","]);
}

#[test]
fn names_need_not_be_ascii() {
    assert_eq!(split_roster("Émile, 名前, x"), vec!["Émile", "名前", "x"]);
    assert_eq!(roster("ONLINE: Émile, 名前"), Some(vec!["Émile".to_string(), "名前".to_string()]));
}

#[test]
fn splitting_agrees_with_std() {
    for text in [
        "", ",", " ", ", ", ",,", ", , ", ",, ,", "a", "a, b", "a,b", ", ,, , ,a, , b,", "a, b, c, d",
        " , ", ",  ,", "x, , , y",
    ] {
        assert_eq!(split_roster(text), pieces(text), "{:?}", text);
    }
}

#[test]
fn a_trigger_starts_with_its_mark() {
    assert_eq!(
        roster("ONLINE: A, B, C"),
        Some(vec!["A".to_string(), "B".to_string(), "C".to_string()])
    );
    assert_eq!(roster("ONLINE: "), Some(vec!["".to_string()]));
    assert_eq!(roster("ONLINE: A"), Some(vec!["A".to_string()]));
}

#[test]
fn other_lines_are_no_trigger() {
    assert_eq!(roster(""), None);
    assert_eq!(roster("ONLINE:"), None);
    assert_eq!(roster("ONLINE:A, B"), None);
    assert_eq!(roster("online: A, B"), None);
    assert_eq!(roster(" ONLINE: A, B"), None);
    assert_eq!(roster("OFFLINE: A, B"), None);
    assert_eq!(roster("ÖNLINE: A"), None);
    assert_eq!(roster("hello there, world"), None);
}
