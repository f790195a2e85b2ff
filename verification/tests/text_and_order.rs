use groupme_hvz_rs::order::{sort_items, Order, Ordered};
use groupme_hvz_rs::text::{
    chars_of, find, join_strings, parse_usize, split_lines, split_whitespace, string_of,
    trim_str, usize_to_string,
};
use groupme_hvz_rs::hvz::{Faction, Player};

fn player(gtname: &str, playername: &str) -> Player {
    Player { gtname: gtname.to_string(), playername: playername.to_string(), faction: Faction::Human, kb_gtname: None }
}

#[test]
fn parse_usize_reads_plain_and_signed_numbers() {
    assert_eq!(parse_usize("42"), Some(42));
    assert_eq!(parse_usize("+7"), Some(7));
    assert_eq!(parse_usize("007"), Some(7));
    assert_eq!(parse_usize(&usize::MAX.to_string()), Some(usize::MAX));
}

#[test]
fn parse_usize_refuses_what_str_parse_refuses() {
    for bad in ["", "+", "-1", "4a", " 4", "18446744073709551616"] {
        assert_eq!(parse_usize(bad), bad.parse::<usize>().ok(), "input {:?}", bad);
        assert_eq!(parse_usize(bad), None, "input {:?}", bad);
    }
}

#[test]
fn find_gives_first_occurrence() {
    assert_eq!(find(&chars_of("chat_line_12"), &chars_of("chat_line_")), Some(0));
    assert_eq!(find(&chars_of("a: b: c"), &chars_of(": ")), Some(1));
    assert_eq!(find(&chars_of("abc"), &chars_of("abcd")), None);
    assert_eq!(find(&chars_of("abc"), &chars_of("x")), None);
}

#[test]
fn split_whitespace_matches_std() {
    let s = "  hello \t world\nagain  ";
    let ws: Vec<String> = split_whitespace(&chars_of(s)).iter().map(string_of).collect();
    let expected: Vec<String> = s.split_whitespace().map(String::from).collect();
    assert_eq!(ws, expected);
}

#[test]
fn split_lines_matches_std() {
    for s in ["a\nb\r\nc", "a\n", "", "\n\n", "x\r\ny\r"] {
        let ls: Vec<String> = split_lines(&chars_of(s)).iter().map(string_of).collect();
        let expected: Vec<String> = s.lines().map(String::from).collect();
        assert_eq!(ls, expected, "input {:?}", s);
    }
}

#[test]
fn trim_and_lowercase() {
    assert_eq!(trim_str("  George Burdell \n"), "George Burdell");
}

#[test]
fn join_and_decimal() {
    let parts = vec!["a".to_string(), "b".to_string(), "c".to_string()];
    assert_eq!(join_strings(&parts, ", "), "a, b, c");
    assert_eq!(join_strings(&vec![], ", "), "");
    assert_eq!(usize_to_string(0), "0");
    assert_eq!(usize_to_string(1907), "1907");
}

#[test]
fn sort_orders_players_by_name_then_login() {
    let v = vec![player("zz9", "Bob"), player("aa1", "Carol"), player("aa2", "Bob"), player("aa0", "Alice")];
    let sorted = sort_items(v);
    let names: Vec<(String, String)> = sorted.iter().map(|p| (p.playername.clone(), p.gtname.clone())).collect();
    assert_eq!(
        names,
        vec![
            ("Alice".to_string(), "aa0".to_string()),
            ("Bob".to_string(), "aa2".to_string()),
            ("Bob".to_string(), "zz9".to_string()),
            ("Carol".to_string(), "aa1".to_string()),
        ]
    );
}

#[test]
fn sort_keeps_equal_items_in_order() {
    let mut a = player("same", "Same");
    a.kb_gtname = Some("first".to_string());
    let mut b = player("same", "Same");
    b.kb_gtname = Some("second".to_string());
    let sorted = sort_items(vec![a, player("x", "Aaron"), b]);
    assert_eq!(sorted[0].playername, "Aaron");
    assert_eq!(sorted[1].kb_gtname.as_deref(), Some("first"));
    assert_eq!(sorted[2].kb_gtname.as_deref(), Some("second"));
}

#[test]
fn player_comparison() {
    assert!(matches!(player("a", "Bob").compare(&player("b", "Bob")), Order::Less));
    assert!(matches!(player("a", "Bob").compare(&player("a", "Bob")), Order::Equal));
    assert!(matches!(player("a", "Cy").compare(&player("b", "Bob")), Order::Greater));
}
