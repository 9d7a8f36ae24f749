use twitch_tools::chat_view::{
    decimal_string, parse_first_number, parse_hex, try_parse_color, FocusState, Poll, Rgb,
};
use twitch_tools::todo::{default_undo_steps, is_zero, State, Todo, MAX_LEVEL};

#[test]
fn colors_in_hex() {
    assert_eq!(try_parse_color("#FF8000"), Some(Rgb { r: 255, g: 128, b: 0 }));
    assert_eq!(try_parse_color("#1e90ff"), Some(Rgb { r: 30, g: 144, b: 255 }));
    assert_eq!(try_parse_color(""), None);
    assert_eq!(try_parse_color("FF8000"), None);
    assert_eq!(try_parse_color("#FF800"), None);
    assert_eq!(try_parse_color("#FF80000"), None);
    assert_eq!(try_parse_color("#GG8000"), None);
    assert_eq!(parse_hex(b'a'), Some(10));
    assert_eq!(parse_hex(b'F'), Some(15));
    assert_eq!(parse_hex(b'g'), None);
}

#[test]
fn numbers_from_the_first_word() {
    assert_eq!(parse_first_number("2"), Some(2));
    assert_eq!(parse_first_number("1 for the win"), Some(1));
    assert_eq!(parse_first_number("+3"), Some(3));
    assert_eq!(parse_first_number("one"), None);
    assert_eq!(parse_first_number(""), None);
    assert_eq!(parse_first_number("+"), None);
    assert_eq!(parse_first_number(" 1"), None);
    assert_eq!(parse_first_number("-1"), None);
    assert_eq!(parse_first_number("18446744073709551615"), Some(usize::MAX));
    assert_eq!(parse_first_number("18446744073709551616"), None);
    for text in ["0", "7 x", "+12", "abc", "99999999999999999999", "4a"] {
        let word = text.split(' ').next().unwrap();
        assert_eq!(parse_first_number(text), word.parse::<usize>().ok(), "{text}");
    }
}

#[test]
fn decimal_strings() {
    assert_eq!(decimal_string(0), "0");
    assert_eq!(decimal_string(7), "7");
    assert_eq!(decimal_string(1024), "1024");
    assert_eq!(decimal_string(usize::MAX), usize::MAX.to_string());
}

fn poll(options: &[&str]) -> Poll {
    Poll::new(options.iter().map(|s| s.to_string()).collect())
}

#[test]
fn poll_without_votes() {
    let p = poll(&["a", "b"]);
    assert_eq!(p.result(), "Ergebnis: Keine Stimmen");
}

#[test]
fn poll_last_ballot_counts() {
    let mut p = poll(&["rot", "blau", "grün"]);
    p.vote("u1", "0");
    p.vote("u2", "1 bitte");
    p.vote("u1", "1");
    p.vote("u3", "hallo");
    assert_eq!(p.votes.len(), 2);
    assert_eq!(p.counts_of(), vec![0, 2, 0]);
    assert_eq!(p.result(), "Ergebnis[2]: blau");
}

#[test]
fn poll_ties_list_every_winner() {
    let mut p = poll(&["rot", "blau", "grün"]);
    p.vote("u1", "0");
    p.vote("u2", "2");
    p.vote("u3", "1");
    assert_eq!(p.result(), "Ergebnis[1]: rot - blau - grün");
    p.vote("u3", "2");
    assert_eq!(p.result(), "Ergebnis[2]: grün");
}

#[test]
fn poll_ignores_ballots_without_option() {
    let mut p = poll(&["ja", "nein"]);
    p.vote("u1", "5");
    p.vote("u2", "1");
    assert_eq!(p.counts_of(), vec![0, 1]);
    assert_eq!(p.result(), "Ergebnis[1]: nein");
}

#[test]
fn focus_states() {
    assert!(FocusState::Idle.is_none());
    assert!(FocusState::Message(3).is_message());
    assert!(!FocusState::Message(3).is_search());
    assert!(FocusState::Search(0).is_search());
}

#[test]
fn todo_states_cycle() {
    let mut s = State::default();
    assert_eq!(s, State::Open);
    assert_eq!(s.as_str(), "[ ] ");
    assert!(s.is_open());
    s.next();
    assert_eq!((s, s.as_str()), (State::Wip, "[.] "));
    s.next();
    assert_eq!((s, s.as_str()), (State::Done, "[X] "));
    s.next();
    assert_eq!(s, State::Open);
}

#[test]
fn todo_levels_are_bounded() {
    let mut t = Todo::default();
    t.level_decr();
    assert_eq!(t.level, 0);
    for _ in 0..20 {
        t.level_incr();
    }
    assert_eq!(t.level, MAX_LEVEL);
    assert_eq!(MAX_LEVEL, 8);
    t.level_decr();
    assert_eq!(t.level, 7);
}

#[test]
fn todo_helpers() {
    assert_eq!(default_undo_steps(), 4096);
    assert!(is_zero(&0));
    assert!(!is_zero(&3));
}
