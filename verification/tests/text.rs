use jord::gen::text::{strip_prefix, ParseError, Text};

fn lines_text(lines: &[&str]) -> Text {
    Text::new(lines.iter().map(|l| l.to_string()).collect())
}

#[test]
fn empty_text_is_eot() {
    assert!(lines_text(&[]).is_eot());
    assert!(!lines_text(&[""]).is_eot());
}

#[test]
fn skip_empty_drops_leading_empty_lines_only() {
    let t = lines_text(&["", "", "a", "", "b"]).skip_empty();
    let (l, t) = t.next().unwrap();
    assert_eq!("a", l);
    let (l, t) = t.next().unwrap();
    assert_eq!("", l);
    let (l, t) = t.next().unwrap();
    assert_eq!("b", l);
    assert!(t.is_eot());
}

#[test]
fn skip_empty_of_only_empty_lines_is_eot() {
    assert!(lines_text(&["", "", ""]).skip_empty().is_eot());
}

#[test]
fn skip_empty_keeps_blank_but_not_empty_lines() {
    let (l, _) = lines_text(&[" ", "a"]).skip_empty().next().unwrap();
    assert_eq!(" ", l);
}

#[test]
fn next_on_empty_text() {
    assert!(matches!(lines_text(&[]).next(), Err(ParseError::EndOfText)));
}

#[test]
fn next_if_prefixed_strips_prefix() {
    let (l, t) = lines_text(&["# hello", "x"]).next_if_prefixed("# ").unwrap();
    assert_eq!("hello", l);
    let (l, _) = t.next().unwrap();
    assert_eq!("x", l);
}

#[test]
fn next_if_prefixed_whole_line() {
    let (l, t) = lines_text(&["mod "]).next_if_prefixed("mod ").unwrap();
    assert_eq!("", l);
    assert!(t.is_eot());
}

#[test]
fn next_if_prefixed_wrong_prefix() {
    match lines_text(&["#hello"]).next_if_prefixed("# ") {
        Err(ParseError::MissingPrefix { expected, found }) => {
            assert_eq!("# ", expected);
            assert_eq!(Some("#hello".to_string()), found);
        }
        _ => panic!("expected a missing prefix"),
    }
}

#[test]
fn next_if_prefixed_on_empty_text() {
    match lines_text(&[]).next_if_prefixed("# ") {
        Err(ParseError::MissingPrefix { expected, found }) => {
            assert_eq!("# ", expected);
            assert_eq!(None, found);
        }
        _ => panic!("expected a missing prefix"),
    }
}

#[test]
fn strip_prefix_non_ascii() {
    assert_eq!(Some("ü".to_string()), strip_prefix("éü", "é"));
    assert_eq!(None, strip_prefix("é", "éé"));
    assert_eq!(Some("abc".to_string()), strip_prefix("abc", ""));
    assert_eq!(None, strip_prefix("abc", "abd"));
}

#[test]
fn skip_empty_twice_is_skip_empty_once() {
    let once = lines_text(&["", "", "a", ""]).skip_empty();
    let twice = lines_text(&["", "", "a", ""]).skip_empty().skip_empty();
    let (a1, r1) = once.next().unwrap();
    let (a2, r2) = twice.next().unwrap();
    assert_eq!(a1, a2);
    assert_eq!(r1.next().unwrap().0, r2.next().unwrap().0);
}

#[test]
fn prefixed_line_is_next_line_without_prefix() {
    let t = lines_text(&["  surface: wgs84", "rest"]);
    let (stripped, r1) = t.next_if_prefixed("  surface: ").unwrap();
    let (line, r2) = t.next().unwrap();
    assert_eq!(line, format!("  surface: {}", stripped));
    assert_eq!(r1.next().unwrap().0, r2.next().unwrap().0);
}
