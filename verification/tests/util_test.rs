use cubic::util::{Either, ParseName};

#[test]
fn test_left_is_tried_first() {
    // Both sides parse anything, so the left side must win.
    let value = Either::<Always, Always>::from_str("x").unwrap();
    assert!(matches!(value, Either::Left(_)));
}

#[test]
fn test_falls_through_to_right() {
    // The left side never parses, so parsing falls through to the right.
    let value = Either::<Never, Always>::from_str("x").unwrap();
    assert!(matches!(value, Either::Right(_)));
}

#[test]
fn test_lists_both_errors_when_neither_side_parses() {
    let error = Either::<Never, Never>::from_str("x").unwrap_err();
    assert_eq!(error, "expected either\n   a) no parse\n   b) no parse");
}

#[derive(Debug)]
struct Always;
#[derive(Debug)]
struct Never;

impl ParseName for Always {
    fn parse_name(_: &str) -> Result<Self, String> {
        Ok(Always)
    }

    fn to_text(&self) -> String {
        "always".to_string()
    }
}

impl ParseName for Never {
    fn parse_name(_: &str) -> Result<Self, String> {
        Err("no parse".to_string())
    }

    fn to_text(&self) -> String {
        "never".to_string()
    }
}
