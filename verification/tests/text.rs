use zuul::text::{find_char, split_first, str_eq};

#[test]
fn find_char_counts_characters_before_the_first_match() {
    assert_eq!(find_char("SETDESC hello", ' '), 7);
    assert_eq!(find_char(" x", ' '), 0);
    assert_eq!(find_char("a b c", ' '), 1);
    assert_eq!(find_char("héé=x", '='), 3);
}

#[test]
fn find_char_gives_the_length_without_a_match() {
    assert_eq!(find_char("", ' '), 0);
    assert_eq!(find_char("GETPIN", ' '), 6);
    assert_eq!(find_char("ééé", ' '), 3);
}

#[test]
fn split_first_parts_at_the_first_separator() {
    assert_eq!(split_first("SETDESC hello world", ' '), ("SETDESC", "hello world"));
    assert_eq!(split_first("ttyname=/dev/pts/3", '='), ("ttyname", "/dev/pts/3"));
    assert_eq!(split_first("a=b=c", '='), ("a", "b=c"));
    assert_eq!(split_first("=b", '='), ("", "b"));
    assert_eq!(split_first("a=", '='), ("a", ""));
    assert_eq!(split_first("=", '='), ("", ""));
    assert_eq!(split_first("clé=válue", '='), ("clé", "válue"));
}

#[test]
fn split_first_without_separator_keeps_all_in_front() {
    assert_eq!(split_first("GETPIN", ' '), ("GETPIN", ""));
    assert_eq!(split_first("", ' '), ("", ""));
    assert_eq!(split_first("été", ' '), ("été", ""));
}

#[test]
fn split_first_agrees_with_the_standard_library() {
    for text in ["", " ", "a", "a b", "a  b", " a", "a ", "é è", "no-space", "x y z"] {
        let expected = text.split_once(' ').unwrap_or((text, ""));
        assert_eq!(split_first(text, ' '), expected, "{:?}", text);
    }
}

#[test]
fn str_eq_compares_characters() {
    assert!(str_eq("", ""));
    assert!(str_eq("GETPIN", "GETPIN"));
    assert!(str_eq("é✓", "é✓"));
    assert!(!str_eq("GETPIN", "GETPIn"));
    assert!(!str_eq("GETPIN", "GETPI"));
    assert!(!str_eq("GETPI", "GETPIN"));
    assert!(!str_eq("", " "));
    assert!(!str_eq("é", "e"));
}
