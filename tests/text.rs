use poke_api::text::{normalize_name, remove_whitespace, sanitize, text_equals, trim_text};

#[test]
fn sanitize_drops_non_ascii() {
    assert_eq!(sanitize("Pok\u{e9}mon caf\u{e9}"), "Pokmon caf");
}

#[test]
fn sanitize_blanks_each_whitespace_character() {
    assert_eq!(sanitize("a\nb\tc\u{c}d\re"), "a b c d e");
    assert_eq!(sanitize("two\n\nlines"), "two  lines");
}

#[test]
fn sanitize_replaces_escaped_form_feed() {
    assert_eq!(sanitize("It was\\fcreated"), "It was created");
    assert_eq!(sanitize("\\\\f"), "\\ ");
    assert_eq!(sanitize("end\\"), "end\\");
}

#[test]
fn sanitize_drops_non_ascii_whitespace() {
    assert_eq!(sanitize("a\u{a0}b\u{3000}c"), "abc");
}

#[test]
fn sanitize_empty() {
    assert_eq!(sanitize(""), "");
}

#[test]
fn trim_text_both_ends() {
    assert_eq!(trim_text("  mew two \t"), "mew two");
    assert_eq!(trim_text("   "), "");
    assert_eq!(trim_text("x"), "x");
}

#[test]
fn remove_whitespace_everywhere() {
    assert_eq!(remove_whitespace(" mew\ttwo \n"), "mewtwo");
}

#[test]
fn normalize_name_lowercases_and_removes_whitespace() {
    assert_eq!(normalize_name(" Mew Two "), "mewtwo");
    assert_eq!(normalize_name("SNORLAX"), "snorlax");
    assert_eq!(normalize_name("\u{c9}VOLI"), "\u{e9}voli");
}

#[test]
fn text_equals_compares_characters() {
    assert!(text_equals("cave", "cave"));
    assert!(!text_equals("cave", "cav"));
    assert!(!text_equals("cave", "Cave"));
}
