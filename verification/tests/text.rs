use rubra::text::{chars_of, has_prefix, str_eq};

#[test]
fn chars_of_lists_every_character() {
    assert_eq!(chars_of(""), Vec::<char>::new());
    assert_eq!(chars_of("a.b"), vec!['a', '.', 'b']);
    assert_eq!(chars_of("h\u{e9}\u{65e5}"), vec!['h', '\u{e9}', '\u{65e5}']);
}

#[test]
fn str_eq_compares_contents() {
    assert!(str_eq("", ""));
    assert!(str_eq("true", "true"));
    assert!(!str_eq("true", "True"));
    assert!(!str_eq("true", "tru"));
    assert!(!str_eq("tru", "true"));
    assert!(!str_eq("caf\u{e9}", "cafe"));
    assert!(str_eq("caf\u{e9}", "caf\u{e9}"));
}

#[test]
fn has_prefix_checks_the_start() {
    assert!(has_prefix("127.0.0.1", "127."));
    assert!(has_prefix("127.", "127."));
    assert!(!has_prefix("127", "127."));
    assert!(!has_prefix("128.0.0.1", "127."));
    assert!(has_prefix("anything", ""));
    assert!(has_prefix("", ""));
    assert!(!has_prefix("", "/"));
    assert!(has_prefix("/x", "/"));
}
