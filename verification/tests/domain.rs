use rubra::domain::is_domain;

#[test]
fn plain_domains_match() {
    assert!(is_domain("example.com"));
    assert!(is_domain("sub.example.co.uk"));
    assert!(is_domain("EXAMPLE.COM"));
    assert!(is_domain("a.bc"));
}

#[test]
fn labels_may_hold_digits_and_inner_hyphens() {
    assert!(is_domain("a1.b2.com"));
    assert!(is_domain("a.b.com"));
    assert!(is_domain("my-site.example-domain.org"));
    assert!(is_domain("1.2.3.four"));
    assert!(is_domain("a--b.com"));
}

#[test]
fn a_single_label_is_no_domain() {
    assert!(!is_domain("com"));
    assert!(!is_domain("localhost"));
    assert!(!is_domain(""));
}

#[test]
fn final_label_is_two_or_more_letters() {
    assert!(!is_domain("example.c"));
    assert!(!is_domain("example.c0m"));
    assert!(!is_domain("example.co-m"));
    assert!(!is_domain("127.0.0.1"));
    assert!(is_domain("example.technology"));
}

#[test]
fn final_label_has_no_upper_bound() {
    let tld = "a".repeat(80);
    assert!(is_domain(&format!("example.{}", tld)));
}

#[test]
fn empty_labels_do_not_match() {
    assert!(!is_domain(".com"));
    assert!(!is_domain("example..com"));
    assert!(!is_domain("example.com."));
    assert!(!is_domain("."));
    assert!(!is_domain(".."));
}

#[test]
fn hyphen_at_either_end_of_a_label_does_not_match() {
    assert!(!is_domain("-example.com"));
    assert!(!is_domain("example-.com"));
    assert!(!is_domain("a.-b.com"));
    assert!(!is_domain("a.b-.com"));
    assert!(!is_domain("-.com"));
}

#[test]
fn label_length_is_at_most_63() {
    let longest = "a".repeat(63);
    let too_long = "a".repeat(64);
    assert!(is_domain(&format!("{}.com", longest)));
    assert!(!is_domain(&format!("{}.com", too_long)));
    assert!(is_domain(&format!("x.{}.com", longest)));
    assert!(!is_domain(&format!("x.{}.com", too_long)));
}

#[test]
fn other_characters_do_not_match() {
    assert!(!is_domain("exa_mple.com"));
    assert!(!is_domain("example.com/path"));
    assert!(!is_domain("example.com:80"));
    assert!(!is_domain("how to code"));
    assert!(!is_domain("m\u{fc}nchen.de"));
    assert!(!is_domain("example.c\u{f6}m"));
    assert!(!is_domain(" example.com"));
}
