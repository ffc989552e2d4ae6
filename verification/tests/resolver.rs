use rubra::search::{process_search_input, resolve, ParsedUrl};

fn parsed(scheme: &str, host: Option<&str>, path: &str) -> ParsedUrl {
    ParsedUrl {
        scheme: scheme.to_string(),
        host: host.map(|h| h.to_string()),
        path: path.to_string(),
    }
}

#[test]
fn url_with_scheme_is_kept() {
    assert_eq!(process_search_input("https://example.com"), "https://example.com");
    assert_eq!(process_search_input("ftp://x"), "ftp://x");
    assert_eq!(process_search_input("mailto:someone@example.com"), "mailto:someone@example.com");
}

#[test]
fn url_with_scheme_is_kept_whatever_its_host() {
    assert_eq!(process_search_input("http://localhost:8080/"), "http://localhost:8080/");
    assert_eq!(process_search_input("https://127.0.0.1/index.html"), "https://127.0.0.1/index.html");
    assert_eq!(process_search_input("file:///etc/hosts"), "file:///etc/hosts");
}

#[test]
fn input_is_returned_as_typed_not_as_normalised() {
    assert_eq!(process_search_input("HTTPS://Example.COM"), "HTTPS://Example.COM");
    assert_eq!(process_search_input("https:////example.com"), "https:////example.com");
}

#[test]
fn domain_names_go_to_https() {
    assert_eq!(process_search_input("example.com"), "https://example.com");
    assert_eq!(process_search_input("sub.example.co.uk"), "https://sub.example.co.uk");
    assert_eq!(process_search_input("my-site.example-domain.org"), "https://my-site.example-domain.org");
}

#[test]
fn other_text_becomes_a_search() {
    assert_eq!(
        process_search_input("how to code"),
        "https://duckduckgo.com/?q=how%20to%20code"
    );
}

#[test]
fn search_encodes_every_reserved_byte() {
    assert_eq!(
        process_search_input("a+b&c=d/e?f#g"),
        "https://duckduckgo.com/?q=a%2Bb%26c%3Dd%2Fe%3Ff%23g"
    );
    assert_eq!(process_search_input("-._~"), "https://duckduckgo.com/?q=-._~");
    assert_eq!(process_search_input("100%"), "https://duckduckgo.com/?q=100%25");
}

#[test]
fn search_encodes_utf8_bytes_in_upper_case_hex() {
    assert_eq!(process_search_input("caf\u{e9}"), "https://duckduckgo.com/?q=caf%C3%A9");
    assert_eq!(process_search_input("\u{65e5}\u{672c}"), "https://duckduckgo.com/?q=%E6%97%A5%E6%9C%AC");
}

#[test]
fn empty_input_is_an_empty_search() {
    assert_eq!(process_search_input(""), "https://duckduckgo.com/?q=");
}

#[test]
fn bare_path_is_no_url_and_becomes_a_search() {
    assert_eq!(process_search_input("/etc/hosts"), "https://duckduckgo.com/?q=%2Fetc%2Fhosts");
}

#[test]
fn bare_address_is_no_domain_name() {
    assert_eq!(process_search_input("127.0.0.1"), "https://duckduckgo.com/?q=127.0.0.1");
    assert_eq!(process_search_input("localhost"), "https://duckduckgo.com/?q=localhost");
}

#[test]
fn resolve_keeps_input_with_scheme() {
    let url = parsed("https", Some("localhost"), "/");
    assert_eq!(resolve("https://localhost/", Some(&url)), "https://localhost/");
}

#[test]
fn resolve_sends_loopback_to_http() {
    let local = parsed("", Some("localhost"), "");
    assert_eq!(resolve("localhost:3000", Some(&local)), "http://localhost:3000");
    let numeric = parsed("", Some("127.0.0.1"), "/x");
    assert_eq!(resolve("127.0.0.1/x", Some(&numeric)), "http://127.0.0.1/x");
    let any = parsed("", Some("127.anything"), "");
    assert_eq!(resolve("127.anything", Some(&any)), "http://127.anything");
}

#[test]
fn resolve_loopback_wins_over_absolute_path() {
    let url = parsed("", Some("localhost"), "/srv");
    assert_eq!(resolve("localhost/srv", Some(&url)), "http://localhost/srv");
}

#[test]
fn resolve_needs_the_whole_loopback_name() {
    let longer = parsed("", Some("localhost.example"), "");
    assert_eq!(resolve("localhost.example", Some(&longer)), "https://localhost.example");
    let other = parsed("", Some("128.0.0.1"), "");
    assert_eq!(resolve("128.0.0.1", Some(&other)), "https://128.0.0.1");
    let short = parsed("", Some("127"), "");
    assert_eq!(resolve("127", Some(&short)), "https://127");
}

#[test]
fn resolve_sends_absolute_path_to_file() {
    let url = parsed("", None, "/etc/hosts");
    assert_eq!(resolve("/etc/hosts", Some(&url)), "file:///etc/hosts");
}

#[test]
fn resolve_sends_other_urls_to_https() {
    let url = parsed("", None, "docs/index.html");
    assert_eq!(resolve("docs/index.html", Some(&url)), "https://docs/index.html");
    let empty = parsed("", None, "");
    assert_eq!(resolve("", Some(&empty)), "https://");
}

#[test]
fn resolve_without_url_checks_domain_then_searches() {
    assert_eq!(resolve("example.com", None), "https://example.com");
    assert_eq!(resolve("two words", None), "https://duckduckgo.com/?q=two%20words");
}
