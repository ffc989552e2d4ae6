//! The address-bar resolver: from what was typed to where to navigate.

use vstd::prelude::*;
use vstd::string::StringExecFns;
use vstd::utf8::encode_utf8;

use crate::domain::{is_domain, is_domain_name};
use crate::percent::{encode, percent_encode};
use crate::text::{has_prefix, str_eq};

verus! {

/// What a `ParsedUrl` holds.
pub struct UrlParts {
    pub scheme: Seq<char>,
    pub host: Option<Seq<char>>,
    pub path: Seq<char>,
}

/// The parts of a parsed URL that the resolver reads.
#[derive(Debug, Clone, PartialEq, Eq)]
pub struct ParsedUrl {
    pub scheme: String,
    pub host: Option<String>,
    pub path: String,
}

impl View for ParsedUrl {
    type V = UrlParts;

    open spec fn view(&self) -> UrlParts {
        UrlParts {
            scheme: self.scheme@,
            host: match self.host {
                Some(host) => Some(host@),
                None => None,
            },
            path: self.path@,
        }
    }
}

/// The view of a parse result.
pub open spec fn parts_of(parsed: Option<&ParsedUrl>) -> Option<UrlParts> {
    match parsed {
        Some(url) => Some(url@),
        None => None,
    }
}

/// What the URL parser makes of `input`: the parts of the URL, or `None`
/// where it rejects `input`.
pub uninterp spec fn parsed_url(input: Seq<char>) -> Option<UrlParts>;

/// Calls `url::Url::parse` and, where it accepts `input`, reads `scheme`,
/// `host_str` and `path` of the URL. The result is a function of `input`
/// alone, which the contract names `parsed_url`.
#[verifier::external_body]
fn parse_url(input: &str) -> (parsed: Option<ParsedUrl>)
    ensures
        match parsed {
            Some(url) => parsed_url(input@) == Some(url@),
            None => parsed_url(input@) is None,
        },
{
    match url::Url::parse(input) {
        Ok(url) => Some(
            ParsedUrl {
                scheme: url.scheme().to_owned(),
                host: url.host_str().map(str::to_owned),
                path: url.path().to_owned(),
            },
        ),
        Err(_) => None,
    }
}

/// Whether `host` is this machine: `localhost`, or a name that starts with
/// `127.`.
pub open spec fn is_loopback(host: Option<Seq<char>>) -> bool {
    host matches Some(name) && (name == "localhost"@ || "127."@.is_prefix_of(name))
}

/// Whether `path` starts with a slash.
pub open spec fn is_absolute(path: Seq<char>) -> bool {
    path.len() > 0 && path[0] == '/'
}

/// Where to navigate for `input`, given what the URL parser made of it.
///
/// A URL with a scheme is taken as it is. A URL without one goes to
/// `http://` on this machine, to `file://` for an absolute path and to
/// `https://` otherwise. What is no URL goes to `https://` if it is a domain
/// name, and else to a search for it.
pub open spec fn target(input: Seq<char>, parsed: Option<UrlParts>) -> Seq<char> {
    match parsed {
        Some(url) => {
            if url.scheme.len() > 0 {
                input
            } else if is_loopback(url.host) {
                "http://"@ + input
            } else if is_absolute(url.path) {
                "file://"@ + input
            } else {
                "https://"@ + input
            }
        },
        None => {
            if is_domain_name(input) {
                "https://"@ + input
            } else {
                "https://duckduckgo.com/?q="@ + percent_encode(encode_utf8(input))
            }
        },
    }
}

/// An input that is a URL with a scheme is its own target.
pub proof fn lemma_scheme_is_kept(input: Seq<char>, url: UrlParts)
    requires
        url.scheme.len() > 0,
    ensures
        target(input, Some(url)) == input,
{
}

/// A URL without a scheme whose host is this machine goes to `http://`.
pub proof fn lemma_loopback_goes_to_http(input: Seq<char>, url: UrlParts)
    requires
        url.scheme.len() == 0,
        is_loopback(url.host),
    ensures
        target(input, Some(url)) == "http://"@ + input,
{
}

/// A URL without a scheme and with an absolute path goes to `file://`,
/// unless its host is this machine.
pub proof fn lemma_absolute_path_goes_to_file(input: Seq<char>, url: UrlParts)
    requires
        url.scheme.len() == 0,
        !is_loopback(url.host),
        is_absolute(url.path),
    ensures
        target(input, Some(url)) == "file://"@ + input,
{
}

/// A domain name goes to `https://`, unless it is also a URL that one of
/// the earlier rules takes.
pub proof fn lemma_domain_goes_to_https(input: Seq<char>, parsed: Option<UrlParts>)
    requires
        is_domain_name(input),
        parsed matches Some(url) ==> url.scheme.len() == 0 && !is_loopback(url.host)
            && !is_absolute(url.path),
    ensures
        target(input, parsed) == "https://"@ + input,
{
}

/// What is neither a URL nor a domain name becomes a search for its
/// percent-encoded text.
pub proof fn lemma_other_text_is_searched(input: Seq<char>)
    requires
        !is_domain_name(input),
    ensures
        target(input, None) == "https://duckduckgo.com/?q="@ + percent_encode(encode_utf8(input)),
{
}

fn loopback(host: &Option<String>) -> (yes: bool)
    ensures
        yes == is_loopback(
            match host {
                Some(name) => Some(name@),
                None => None,
            },
        ),
{
    match host {
        Some(name) => str_eq(name.as_str(), "localhost") || has_prefix(name.as_str(), "127."),
        None => false,
    }
}

fn absolute(path: &str) -> (yes: bool)
    ensures
        yes == is_absolute(path@),
{
    let yes = has_prefix(path, "/");
    proof {
        reveal_strlit("/");
        if path@.len() > 0 {
            assert(path@.subrange(0, 1)[0] == path@[0]);
            if path@[0] == '/' {
                assert("/"@ =~= path@.subrange(0, 1));
            }
        }
    }
    yes
}

fn prefixed(prefix: &str, rest: &str) -> (joined: String)
    ensures
        joined@ == prefix@ + rest@,
{
    let mut joined = prefix.to_owned();
    joined.append(rest);
    joined
}

/// Resolves `input` with the result of parsing it as a URL in hand.
pub fn resolve(input: &str, parsed: Option<&ParsedUrl>) -> (to: String)
    ensures
        to@ == target(input@, parts_of(parsed)),
{
    match parsed {
        Some(url) => {
            if !url.scheme.as_str().is_empty() {
                input.to_owned()
            } else if loopback(&url.host) {
                prefixed("http://", input)
            } else if absolute(url.path.as_str()) {
                prefixed("file://", input)
            } else {
                prefixed("https://", input)
            }
        },
        None => {
            if is_domain(input) {
                prefixed("https://", input)
            } else {
                let query = encode(input);
                prefixed("https://duckduckgo.com/?q=", query.as_str())
            }
        },
    }
}

/// Resolves what was typed into the address bar to the place to navigate
/// to. Never fails: what is neither a URL nor a domain name becomes a
/// search.
pub fn process_search_input(input: &str) -> (to: String)
    ensures
        to@ == target(input@, parsed_url(input@)),
{
    let parsed = parse_url(input);
    resolve(input, parsed.as_ref())
}

} // verus!
