//! The default request headers, held in the HTTP client's own header map.
use vstd::prelude::*;

use reqwest::header::{HeaderMap, HeaderValue};

verus! {

#[verifier::external_type_specification]
#[verifier::external_body]
#[verifier::reject_recursive_types(T)]
pub struct ExHeaderMap<T>(HeaderMap<T>);

#[verifier::external_type_specification]
#[verifier::external_body]
pub struct ExHeaderValue(HeaderValue);

/// What a header map holds: for each header name, its values in order.
pub uninterp spec fn header_entries(m: HeaderMap) -> Map<Seq<char>, Seq<Seq<char>>>;

/// The host the service is reached at.
pub const SERVICE_HOST: &'static str = "public.enroll.wisc.edu";

/// A browser-like client identification, which the service expects.
pub const BROWSER_USER_AGENT: &'static str =
    "Mozilla/5.0 (X11; Ubuntu; Linux x86_64; rv:109.0) Gecko/20100101 Firefox/111.0";

/// Whether `c` may stand in a header name given in lower case.
pub open spec fn is_name_char(c: char) -> bool {
    ('a' <= c && c <= 'z') || ('0' <= c && c <= '9') || c == '-'
}

/// Whether `c` is visible ASCII, or a space.
pub open spec fn is_value_char(c: char) -> bool {
    ' ' <= c && c <= '~'
}

/// Relies on `HeaderMap::new`: a new map holds no header.
#[verifier::external_body]
fn empty_header_map() -> (r: HeaderMap)
    ensures
        header_entries(r).dom() == Set::<Seq<char>>::empty(),
{
    HeaderMap::new()
}

/// Relies on `HeaderMap::insert`, with the name and the value made by
/// `HeaderName::from_static` and `HeaderValue::from_static`: the header
/// then holds this one value, and every other header is kept. Both
/// `from_static` calls accept the characters that `requires` admits, and
/// `insert` panics only far beyond the entry count that it admits.
#[verifier::external_body]
fn insert_header(m: &mut HeaderMap, name: &'static str, value: &'static str)
    requires
        0 < name@.len() <= 64,
        forall|i: int| 0 <= i < name@.len() ==> is_name_char(#[trigger] name@[i]),
        forall|i: int| 0 <= i < value@.len() ==> is_value_char(#[trigger] value@[i]),
        header_entries(*old(m)).dom().finite(),
        header_entries(*old(m)).dom().len() < 1024,
        forall|k: Seq<char>| #[trigger]
            header_entries(*old(m)).contains_key(k) ==> header_entries(*old(m))[k].len() == 1,
    ensures
        header_entries(*final(m)) == header_entries(*old(m)).insert(name@, seq![value@]),
{
    m.insert(
        reqwest::header::HeaderName::from_static(name),
        HeaderValue::from_static(value),
    );
}

/// The headers every request carries: `host` pinned to the service's host
/// and a browser-like `user-agent`.
pub open spec fn default_headers() -> Map<Seq<char>, Seq<Seq<char>>> {
    map![
        "host"@ => seq![SERVICE_HOST@],
        "user-agent"@ => seq![BROWSER_USER_AGENT@],
    ]
}

/// Returns the default client headers for the service.
pub fn default_client_headers() -> (r: HeaderMap)
    ensures
        header_entries(r) == default_headers(),
{
    let mut m = empty_header_map();
    proof {
        reveal_strlit("host");
        reveal_strlit("public.enroll.wisc.edu");
    }
    insert_header(&mut m, "host", SERVICE_HOST);
    proof {
        reveal_strlit("user-agent");
        reveal_strlit(
            "Mozilla/5.0 (X11; Ubuntu; Linux x86_64; rv:109.0) Gecko/20100101 Firefox/111.0",
        );
        assert("host"@ != "user-agent"@) by {
            assert("host"@.len() != "user-agent"@.len());
        }
    }
    insert_header(&mut m, "user-agent", BROWSER_USER_AGENT);
    assert(header_entries(m) =~= default_headers());
    m
}

} // verus!
