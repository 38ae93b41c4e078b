use vstd::prelude::*;
use vstd::string::StringExecFns;
use vstd::utf8::encode_utf8;

verus! {

/// A byte that an HTTP header value may hold: a tab, or any byte from 32 on
/// except DEL.
pub open spec fn header_byte_ok(b: u8) -> bool {
    (32 <= b && b != 127) || b == 9
}

/// Text whose UTF-8 bytes may all stand in an HTTP header value.
pub open spec fn header_text_ok(s: Seq<char>) -> bool {
    forall|i: int| 0 <= i < encode_utf8(s).len() ==> header_byte_ok(#[trigger] encode_utf8(s)[i])
}

/// The authorization value that carries `token`.
pub open spec fn bearer_text(token: Seq<char>) -> Seq<char> {
    "Bearer "@ + token
}

/// Relies on `reqwest::header::HeaderValue::from_str` (http's): it accepts a
/// string exactly when every byte of it is a tab, or 32 or above but not 127.
#[verifier::external_body]
fn header_value_accepts(s: &str) -> (r: bool)
    ensures
        r == header_text_ok(s@),
{
    reqwest::header::HeaderValue::from_str(s).is_ok()
}

/// The value of the authorization header for `token`, "Bearer " followed by
/// the token; `None` when that text cannot be a header value.
pub fn bearer_header(token: &str) -> (r: Option<String>)
    ensures
        match r {
            Some(h) => h@ == bearer_text(token@) && header_text_ok(h@),
            None => !header_text_ok(bearer_text(token@)),
        },
{
    let mut h = String::from_str("Bearer ");
    h.append(token);
    if header_value_accepts(h.as_str()) {
        Some(h)
    } else {
        None
    }
}

/// Seconds a request may take before it counts as a network failure.
pub const REQUEST_TIMEOUT_SECS: u64 = 30;

/// A header as name, value, and whether the value is secret and must never be
/// logged or shown.
pub open spec fn header_view(h: (String, String, bool)) -> (Seq<char>, Seq<char>, bool) {
    (h.0@, h.1@, h.2)
}

/// The headers that every request carries: the versioned JSON media type and
/// the client's name.
pub open spec fn fixed_headers() -> Seq<(Seq<char>, Seq<char>, bool)> {
    seq![
        ("accept"@, "application/vnd.github.v3+json"@, false),
        ("user-agent"@, "gh-analyzer-rust"@, false),
    ]
}

/// The headers for a client with `token`, or `None` when the token cannot be
/// sent in a header.
pub open spec fn headers_for(token: Option<Seq<char>>) -> Option<Seq<(Seq<char>, Seq<char>, bool)>> {
    match token {
        None => Some(fixed_headers()),
        Some(t) => if header_text_ok(bearer_text(t)) {
            Some(fixed_headers().push(("authorization"@, bearer_text(t), true)))
        } else {
            None
        },
    }
}

/// The default headers of the API client: the fixed ones and, with a token, a
/// secret bearer authorization. `None` when the token cannot be encoded.
pub fn request_headers(token: &Option<String>) -> (r: Option<Vec<(String, String, bool)>>)
    ensures
        match r {
            Some(h) => headers_for(
                match token {
                    Some(t) => Some(t@),
                    None => None,
                },
            ) == Some(h@.map_values(|x: (String, String, bool)| header_view(x))),
            None => headers_for(
                match token {
                    Some(t) => Some(t@),
                    None => None,
                },
            ) is None,
        },
{
    let mut h: Vec<(String, String, bool)> = Vec::new();
    h.push(
        (
            String::from_str("accept"),
            String::from_str("application/vnd.github.v3+json"),
            false,
        ),
    );
    h.push((String::from_str("user-agent"), String::from_str("gh-analyzer-rust"), false));
    proof {
        assert(h@.map_values(|x: (String, String, bool)| header_view(x)) =~= fixed_headers());
    }
    match token {
        None => Some(h),
        Some(t) => match bearer_header(t.as_str()) {
            Some(v) => {
                let ghost before = h@;
                h.push((String::from_str("authorization"), v, true));
                proof {
                    assert(h@.map_values(|x: (String, String, bool)| header_view(x))
                        =~= before.map_values(|x: (String, String, bool)| header_view(x)).push(
                        header_view(h@.last()),
                    ));
                }
                Some(h)
            },
            None => None,
        },
    }
}

} // verus!
