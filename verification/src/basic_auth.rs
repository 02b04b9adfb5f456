//! The check of the `Authorization` header that guards the metrics dashboard.

use crate::config::{BasicAuthView, QrushBasicAuthConfig};
use crate::text::{has_prefix, split_once, str_eq, strip_prefix};
use base64::Engine;
use vstd::prelude::*;
use vstd::utf8::{decode_utf8, valid_utf8};

verus! {

/// The bytes that the standard Base64 alphabet (with padding) decodes from `text`, as
/// `base64::engine::general_purpose::STANDARD` decodes them; `None` where it refuses
/// `text`.
pub uninterp spec fn base64_decoded(text: Seq<char>) -> Option<Seq<u8>>;

/// Calls `base64::engine::general_purpose::STANDARD.decode`. Trusted: the result is
/// `base64_decoded(text)`; nothing more is claimed of it.
#[verifier::external_body]
fn decode_base64(text: &str) -> (r: Option<Vec<u8>>)
    ensures
        match r {
            Some(bytes) => base64_decoded(text@) == Some(bytes@),
            None => base64_decoded(text@) is None,
        },
{
    match base64::engine::general_purpose::STANDARD.decode(text) {
        Ok(bytes) => Some(bytes),
        Err(_) => None,
    }
}

/// Calls `std::str::from_utf8`. Trusted: as its documentation says, it accepts exactly the
/// well-formed UTF-8 byte sequences, and the text is what they encode.
#[verifier::external_body]
fn utf8_text(bytes: &[u8]) -> (r: Option<&str>)
    ensures
        r is Some <==> valid_utf8(bytes@),
        r matches Some(s) ==> s@ == decode_utf8(bytes@),
{
    std::str::from_utf8(bytes).ok()
}

/// The decoded credentials that match `auth`: the user name, a colon and the password,
/// where the user name itself holds no colon (the credentials are split at their first
/// colon).
pub open spec fn credentials_match(auth: BasicAuthView, credentials: Seq<char>) -> bool {
    &&& !auth.username.contains(':')
    &&& credentials == auth.username + seq![':'] + auth.password
}

/// An `Authorization` header value that grants access under `auth`: `Basic `, then Base64
/// of UTF-8 text that matches the credentials.
pub open spec fn header_grants(auth: BasicAuthView, header: Seq<char>) -> bool {
    &&& has_prefix(header, "Basic "@)
    &&& match base64_decoded(header.skip(6)) {
        Some(bytes) => valid_utf8(bytes) && credentials_match(auth, decode_utf8(bytes)),
        None => false,
    }
}

/// The request is let through: always where no credentials are configured, and otherwise
/// only with an `Authorization` header that grants access.
pub open spec fn request_allowed(auth: Option<BasicAuthView>, header: Option<Seq<char>>) -> bool {
    match auth {
        None => true,
        Some(a) => match header {
            Some(h) => header_grants(a, h),
            None => false,
        },
    }
}

/// Splitting at the first colon is unique: two texts each made of a colon-free part, a
/// colon and a rest are equal only if their parts and rests are.
proof fn lemma_first_colon_split(a: Seq<char>, b: Seq<char>, u: Seq<char>, p: Seq<char>)
    requires
        !a.contains(':'),
        !u.contains(':'),
        a + seq![':'] + b == u + seq![':'] + p,
    ensures
        a == u,
        b == p,
{
    let x = a + seq![':'] + b;
    let y = u + seq![':'] + p;
    if a.len() < u.len() {
        assert(x[a.len() as int] == ':');
        assert(y[a.len() as int] == u[a.len() as int]);
        assert(u.contains(u[a.len() as int]));
    } else if u.len() < a.len() {
        assert(y[u.len() as int] == ':');
        assert(x[u.len() as int] == a[u.len() as int]);
        assert(a.contains(a[u.len() as int]));
    } else {
        assert(a =~= x.subrange(0, a.len() as int));
        assert(u =~= y.subrange(0, u.len() as int));
        assert(b =~= x.subrange(a.len() as int + 1, x.len() as int));
        assert(p =~= y.subrange(u.len() as int + 1, y.len() as int));
    }
}

/// Whether a dashboard request may pass: `auth` holds the configured credentials, if any,
/// and `authorization` the request's `Authorization` header as text, if it has one that
/// is text.
pub fn check_basic_auth(auth: Option<&QrushBasicAuthConfig>, authorization: Option<&str>) -> (r:
    bool)
    ensures
        r == request_allowed(
            match auth {
                Some(a) => Some(a@),
                None => None,
            },
            match authorization {
                Some(h) => Some(h@),
                None => None,
            },
        ),
{
    let config = match auth {
        Some(c) => c,
        None => return true,
    };
    let header = match authorization {
        Some(h) => h,
        None => return false,
    };
    proof { reveal_strlit("Basic "); }
    let encoded = match strip_prefix(header, "Basic ") {
        Some(e) => e,
        None => return false,
    };
    let decoded = match decode_base64(encoded) {
        Some(d) => d,
        None => return false,
    };
    let credentials = match utf8_text(decoded.as_slice()) {
        Some(c) => c,
        None => return false,
    };
    match split_once(credentials, ':') {
        Some((user, pass)) => {
            let ok = str_eq(user.as_str(), config.username.as_str()) && str_eq(
                pass.as_str(),
                config.password.as_str(),
            );
            proof {
                if credentials_match(config@, credentials@) {
                    lemma_first_colon_split(user@, pass@, config.username@, config.password@);
                }
            }
            ok
        },
        None => {
            proof {
                if credentials_match(config@, credentials@) {
                    let i = config.username@.len() as int;
                    assert(credentials@[i] == ':');
                }
            }
            false
        },
    }
}

} // verus!
