use vstd::prelude::*;
use crate::text::{chars_of, has_prefix, starts_with_chars};

verus! {

/// `constant_time_eq::constant_time_eq` compares two byte strings; its loop
/// ORs together the XOR of every pair of bytes after checking the lengths.
/// Claimed: it returns `true` exactly when the two byte strings are equal.
pub assume_specification[ constant_time_eq::constant_time_eq ](a: &[u8], b: &[u8]) -> (r: bool)
    ensures
        r == (a@ == b@),
;

/// Why a request is refused before it reaches the MCP service.
#[derive(PartialEq, Eq, Structural, Debug, Clone, Copy)]
pub enum AuthRejection {
    /// No usable `Authorization: Bearer ...` header (HTTP 401).
    Unauthorized,
    /// A bearer token that is not the configured one (HTTP 403).
    Forbidden,
}

impl AuthRejection {
    /// The HTTP status code that answers the refused request.
    pub fn status_code(&self) -> (code: u16)
        ensures
            code == match *self {
                AuthRejection::Unauthorized => 401u16,
                AuthRejection::Forbidden => 403u16,
            },
    {
        match self {
            AuthRejection::Unauthorized => 401,
            AuthRejection::Forbidden => 403,
        }
    }
}

/// The authorization scheme prefix, `"Bearer "`.
pub open spec fn bearer_prefix() -> Seq<char> {
    seq!['B', 'e', 'a', 'r', 'e', 'r', ' ']
}

/// The outcome of checking a request's `Authorization` header (`None` when
/// the header is absent or not visible ASCII) against the configured token.
pub open spec fn authorization_outcome(
    token: Option<Seq<char>>,
    header: Option<Seq<char>>,
) -> Result<(), AuthRejection> {
    match token {
        None => Ok(()),
        Some(t) => match header {
            None => Err(AuthRejection::Unauthorized),
            Some(h) => if !has_prefix(h, bearer_prefix()) {
                Err(AuthRejection::Unauthorized)
            } else if h.skip(bearer_prefix().len() as int) == t {
                Ok(())
            } else {
                Err(AuthRejection::Forbidden)
            },
        },
    }
}

/// The view of an optional owned string.
pub open spec fn opt_string_view(s: Option<String>) -> Option<Seq<char>> {
    match s {
        Some(t) => Some(t@),
        None => None,
    }
}

/// The view of an optional string slice.
pub open spec fn opt_str_view(s: Option<&str>) -> Option<Seq<char>> {
    match s {
        Some(t) => Some(t@),
        None => None,
    }
}

/// Decides whether a request may reach the MCP service. Without a configured
/// token every request is let through; with one, the request must carry
/// `Authorization: Bearer <token>`, and the token is compared in constant time.
pub fn authorize(auth_token: &Option<String>, authorization: Option<&str>) -> (r: Result<
    (),
    AuthRejection,
>)
    ensures
        r == authorization_outcome(opt_string_view(*auth_token), opt_str_view(authorization)),
{
    let expected = match auth_token {
        None => {
            return Ok(());
        },
        Some(t) => t,
    };
    let header = match authorization {
        None => {
            return Err(AuthRejection::Unauthorized);
        },
        Some(h) => h,
    };
    let prefix: Vec<char> = vec!['B', 'e', 'a', 'r', 'e', 'r', ' '];
    assert(prefix@ =~= bearer_prefix());
    let header_chars = chars_of(header);
    if !starts_with_chars(&header_chars, &prefix) {
        return Err(AuthRejection::Unauthorized);
    }
    let provided = header.substring_char(prefix.len(), header_chars.len());
    assert(provided@ =~= header@.skip(bearer_prefix().len() as int));
    let same = constant_time_eq::constant_time_eq(provided.as_bytes(), expected.as_str().as_bytes());
    proof {
        vstd::utf8::encode_utf8_decode_utf8(provided@);
        vstd::utf8::encode_utf8_decode_utf8(expected@);
    }
    if !same {
        return Err(AuthRejection::Forbidden);
    }
    Ok(())
}

// ----------------------------------------------------------------------------
// Laws
// ----------------------------------------------------------------------------

/// Without a configured token every request is admitted, whatever it carries.
pub proof fn law_no_token_admits_every_request(header: Option<Seq<char>>)
    ensures
        authorization_outcome(None, header) == Ok::<(), AuthRejection>(()),
{
}

/// With a configured token, a request is admitted exactly when its
/// `Authorization` header is `Bearer ` followed by that token.
pub proof fn law_admitted_iff_bearer_token(token: Seq<char>, header: Option<Seq<char>>)
    ensures
        authorization_outcome(Some(token), header) is Ok <==> header == Some(
            bearer_prefix() + token,
        ),
{
    let p = bearer_prefix();
    if header == Some(p + token) {
        let h = p + token;
        assert(h.subrange(0, p.len() as int) =~= p);
        assert(h.skip(p.len() as int) =~= token);
    }
    if let Some(h) = header {
        if authorization_outcome(Some(token), header) is Ok {
            assert(h.subrange(0, p.len() as int) == p);
            assert(h =~= h.subrange(0, p.len() as int) + h.skip(p.len() as int));
        }
    }
}

/// A request is answered 403 only when it used the bearer scheme with a
/// token other than the configured one; every other refusal is a 401.
pub proof fn law_forbidden_means_wrong_bearer_token(token: Seq<char>, header: Option<Seq<char>>)
    ensures
        authorization_outcome(Some(token), header) == Err::<(), AuthRejection>(
            AuthRejection::Forbidden,
        ) <==> (header is Some && has_prefix(header->0, bearer_prefix()) && header->0.skip(
            bearer_prefix().len() as int,
        ) != token),
{
}

} // verus!
