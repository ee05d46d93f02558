use vstd::prelude::*;

use crate::services::auth::Claims;
use crate::text::push_char;

verus! {

/// The user an authenticated request acts for.
#[derive(Debug, Clone, Copy)]
pub struct UserContext {
    pub user_id: uuid::Uuid,
}

/// Why a request is not authenticated: status 401 and a message.
#[derive(Debug)]
pub struct Rejection {
    pub status: u16,
    pub message: String,
}

/// The token of an `Authorization` header value: the text after the
/// `"Bearer "` prefix, if the header is present and has that prefix.
pub open spec fn bearer_token_spec(header: Option<Seq<char>>) -> Option<Seq<char>> {
    match header {
        Some(h) => if h.len() >= 7 && h.take(7) == "Bearer "@ {
            Some(h.skip(7))
        } else {
            None
        },
        None => None,
    }
}

/// The token of an `Authorization` header value (already read as text), or
/// the rejection "Missing or invalid token".
#[verifier::loop_isolation(false)]
pub fn bearer_token(header: Option<&str>) -> (r: Result<String, Rejection>)
    ensures
        match bearer_token_spec(match header { Some(h) => Some(h@), None => None }) {
            Some(t) => r matches Ok(token) && token@ == t,
            None => r matches Err(e) && e.status == 401 && e.message@ == "Missing or invalid token"@,
        },
{
    proof {
        reveal_strlit("Bearer ");
    }
    let missing = Rejection { status: 401, message: String::from_str("Missing or invalid token") };
    match header {
        None => Err(missing),
        Some(h) => {
            let n: usize = h.unicode_len();
            if n < 7 {
                return Err(missing);
            }
            let prefix = h.substring_char(0, 7);
            let expected = "Bearer ";
            let mut i: usize = 0;
            while i < 7
                invariant
                    i <= 7,
                    prefix@ == h@.take(7),
                    prefix@.len() == 7,
                    expected@ == "Bearer "@,
                    expected@.len() == 7,
                    forall|j: int| 0 <= j < i ==> prefix@[j] == expected@[j],
                    missing.status == 401,
                    missing.message@ == "Missing or invalid token"@,
                    h@.len() >= 7,
                decreases 7 - i,
            {
                if prefix.get_char(i) != expected.get_char(i) {
                    assert(h@.take(7) != "Bearer "@) by {
                        assert(h@.take(7)[i as int] != "Bearer "@[i as int]);
                    }
                    return Err(missing);
                }
                i = i + 1;
            }
            assert(h@.take(7) =~= "Bearer "@);
            Ok(String::from_str(h.substring_char(7, n)))
        },
    }
}

/// Whether a header byte is visible ASCII or a tab: the bytes that
/// `http::HeaderValue::to_str` accepts.
pub open spec fn visible_ascii(b: u8) -> bool {
    (32 <= b && b < 127) || b == 9
}

/// A header value's bytes read as text, one character per byte.
pub open spec fn header_chars(bytes: Seq<u8>) -> Seq<char> {
    bytes.map_values(|b: u8| b as char)
}

/// The text of a header value (`HeaderValue::to_str`): present exactly when
/// every byte is visible ASCII or a tab, each byte then read as a character.
pub fn header_text(bytes: &[u8]) -> (r: Option<String>)
    ensures
        r is Some <==> (forall|i: int| 0 <= i < bytes@.len() ==> visible_ascii(#[trigger] bytes@[i])),
        r matches Some(t) ==> t@ == header_chars(bytes@),
{
    let mut text = String::new();
    let mut i: usize = 0;
    while i < bytes.len()
        invariant
            i <= bytes@.len(),
            forall|j: int| 0 <= j < i ==> visible_ascii(#[trigger] bytes@[j]),
            text@ == header_chars(bytes@.take(i as int)),
        decreases bytes@.len() - i,
    {
        let b: u8 = bytes[i];
        if !((32 <= b && b < 127) || b == 9) {
            return None;
        }
        push_char(&mut text, b as char);
        assert(bytes@.take(i + 1) =~= bytes@.take(i as int).push(b));
        assert(header_chars(bytes@.take(i + 1)) =~= header_chars(bytes@.take(i as int)).push(b as char));
        i = i + 1;
    }
    assert(bytes@.take(i as int) =~= bytes@);
    Some(text)
}

/// The token of an `Authorization` header given as bytes: the header must be
/// present, read as text, and start with `"Bearer "`; otherwise the
/// rejection "Missing or invalid token".
pub fn authorization_token(header: Option<&[u8]>) -> (r: Result<String, Rejection>)
    ensures
        ({
            let text = match header {
                Some(b) => if forall|i: int| 0 <= i < b@.len() ==> visible_ascii(#[trigger] b@[i]) {
                    Some(header_chars(b@))
                } else {
                    None
                },
                None => None,
            };
            match bearer_token_spec(text) {
                Some(t) => r matches Ok(token) && token@ == t,
                None => r matches Err(e) && e.status == 401 && e.message@ == "Missing or invalid token"@,
            }
        }),
{
    let text = match header {
        Some(b) => header_text(b),
        None => None,
    };
    match text {
        Some(t) => bearer_token(Some(t.as_str())),
        None => bearer_token(None),
    }
}

impl UserContext {
    /// The user of a token whose signature and expiry were checked, or the
    /// rejection "Invalid or expired token" when the check failed.
    pub fn from_checked_token(checked: Option<Claims>) -> (r: Result<UserContext, Rejection>)
        ensures
            match checked {
                Some(c) => r matches Ok(ctx) && ctx.user_id == c.user_id,
                None => r matches Err(e) && e.status == 401 && e.message@ == "Invalid or expired token"@,
            },
    {
        match checked {
            Some(c) => Ok(UserContext { user_id: c.user_id }),
            None => Err(Rejection { status: 401, message: String::from_str("Invalid or expired token") }),
        }
    }
}

/// A header `"Bearer " + t` yields the token `t`.
pub proof fn lemma_bearer_round_trip(token: Seq<char>)
    ensures
        bearer_token_spec(Some("Bearer "@ + token)) == Some(token),
{
    reveal_strlit("Bearer ");
    assert(("Bearer "@ + token).take(7) =~= "Bearer "@);
    assert(("Bearer "@ + token).skip(7) =~= token);
}

/// Only a header that starts with `"Bearer "` yields a token, and the token is
/// exactly what follows that prefix.
pub proof fn lemma_bearer_token_needs_scheme(header: Seq<char>)
    ensures
        bearer_token_spec(Some(header)) matches Some(t) ==> header == "Bearer "@ + t,
        !(header.len() >= 7 && header.take(7) == "Bearer "@) ==> bearer_token_spec(Some(header)) is None,
        bearer_token_spec(None) is None,
{
    reveal_strlit("Bearer ");
    if header.len() >= 7 && header.take(7) == "Bearer "@ {
        assert(header =~= "Bearer "@ + header.skip(7));
    }
}

} // verus!
