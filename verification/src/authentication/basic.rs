//! The `Basic` authorization scheme: a user name and a password in one
//! header, as Base64 of `user:password`.

use vstd::prelude::*;
use vstd::utf8::{decode_utf8, encode_utf8, valid_utf8};
use crate::authentication::Credentials;
use crate::encoding::{base64_decode, base64_decoded};
use crate::text::{chars_of, string_from_utf8};

verus! {

/// What the request holds for the `Authorization` header.
pub enum AuthorizationHeader {
    /// No such header.
    Missing,
    /// A header whose value is no text.
    NotText,
    /// The header's value.
    Text(String),
}

/// Why no credentials could be read from the `Authorization` header.
#[derive(Clone, Copy, Debug, PartialEq, Eq, Structural)]
pub enum BasicAuthError {
    MissingHeader,
    NotText,
    NotBasic,
    NotBase64,
    NotUtf8,
    NoPassword,
}

/// The prefix of a `Basic` authorization: the scheme and one space.
pub open spec fn basic_prefix() -> Seq<char> {
    seq!['B', 'a', 's', 'i', 'c', ' ']
}

/// Whether the first colon of `text` stands at `at`.
pub open spec fn first_colon_at(text: Seq<char>, at: int) -> bool {
    &&& 0 <= at < text.len()
    &&& text[at] == ':'
    &&& forall|j: int| 0 <= j < at ==> #[trigger] text[j] != ':'
}

/// The user name and the password in `text`: what stands before its first
/// colon and what stands after it, or an error where it holds no colon.
pub open spec fn split_credentials(text: Seq<char>) -> Result<(Seq<char>, Seq<char>), BasicAuthError> {
    if exists|at: int| first_colon_at(text, at) {
        let at = choose|at: int| first_colon_at(text, at);
        Ok((text.take(at), text.skip(at + 1)))
    } else {
        Err(BasicAuthError::NoPassword)
    }
}

/// The credentials that the decoded segment of the header holds.
pub open spec fn decoded_credentials(decoded: Option<Seq<u8>>) -> Result<
    (Seq<char>, Seq<char>),
    BasicAuthError,
> {
    match decoded {
        None => Err(BasicAuthError::NotBase64),
        Some(bytes) => if valid_utf8(bytes) {
            split_credentials(decode_utf8(bytes))
        } else {
            Err(BasicAuthError::NotUtf8)
        },
    }
}

/// The credentials that an `Authorization` header holds.
pub open spec fn basic_credentials(header: AuthorizationHeader) -> Result<
    (Seq<char>, Seq<char>),
    BasicAuthError,
> {
    match header {
        AuthorizationHeader::Missing => Err(BasicAuthError::MissingHeader),
        AuthorizationHeader::NotText => Err(BasicAuthError::NotText),
        AuthorizationHeader::Text(value) => if basic_prefix().is_prefix_of(value@) {
            decoded_credentials(base64_decoded(encode_utf8(value@.skip(6))))
        } else {
            Err(BasicAuthError::NotBasic)
        },
    }
}

/// Whether `outcome` holds the credentials, or the error, of `expected`.
pub open spec fn reads_as(
    outcome: Result<Credentials, BasicAuthError>,
    expected: Result<(Seq<char>, Seq<char>), BasicAuthError>,
) -> bool {
    match expected {
        Ok((username, password)) => outcome is Ok && outcome->Ok_0.username@ == username
            && outcome->Ok_0.password@ == password,
        Err(e) => outcome == Err::<Credentials, BasicAuthError>(e),
    }
}

/// Splits `user:password` at its first colon.
pub fn credentials_from_text(text: &str) -> (outcome: Result<Credentials, BasicAuthError>)
    ensures
        reads_as(outcome, split_credentials(text@)),
{
    let chars = chars_of(text);
    let n = chars.len();
    let mut at: usize = 0;
    while at < n && chars[at] != ':'
        invariant
            n == chars@.len(),
            at <= n,
            forall|j: int| 0 <= j < at ==> #[trigger] chars@[j] != ':',
        decreases n - at,
    {
        at += 1;
    }
    if at == n {
        assert forall|k: int| !first_colon_at(text@, k) by {}
        return Err(BasicAuthError::NoPassword);
    }
    assert(first_colon_at(text@, at as int));
    proof {
        let chosen = choose|k: int| first_colon_at(text@, k);
        assert(chosen == at) by {
            if chosen < at {
                assert(text@[chosen] != ':');
            } else if chosen > at {
                assert(text@[at as int] != ':');
            }
        }
    }
    let username = text.substring_char(0, at);
    let password = text.substring_char(at + 1, n);
    assert(text@.subrange(0, at as int) =~= text@.take(at as int));
    assert(text@.subrange(at + 1, n as int) =~= text@.skip(at + 1));
    Ok(Credentials { username: username.to_owned(), password: password.to_owned() })
}

/// Reads the credentials out of what Base64 decoding of the header's
/// segment gave.
pub fn credentials_from_decoded(decoded: Option<Vec<u8>>) -> (outcome: Result<
    Credentials,
    BasicAuthError,
>)
    ensures
        reads_as(
            outcome,
            decoded_credentials(
                match decoded {
                    Some(bytes) => Some(bytes@),
                    None => None,
                },
            ),
        ),
{
    match decoded {
        None => Err(BasicAuthError::NotBase64),
        Some(bytes) => match string_from_utf8(bytes) {
            None => Err(BasicAuthError::NotUtf8),
            Some(text) => {
                proof {
                    vstd::utf8::encode_utf8_decode_utf8(text@);
                }
                credentials_from_text(text.as_str())
            },
        },
    }
}

/// Reads the credentials of the `Basic` scheme: the header must be there,
/// be text and start with `Basic `; what follows must be Base64 for UTF-8
/// text; the user name ends at its first colon and the password is the
/// rest.
pub fn basic_authentication(header: AuthorizationHeader) -> (outcome: Result<
    Credentials,
    BasicAuthError,
>)
    ensures
        reads_as(outcome, basic_credentials(header)),
{
    match header {
        AuthorizationHeader::Missing => Err(BasicAuthError::MissingHeader),
        AuthorizationHeader::NotText => Err(BasicAuthError::NotText),
        AuthorizationHeader::Text(value) => {
            let chars = chars_of(value.as_str());
            let n = chars.len();
            if n < 6 || chars[0] != 'B' || chars[1] != 'a' || chars[2] != 's' || chars[3] != 'i'
                || chars[4] != 'c' || chars[5] != ' ' {
                assert(!basic_prefix().is_prefix_of(value@)) by {
                    if basic_prefix().is_prefix_of(value@) {
                        assert(forall|i: int| 0 <= i < 6 ==> value@[i] == basic_prefix()[i]);
                    }
                }
                return Err(BasicAuthError::NotBasic);
            }
            assert(basic_prefix().is_prefix_of(value@)) by {
                assert(value@.subrange(0, 6) =~= basic_prefix());
            }
            let segment = value.as_str().substring_char(6, n);
            assert(value@.subrange(6, n as int) =~= value@.skip(6));
            credentials_from_decoded(base64_decode(segment.as_bytes()))
        },
    }
}

/// The text of each error of reading the `Authorization` header.
pub open spec fn basic_auth_error_text(e: BasicAuthError) -> Seq<char> {
    match e {
        BasicAuthError::MissingHeader => "The 'Authorization' header was missing"@,
        BasicAuthError::NotText => "The 'Authorization' header was not a valid UTF8 string."@,
        BasicAuthError::NotBasic => "The authorization schema was not 'Basic'."@,
        BasicAuthError::NotBase64 => "Failed to base64-decode 'Basic' credentials."@,
        BasicAuthError::NotUtf8 => "The decoded credential string is not valid UTF8."@,
        BasicAuthError::NoPassword => "A password must be provided in 'Basic' auth."@,
    }
}

impl BasicAuthError {
    /// The text of the error, for the log.
    pub fn message(&self) -> (text: &'static str)
        ensures
            text@ == basic_auth_error_text(*self),
    {
        match self {
            BasicAuthError::MissingHeader => "The 'Authorization' header was missing",
            BasicAuthError::NotText => "The 'Authorization' header was not a valid UTF8 string.",
            BasicAuthError::NotBasic => "The authorization schema was not 'Basic'.",
            BasicAuthError::NotBase64 => "Failed to base64-decode 'Basic' credentials.",
            BasicAuthError::NotUtf8 => "The decoded credential string is not valid UTF8.",
            BasicAuthError::NoPassword => "A password must be provided in 'Basic' auth.",
        }
    }
}

} // verus!
