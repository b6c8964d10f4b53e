use vstd::prelude::*;
use crate::error::{AgentError, ErrorKind};

verus! {

/// Hub login credentials.
#[derive(Clone, Debug, PartialEq, Eq)]
pub struct Credentials {
    pub username: String,
    pub password: String,
}

/// The two fields of a secret-store entry, each base64 encoded, where present.
#[derive(Clone, Debug, PartialEq, Eq)]
pub struct SecretFields {
    pub username: Option<String>,
    pub password: Option<String>,
}

/// The bytes that standard, padded base64 text decodes to, or `None` where
/// the text is not valid base64.
pub uninterp spec fn base64_decoded(s: Seq<char>) -> Option<Seq<u8>>;

/// The text that bytes spell as UTF-8, or `None` where they are not valid
/// UTF-8.
pub uninterp spec fn utf8_text(b: Seq<u8>) -> Option<Seq<char>>;

/// Relies on `base64::decode` (standard alphabet with padding): its result
/// depends on the input text alone.
#[verifier::external_body]
#[allow(deprecated)]
fn decode_base64(s: &str) -> (r: Option<Vec<u8>>)
    ensures
        match r {
            Some(b) => base64_decoded(s@) == Some(b@),
            None => base64_decoded(s@) is None,
        },
{
    base64::decode(s).ok()
}

/// Relies on `String::from_utf8`: the bytes as text when they are valid UTF-8.
#[verifier::external_body]
fn text_from_utf8(b: Vec<u8>) -> (r: Option<String>)
    ensures
        match r {
            Some(t) => utf8_text(b@) == Some(t@),
            None => utf8_text(b@) is None,
        },
{
    String::from_utf8(b).ok()
}

/// The text a secret field holds, when it decodes to valid UTF-8.
pub open spec fn field_text(encoded: Seq<char>) -> Option<Seq<char>> {
    match base64_decoded(encoded) {
        Some(bytes) => utf8_text(bytes),
        None => None,
    }
}

/// Credentials given explicitly win when both parts are present.
pub fn explicit_credentials(username: Option<String>, password: Option<String>) -> (r: Option<
    Credentials,
>)
    ensures
        r is Some <==> (username is Some && password is Some),
        r is Some ==> r->Some_0.username == username->Some_0 && r->Some_0.password
            == password->Some_0,
{
    match (username, password) {
        (Some(u), Some(p)) => Some(Credentials { username: u, password: p }),
        _ => None,
    }
}

/// Decodes one base64 field of a secret-store entry.
pub fn decode_secret_field(encoded: &str) -> (r: Result<String, AgentError>)
    ensures
        match r {
            Ok(t) => field_text(encoded@) == Some(t@),
            Err(e) => field_text(encoded@) is None && e.kind == ErrorKind::CredentialResolutionFailure,
        },
{
    match decode_base64(encoded) {
        Some(bytes) => match text_from_utf8(bytes) {
            Some(t) => Ok(t),
            None => Err(AgentError::new(ErrorKind::CredentialResolutionFailure, String::from_str("secret field is not valid UTF-8"))),
        },
        None => Err(AgentError::new(ErrorKind::CredentialResolutionFailure, String::from_str("secret field is not valid base64"))),
    }
}

/// Credentials from the secret store's answer; a failed lookup, a missing
/// field or one that does not decode is a credential failure.
pub fn credentials_from_store(lookup: Result<SecretFields, String>) -> (r: Result<
    Credentials,
    AgentError,
>)
    ensures
        match lookup {
            Err(msg) => r is Err && r->Err_0.kind == ErrorKind::CredentialResolutionFailure
                && r->Err_0.detail@ == msg@,
            Ok(fields) => match (fields.username, fields.password) {
                (Some(u), Some(p)) => match (field_text(u@), field_text(p@)) {
                    (Some(tu), Some(tp)) => r is Ok && r->Ok_0.username@ == tu
                        && r->Ok_0.password@ == tp,
                    _ => r is Err && r->Err_0.kind == ErrorKind::CredentialResolutionFailure,
                },
                _ => r is Err && r->Err_0.kind == ErrorKind::CredentialResolutionFailure,
            },
        },
{
    match lookup {
        Err(msg) => Err(AgentError::new(ErrorKind::CredentialResolutionFailure, msg)),
        Ok(fields) => match (fields.username, fields.password) {
            (Some(u), Some(p)) => {
                let username = decode_secret_field(u.as_str())?;
                let password = decode_secret_field(p.as_str())?;
                Ok(Credentials { username, password })
            },
            (None, _) => Err(AgentError::new(ErrorKind::CredentialResolutionFailure, String::from_str("username not found in secret"))),
            (_, None) => Err(AgentError::new(ErrorKind::CredentialResolutionFailure, String::from_str("password not found in secret"))),
        },
    }
}

} // verus!
