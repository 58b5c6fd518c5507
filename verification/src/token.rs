//! Exchange of the authorization code for a credential: the form that is posted
//! to the token endpoint, and the credential made from the endpoint's answer.
use vstd::prelude::*;
use vstd::string::*;
use crate::auth::AuthorizationCode;
use crate::bounded::{
    form_bytes, form_new, form_push_str, token_as_str, token_bytes, token_new, token_push_str,
    FORM_BYTES, TOKEN_BYTES,
};

verus! {

/// Where the code is exchanged.
pub const TOKEN_ENDPOINT: &'static str = "https://accounts.spotify.com/api/token/";

/// Content type of the posted form.
pub const FORM_CONTENT_TYPE: &'static str = "application/x-www-form-urlencoded";

/// What precedes the code in the form.
pub const FORM_HEAD: &'static str = "code=";

/// What follows the code in the form: the registered redirect address and the grant type.
pub const FORM_TAIL: &'static str =
    "&redirect_uri=http%3A%2F%2F10.0.0.41%3A3000&grant_type=authorization_code";

/// What precedes the token in an `Authorization` header.
pub const BEARER: &'static str = "Bearer ";

/// The bytes of `Bearer `, with its space.
pub open spec fn bearer_prefix() -> Seq<u8> {
    seq![0x42u8, 0x65u8, 0x61u8, 0x72u8, 0x65u8, 0x72u8, 0x20u8]
}

/// The form for `code`.
pub open spec fn form_body(code: Seq<u8>) -> Seq<u8> {
    FORM_HEAD.spec_bytes() + code + FORM_TAIL.spec_bytes()
}

/// The token endpoint's answer, as far as it is read.
pub struct AccessTokenResponse<'a> {
    pub access_token: &'a str,
    pub token_type: &'a str,
    pub scope: &'a str,
    pub expires_in: u64,
    pub refresh_token: &'a str,
}

/// The credential of a session: made once, never changed.
pub struct Credential {
    access_token: heapless::String<300>,
    refresh_token: heapless::String<300>,
}

/// Why an answer of the token endpoint gives no credential.
#[derive(Clone, Copy, Debug, PartialEq, Eq, Structural)]
pub enum ExchangeError {
    /// `Bearer ` and the access token together exceed the capacity.
    AccessTokenTooLong,
    /// The refresh token exceeds the capacity.
    RefreshTokenTooLong,
}

impl Credential {
    /// The bytes of the `Authorization` header value.
    pub closed spec fn access_token_bytes(&self) -> Seq<u8> {
        token_bytes(self.access_token)
    }

    /// The bytes of the refresh token.
    pub closed spec fn refresh_token_bytes(&self) -> Seq<u8> {
        token_bytes(self.refresh_token)
    }

    /// The `Authorization` header value, `Bearer ` included.
    pub fn access_token(&self) -> (r: &str)
        ensures
            r.spec_bytes() == self.access_token_bytes(),
            r.spec_bytes().len() <= TOKEN_BYTES,
    {
        token_as_str(&self.access_token)
    }

    /// The refresh token.
    pub fn refresh_token(&self) -> (r: &str)
        ensures
            r.spec_bytes() == self.refresh_token_bytes(),
            r.spec_bytes().len() <= TOKEN_BYTES,
    {
        token_as_str(&self.refresh_token)
    }
}

/// The bytes of the literal `Bearer `.
pub proof fn lemma_bearer_bytes()
    ensures
        BEARER.spec_bytes() == bearer_prefix(),
{
    reveal_strlit("Bearer ");
    broadcast use is_ascii_spec_bytes;
    assert(is_ascii(BEARER));
    assert(BEARER.spec_bytes() =~= bearer_prefix());
}

/// The form is 78 bytes longer than the code, so that of the longest code
/// takes 334 bytes.
pub proof fn lemma_form_len(code: Seq<u8>)
    ensures
        form_body(code).len() == code.len() + 78,
{
    reveal_strlit("code=");
    reveal_strlit("&redirect_uri=http%3A%2F%2F10.0.0.41%3A3000&grant_type=authorization_code");
    broadcast use is_ascii_spec_bytes;
    assert(is_ascii(FORM_HEAD));
    assert(is_ascii(FORM_TAIL));
}

/// The body of the one request to the token endpoint. It always fits its
/// 512 bytes.
pub fn token_request_body(code: &AuthorizationCode) -> (body: heapless::String<512>)
    ensures
        form_bytes(body) == form_body(code@),
        form_bytes(body).len() == code@.len() + 78,
        form_bytes(body).len() <= FORM_BYTES,
{
    proof {
        lemma_form_len(code@);
        lemma_form_len(Seq::empty());
    }
    let text = code.as_str();
    let mut body = form_new();
    let head = form_push_str(&mut body, FORM_HEAD);
    assert(head is Ok);
    let middle = form_push_str(&mut body, text);
    assert(middle is Ok);
    let tail = form_push_str(&mut body, FORM_TAIL);
    assert(tail is Ok);
    assert(form_bytes(body) =~= form_body(code@));
    body
}

/// Makes the credential from the token endpoint's answer: the access token
/// behind `Bearer `, the refresh token as it is, each in at most 300 bytes.
pub fn get_access_token(response: &AccessTokenResponse) -> (r: Result<Credential, ExchangeError>)
    ensures
        r is Ok <==> 7 + response.access_token.spec_bytes().len() <= TOKEN_BYTES
            && response.refresh_token.spec_bytes().len() <= TOKEN_BYTES,
        r matches Ok(c) ==> c.access_token_bytes() == bearer_prefix()
            + response.access_token.spec_bytes() && c.refresh_token_bytes()
            == response.refresh_token.spec_bytes(),
        r == Err::<Credential, ExchangeError>(ExchangeError::AccessTokenTooLong) <==> 7
            + response.access_token.spec_bytes().len() > TOKEN_BYTES,
{
    proof {
        lemma_bearer_bytes();
    }
    let mut access_token = token_new();
    let mut refresh_token = token_new();
    match token_push_str(&mut access_token, BEARER) {
        Ok(()) => {},
        Err(_) => {
            return Err(ExchangeError::AccessTokenTooLong);
        },
    }
    match token_push_str(&mut access_token, response.access_token) {
        Ok(()) => {},
        Err(_) => {
            return Err(ExchangeError::AccessTokenTooLong);
        },
    }
    match token_push_str(&mut refresh_token, response.refresh_token) {
        Ok(()) => {},
        Err(_) => {
            return Err(ExchangeError::RefreshTokenTooLong);
        },
    }
    assert(token_bytes(refresh_token) =~= response.refresh_token.spec_bytes());
    Ok(Credential { access_token, refresh_token })
}

} // verus!
