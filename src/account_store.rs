use vstd::prelude::*;
use jsonwebtoken::errors::{Error as JwtError, ErrorKind as K};
use jsonwebtoken::{DecodingKey, EncodingKey, Header, Validation};
use serde_json::Value;
use std::string::FromUtf8Error;
use crate::error::SessionError;
use self::TokenFailure as F;
use crate::session::{RequestSession, Session};
use crate::text::fresh_uuid;
use crate::time::{now, NANOS_PER_SEC, TimeSpan, Timestamp};

verus! {

#[verifier::external_type_specification]
#[verifier::external_body]
pub struct ExJwtError(JwtError);

#[verifier::external_type_specification]
#[verifier::external_body]
pub struct ExHeader(Header);

#[verifier::external_type_specification]
#[verifier::external_body]
pub struct ExEncodingKey(EncodingKey);

#[verifier::external_type_specification]
#[verifier::external_body]
pub struct ExDecodingKey(DecodingKey);

#[verifier::external_type_specification]
#[verifier::external_body]
pub struct ExValidation(Validation);

#[verifier::external_type_specification]
#[verifier::external_body]
pub struct ExValue(Value);

#[verifier::external_type_specification]
#[verifier::external_body]
pub struct ExFromUtf8Error(FromUtf8Error);

/// The header that carries a raw signed token on service-to-service calls.
pub const ACCOUNT_JWT_HEADER: &'static str = "x-account-jwt";

/// A byte that a header value may hold and still read as text.
pub open spec fn visible_ascii(b: u8) -> bool {
    (32 <= b && b < 127) || b == 9
}

/// True when every byte is ASCII.
pub open spec fn all_ascii(b: Seq<u8>) -> bool {
    forall|i: int| 0 <= i < b.len() ==> b[i] < 128
}

/// The characters that ASCII bytes stand for, one each.
pub open spec fn ascii_chars(b: Seq<u8>) -> Seq<char> {
    b.map_values(|c: u8| c as char)
}

/// Relies on `String::from_utf8`: bytes that are all ASCII are valid UTF-8,
/// each byte one character.
#[verifier::external_body]
fn string_from_utf8(bytes: Vec<u8>) -> (r: Result<String, FromUtf8Error>)
    ensures
        all_ascii(bytes@) ==> r is Ok && r->Ok_0@ == ascii_chars(bytes@),
{
    String::from_utf8(bytes)
}

/// Relies on `jsonwebtoken::encode`: the claims signed with `key` under
/// `header`, in the three-part compact form, or the reason it failed.
#[verifier::external_body]
fn jwt_encode(header: &Header, claims: &Value, key: &EncodingKey) -> Result<String, JwtError> {
    jsonwebtoken::encode(header, claims, key)
}

/// Relies on `jsonwebtoken::decode`: the claims of `token` once its
/// signature and the checks of `validation` pass, or the first check that failed.
#[verifier::external_body]
fn jwt_decode(token: &str, key: &DecodingKey, validation: &Validation) -> Result<Value, JwtError> {
    jsonwebtoken::decode::<Value>(token, key, validation).map(|data| data.claims)
}

/// The kinds of `jsonwebtoken` failure that this library tells apart;
/// every other kind is `Other`.
#[derive(Clone, Copy, Debug, PartialEq, Eq, Structural)]
pub enum TokenFailure {
    InvalidSignature,
    InvalidAlgorithm,
    ExpiredSignature,
    ImmatureSignature,
    InvalidAudience,
    InvalidEcdsaKey,
    InvalidRsaKey,
    RsaFailedSigning,
    InvalidKeyFormat,
    MissingAlgorithm,
    Crypto,
    Other,
}

/// Relies on `jsonwebtoken::errors::Error::kind`: which check failed.
#[verifier::external_body]
fn token_failure(e: &JwtError) -> TokenFailure {
    match e.kind() {
        K::InvalidSignature => F::InvalidSignature,
        K::InvalidAlgorithm => F::InvalidAlgorithm,
        K::ExpiredSignature => F::ExpiredSignature,
        K::ImmatureSignature => F::ImmatureSignature,
        K::InvalidAudience => F::InvalidAudience,
        K::InvalidEcdsaKey => F::InvalidEcdsaKey,
        K::InvalidRsaKey(_) => F::InvalidRsaKey,
        K::RsaFailedSigning => F::RsaFailedSigning,
        K::InvalidKeyFormat => F::InvalidKeyFormat,
        K::MissingAlgorithm => F::MissingAlgorithm,
        K::Crypto(_) => F::Crypto,
        _ => F::Other,
    }
}

/// The error this library reports for a token failure.
pub open spec fn token_error_of(f: TokenFailure) -> SessionError {
    match f {
        TokenFailure::InvalidSignature => SessionError::InvalidSignature,
        TokenFailure::ExpiredSignature => SessionError::Expired,
        TokenFailure::ImmatureSignature => SessionError::NotYetValid,
        TokenFailure::InvalidAudience => SessionError::AudienceMismatch,
        TokenFailure::InvalidAlgorithm | TokenFailure::InvalidEcdsaKey | TokenFailure::InvalidRsaKey | TokenFailure::RsaFailedSigning
        | TokenFailure::InvalidKeyFormat | TokenFailure::MissingAlgorithm | TokenFailure::Crypto => SessionError::InvalidKey,
        _ => SessionError::MalformedClaims,
    }
}

/// True of the errors that signing or verifying a token may give.
pub open spec fn is_token_error(e: SessionError) -> bool {
    exists|f: TokenFailure| e == token_error_of(f)
}

/// Classifies a token failure: a signature that does not match, an expired
/// token, one not yet valid, a wrong audience, key material that does not
/// serve the algorithm, or malformed claims.
pub fn token_error(f: TokenFailure) -> (r: SessionError)
    ensures
        r == token_error_of(f),
{
    match f {
        TokenFailure::InvalidSignature => SessionError::InvalidSignature,
        TokenFailure::ExpiredSignature => SessionError::Expired,
        TokenFailure::ImmatureSignature => SessionError::NotYetValid,
        TokenFailure::InvalidAudience => SessionError::AudienceMismatch,
        TokenFailure::InvalidAlgorithm | TokenFailure::InvalidEcdsaKey | TokenFailure::InvalidRsaKey | TokenFailure::RsaFailedSigning
        | TokenFailure::InvalidKeyFormat | TokenFailure::MissingAlgorithm | TokenFailure::Crypto => SessionError::InvalidKey,
        _ => SessionError::MalformedClaims,
    }
}

/// What a signed token's claims may be: none yet, or decoded.
pub trait AccountSessionClaimsTrait {}

impl AccountSessionClaimsTrait for () {}

impl AccountSessionClaimsTrait for Value {}

impl<AccountId, Fields> AccountSessionClaimsTrait for AccountSessionClaims<AccountId, Fields> {}

/// A signed token and, once verified, its claims.
#[derive(Clone, PartialEq, Eq)]
pub struct AccountSessionToken<Claims: AccountSessionClaimsTrait> {
    pub token: String,
    pub claims: Claims,
}

/// A session whose token has been verified into typed claims.
pub type AccountSession<AccountId, Fields> = Session<AccountSessionToken<AccountSessionClaims<AccountId, Fields>>>;

/// The principal a session belongs to and the caller's own fields.
#[derive(Clone, Debug, PartialEq, Eq)]
pub struct AccountSessionState<AccountId, Fields> {
    pub account_id: AccountId,
    pub fields: Fields,
}

/// The claims of a signed account token. `sub` always equals
/// `state.account_id`: every constructor and re-typing derives it.
#[derive(Clone, Debug, PartialEq, Eq)]
pub struct AccountSessionClaims<AccountId, Fields> {
    /// Audience
    pub aud: Option<String>,
    /// Expiration time, UTC seconds
    pub exp: u64,
    /// Issued at, UTC seconds
    pub iat: Option<u64>,
    /// Issuer
    pub iss: String,
    /// Not before, UTC seconds
    pub nbf: Option<u64>,
    /// Session state
    pub state: AccountSessionState<AccountId, Fields>,
    /// Subject: the account id
    pub sub: AccountId,
}

/// A timestamp's whole seconds as a claim value.
pub open spec fn seconds_claim(t: Timestamp) -> u64 {
    t.secs as u64
}

/// The whole seconds of `now + span` as a claim value.
pub open spec fn seconds_after_claim(now: Timestamp, span: TimeSpan) -> u64 {
    ((now.total_nanos() + span.total_nanos()) / (NANOS_PER_SEC as int)) as u64
}

impl<AccountId: Copy, Fields> AccountSessionClaims<AccountId, Fields> {
    pub open spec fn wf(&self) -> bool {
        self.sub == self.state.account_id
    }

    /// Claims for `state` from issuer `iss`, expiring at `exp`, issued at `now`.
    pub fn new_at(state: AccountSessionState<AccountId, Fields>, iss: String, exp: Timestamp, now: Timestamp) -> (r: Self)
        requires
            exp.wf(),
            now.wf(),
        ensures
            r.wf(),
            r.state == state,
            r.iss == iss,
            r.aud is None,
            r.nbf is None,
            r.exp == seconds_claim(exp),
            r.iat == Some(seconds_claim(now)),
    {
        let sub = state.account_id;
        AccountSessionClaims {
            aud: None,
            exp: exp.timestamp() as u64,
            iat: Some(now.timestamp() as u64),
            iss,
            nbf: None,
            state,
            sub,
        }
    }

    /// Claims for `state` from issuer `iss`, expiring at `exp`, issued now.
    pub fn new(state: AccountSessionState<AccountId, Fields>, iss: String, exp: Timestamp) -> (r: Self)
        requires
            exp.wf(),
        ensures
            r.wf(),
            r.state == state,
            r.iss == iss,
            r.aud is None,
            r.nbf is None,
            r.exp == seconds_claim(exp),
            r.iat is Some,
    {
        Self::new_at(state, iss, exp, now())
    }

    /// Claims for `state` from issuer `iss`, issued at `now` and expiring
    /// `exp_in` after it.
    pub fn new_exp_in_at(state: AccountSessionState<AccountId, Fields>, iss: String, exp_in: TimeSpan, now: Timestamp) -> (r: Self)
        requires
            exp_in.wf(),
            now.wf(),
        ensures
            r.wf(),
            r.state == state,
            r.iss == iss,
            r.aud is None,
            r.nbf is None,
            r.exp == seconds_after_claim(now, exp_in),
            r.iat == Some(seconds_claim(now)),
    {
        let sub = state.account_id;
        AccountSessionClaims {
            aud: None,
            exp: now.timestamp_after(&exp_in) as u64,
            iat: Some(now.timestamp() as u64),
            iss,
            nbf: None,
            state,
            sub,
        }
    }

    /// Claims for `state` from issuer `iss`, issued now and expiring `exp_in`
    /// after that.
    pub fn new_exp_in(state: AccountSessionState<AccountId, Fields>, iss: String, exp_in: TimeSpan) -> (r: Self)
        requires
            exp_in.wf(),
        ensures
            r.wf(),
            r.state == state,
            r.iss == iss,
            r.aud is None,
            r.nbf is None,
            r.iat matches Some(i) && exists|t: Timestamp| t.wf() && i == seconds_claim(t)
                && r.exp == seconds_after_claim(t, exp_in),
    {
        Self::new_exp_in_at(state, iss, exp_in, now())
    }

    /// The same claims with `state` in place of the old one, and the subject
    /// taken from its account id; issuer and times are kept.
    pub fn state<NewAccountId: Copy, NewFields>(
        self,
        state: AccountSessionState<NewAccountId, NewFields>,
    ) -> (r: AccountSessionClaims<NewAccountId, NewFields>)
        ensures
            r.wf(),
            r.state == state,
            r.aud == self.aud,
            r.exp == self.exp,
            r.iat == self.iat,
            r.iss == self.iss,
            r.nbf == self.nbf,
    {
        let sub = state.account_id;
        AccountSessionClaims {
            aud: self.aud,
            exp: self.exp,
            iat: self.iat,
            iss: self.iss,
            nbf: self.nbf,
            state,
            sub,
        }
    }
}

impl<AccountId, Fields> AccountSessionClaims<AccountId, Fields> {
    /// The same claims with audience `aud`.
    pub fn aud(self, aud: String) -> (r: Self)
        ensures
            r.aud == Some(aud),
            r.exp == self.exp,
            r.iat == self.iat,
            r.iss == self.iss,
            r.nbf == self.nbf,
            r.state == self.state,
            r.sub == self.sub,
    {
        let mut c = self;
        c.aud = Some(aud);
        c
    }

    /// The same claims expiring at `exp`.
    pub fn exp(self, exp: Timestamp) -> (r: Self)
        requires
            exp.wf(),
        ensures
            r.exp == seconds_claim(exp),
            r.aud == self.aud,
            r.iat == self.iat,
            r.iss == self.iss,
            r.nbf == self.nbf,
            r.state == self.state,
            r.sub == self.sub,
    {
        let mut c = self;
        c.exp = exp.timestamp() as u64;
        c
    }

    /// The same claims expiring `exp_in` after `now`.
    pub fn exp_in_at(self, exp_in: TimeSpan, now: Timestamp) -> (r: Self)
        requires
            exp_in.wf(),
            now.wf(),
        ensures
            r.exp == seconds_after_claim(now, exp_in),
            r.aud == self.aud,
            r.iat == self.iat,
            r.iss == self.iss,
            r.nbf == self.nbf,
            r.state == self.state,
            r.sub == self.sub,
    {
        let mut c = self;
        c.exp = now.timestamp_after(&exp_in) as u64;
        c
    }

    /// The same claims issued at `iat`.
    pub fn iat(self, iat: Timestamp) -> (r: Self)
        requires
            iat.wf(),
        ensures
            r.iat == Some(seconds_claim(iat)),
            r.aud == self.aud,
            r.exp == self.exp,
            r.iss == self.iss,
            r.nbf == self.nbf,
            r.state == self.state,
            r.sub == self.sub,
    {
        let mut c = self;
        c.iat = Some(iat.timestamp() as u64);
        c
    }

    /// The same claims from issuer `iss`.
    pub fn iss(self, iss: String) -> (r: Self)
        ensures
            r.iss == iss,
            r.aud == self.aud,
            r.exp == self.exp,
            r.iat == self.iat,
            r.nbf == self.nbf,
            r.state == self.state,
            r.sub == self.sub,
    {
        let mut c = self;
        c.iss = iss;
        c
    }

    /// The same claims valid from `nbf` on.
    pub fn nbf(self, nbf: Timestamp) -> (r: Self)
        requires
            nbf.wf(),
        ensures
            r.nbf == Some(seconds_claim(nbf)),
            r.aud == self.aud,
            r.exp == self.exp,
            r.iat == self.iat,
            r.iss == self.iss,
            r.state == self.state,
            r.sub == self.sub,
    {
        let mut c = self;
        c.nbf = Some(nbf.timestamp() as u64);
        c
    }

    /// The same claims valid from `nbf_in` after `now` on.
    pub fn nbf_in_at(self, nbf_in: TimeSpan, now: Timestamp) -> (r: Self)
        requires
            nbf_in.wf(),
            now.wf(),
        ensures
            r.nbf == Some(seconds_after_claim(now, nbf_in)),
            r.aud == self.aud,
            r.exp == self.exp,
            r.iat == self.iat,
            r.iss == self.iss,
            r.state == self.state,
            r.sub == self.sub,
    {
        let mut c = self;
        c.nbf = Some(now.timestamp_after(&nbf_in) as u64);
        c
    }

    /// The same claims expiring `exp_in` from now.
    pub fn exp_in(self, exp_in: TimeSpan) -> (r: Self)
        requires
            exp_in.wf(),
        ensures
            exists|t: Timestamp| t.wf() && r.exp == #[trigger] seconds_after_claim(t, exp_in),
            r.aud == self.aud,
            r.iat == self.iat,
            r.iss == self.iss,
            r.nbf == self.nbf,
            r.state == self.state,
            r.sub == self.sub,
    {
        let t = now();
        self.exp_in_at(exp_in, t)
    }

    /// The same claims valid from `nbf_in` from now on.
    pub fn nbf_in(self, nbf_in: TimeSpan) -> (r: Self)
        requires
            nbf_in.wf(),
        ensures
            exists|t: Timestamp| t.wf() && r.nbf == Some(#[trigger] seconds_after_claim(t, nbf_in)),
            r.aud == self.aud,
            r.exp == self.exp,
            r.iat == self.iat,
            r.iss == self.iss,
            r.state == self.state,
            r.sub == self.sub,
    {
        let t = now();
        self.nbf_in_at(nbf_in, t)
    }
}

/// Signs `claims`, given as their JSON value, under `header` with `key`.
/// The token comes back raw: its claims are not attached.
pub fn encode_claims(header: &Header, claims: &Value, key: &EncodingKey) -> (r: Result<AccountSessionToken<()>, SessionError>)
    ensures
        r matches Err(e) ==> is_token_error(e),
{
    match jwt_encode(header, claims, key) {
        Ok(token) => Ok(AccountSessionToken { token, claims: () }),
        Err(e) => {
            let f = token_failure(&e);
            let r = token_error(f);
            assert(r == token_error_of(f));
            Err(r)
        },
    }
}

/// Verifies `token` with `key` and `validation`, signature first, and gives
/// its claims as a JSON value, or the first check that failed.
pub fn decode_claims(token: &str, key: &DecodingKey, validation: &Validation) -> (r: Result<Value, SessionError>)
    ensures
        r matches Err(e) ==> is_token_error(e),
{
    match jwt_decode(token, key, validation) {
        Ok(v) => Ok(v),
        Err(e) => {
            let f = token_failure(&e);
            let r = token_error(f);
            assert(r == token_error_of(f));
            Err(r)
        },
    }
}

impl Session<AccountSessionToken<()>> {
    /// Verifies the raw token that this envelope carries and attaches its
    /// claims; the id, times, expiry and token text are kept.
    pub fn try_decode(self, key: &DecodingKey, validation: &Validation) -> (r: Result<Session<AccountSessionToken<Value>>, SessionError>)
        ensures
            match r {
                Ok(s) => {
                    &&& s.session_id == self.session_id
                    &&& s.created_at == self.created_at
                    &&& s.max_age == self.max_age
                    &&& s.expires == self.expires
                    &&& s.value.token == self.value.token
                },
                Err(e) => is_token_error(e),
            },
    {
        let claims = decode_claims(self.value.token.as_str(), key, validation)?;
        Ok(Session {
            session_id: self.session_id,
            created_at: self.created_at,
            value: AccountSessionToken { token: self.value.token, claims },
            max_age: self.max_age,
            expires: self.expires,
        })
    }
}

impl<AccountId, Fields> Session<AccountSessionToken<AccountSessionClaims<AccountId, Fields>>> {
    /// The account the verified session belongs to.
    pub fn account_id(&self) -> (r: &AccountId)
        ensures
            *r == self.value.claims.state.account_id,
    {
        &self.value.claims.state.account_id
    }

    /// The caller's own fields of the verified session.
    pub fn fields(&self) -> (r: &Fields)
        ensures
            *r == self.value.claims.state.fields,
    {
        &self.value.claims.state.fields
    }
}

/// True when every byte may stand in a header value read as text.
pub open spec fn all_visible_ascii(b: Seq<u8>) -> bool {
    forall|i: int| 0 <= i < b.len() ==> visible_ascii(b[i])
}

/// The bytes of a bearer header, when present.
pub open spec fn bearer_bytes(bearer: Option<&[u8]>) -> Option<Seq<u8>> {
    match bearer {
        Some(b) => Some(b@),
        None => None,
    }
}

/// True when `r` is what a request with bearer header `bearer` and cookie id
/// `cookie_id` resolves to, with `fresh_id` and `now` for a header session.
/// The header wins over the cookie; a header that is not visible ASCII is an
/// error; neither is no session.
pub open spec fn resolves_to(
    bearer: Option<Seq<u8>>,
    cookie_id: Option<u128>,
    fresh_id: u128,
    now: Timestamp,
    r: Result<RequestSession<AccountSessionToken<()>>, SessionError>,
) -> bool {
    match bearer {
        Some(b) => if all_visible_ascii(b) {
            r matches Ok(RequestSession::Session(s)) && s.session_id == fresh_id && s.created_at == now
                && s.value.token@ == ascii_chars(b) && s.max_age is None && s.expires is None
        } else {
            r == Err::<RequestSession<AccountSessionToken<()>>, SessionError>(SessionError::InvalidHeader)
        },
        None => match cookie_id {
            Some(id) => r matches Ok(RequestSession::SessionId(i)) && i == id,
            None => r matches Ok(RequestSession::NoSession),
        },
    }
}

/// Resolves what a request carries: the bearer header's raw token as a
/// session of its own (id `fresh_id`, created `now`), else the cookie's
/// session id, else no session.
pub fn resolve_request_session(
    bearer: Option<&[u8]>,
    cookie_id: Option<u128>,
    fresh_id: u128,
    now: Timestamp,
) -> (r: Result<RequestSession<AccountSessionToken<()>>, SessionError>)
    ensures
        resolves_to(
            bearer_bytes(bearer),
            cookie_id,
            fresh_id,
            now,
            r,
        ),
{
    if let Some(b) = bearer {
        let mut i: usize = 0;
        while i < b.len()
            invariant
                i <= b@.len(),
                forall|j: int| 0 <= j < i ==> visible_ascii(b@[j]),
                bearer == Some(b),
            decreases b@.len() - i,
        {
            let c = b[i];
            if !((32 <= c && c < 127) || c == 9) {
                assert(!visible_ascii(b@[i as int]));
                assert(!all_visible_ascii(b@));
                return Err(SessionError::InvalidHeader);
            }
            i = i + 1;
        }
        assert(all_ascii(b@));
        let text = match string_from_utf8(vstd::slice::slice_to_vec(b)) {
            Ok(t) => t,
            Err(_) => return Err(SessionError::InvalidHeader),
        };
        return Ok(RequestSession::Session(Session {
            session_id: fresh_id,
            created_at: now,
            value: AccountSessionToken { token: text, claims: () },
            max_age: None,
            expires: None,
        }));
    }
    match cookie_id {
        Some(id) => Ok(RequestSession::SessionId(id)),
        None => Ok(RequestSession::NoSession),
    }
}

/// A request whose bearer header is readable resolves through the header,
/// whatever cookie id it also carries, so no store is consulted.
pub proof fn lemma_header_precedence(
    bearer: Seq<u8>,
    cookie_id: Option<u128>,
    fresh_id: u128,
    now: Timestamp,
    r: Result<RequestSession<AccountSessionToken<()>>, SessionError>,
)
    requires
        all_visible_ascii(bearer),
        resolves_to(Some(bearer), cookie_id, fresh_id, now, r),
    ensures
        r matches Ok(RequestSession::Session(s)) && s.value.token@ == ascii_chars(bearer),
        resolves_to(Some(bearer), None, fresh_id, now, r),
{
}

/// Resolves what a request carries, as `resolve_request_session` does, with
/// a fresh random id and the current time for a header session.
pub fn get_unparsed_request_session(
    bearer: Option<&[u8]>,
    cookie_id: Option<u128>,
) -> (r: Result<RequestSession<AccountSessionToken<()>>, SessionError>)
    ensures
        exists|fresh_id: u128, t: Timestamp| t.wf() && #[trigger] resolves_to(
            bearer_bytes(bearer),
            cookie_id,
            fresh_id,
            t,
            r,
        ),
{
    let fresh_id = fresh_uuid();
    let t = now();
    resolve_request_session(bearer, cookie_id, fresh_id, t)
}

} // verus!
