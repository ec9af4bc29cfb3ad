//! Signed bearer tokens: claim sets, signing, and validation.
//!
//! A token is a compact three-part text (header, claims, signature) signed
//! with a symmetric key; the signature covers header and claims. Validation
//! checks the signature first and the expiry second.

use crate::clock::current_timestamp;
use crate::error::{text_result, ApiError};
use crate::text::same_text;
use jsonwebtoken::{DecodingKey, EncodingKey, Header, Validation};
use vstd::prelude::*;

verus! {

/// The error type of the token crate, carried through unopened.
#[verifier::external_type_specification]
#[verifier::external_body]
pub struct ExTokenError(jsonwebtoken::errors::Error);

/// What a token may be used for.
#[derive(Clone, Copy, Debug, PartialEq, Eq, Structural)]
pub enum TokenType {
    /// Short-lived; authorizes requests.
    Access,
    /// Longer-lived; only buys a new pair of tokens.
    Refresh,
}

impl TokenType {
    /// The text that stands for the type inside a token.
    pub open spec fn label(self) -> Seq<char> {
        match self {
            TokenType::Access => "access"@,
            TokenType::Refresh => "refresh"@,
        }
    }

    /// The type that a text stands for, if any.
    pub open spec fn of_label(label: Seq<char>) -> Option<TokenType> {
        if label == "access"@ {
            Some(TokenType::Access)
        } else if label == "refresh"@ {
            Some(TokenType::Refresh)
        } else {
            None
        }
    }

    /// Each type is read back from its own label.
    pub proof fn lemma_label_round_trip(self)
        ensures
            TokenType::of_label(self.label()) == Some(self),
    {
        reveal_strlit("access");
        reveal_strlit("refresh");
        assert("access"@.len() != "refresh"@.len());
    }

    /// The text that stands for the type inside a token.
    pub fn as_str(self) -> (r: &'static str)
        ensures
            r@ == self.label(),
    {
        match self {
            TokenType::Access => "access",
            TokenType::Refresh => "refresh",
        }
    }

    /// Reads a type from its label; any other text is none.
    pub fn parse(label: &str) -> (r: Option<TokenType>)
        ensures
            r == TokenType::of_label(label@),
    {
        if same_text(label, "access") {
            Some(TokenType::Access)
        } else if same_text(label, "refresh") {
            Some(TokenType::Refresh)
        } else {
            None
        }
    }
}

/// The claims that a token carries.
#[derive(Clone, Debug)]
pub struct Claims {
    /// The username the token was issued to.
    pub sub: String,
    /// Expiry, in seconds since the Unix epoch.
    pub exp: u64,
    /// What the token may be used for.
    pub token_type: TokenType,
}

/// The claims as mathematical values.
pub struct ClaimsView {
    pub sub: Seq<char>,
    pub exp: u64,
    pub token_type: TokenType,
}

impl View for Claims {
    type V = ClaimsView;

    open spec fn view(&self) -> ClaimsView {
        ClaimsView { sub: self.sub@, exp: self.exp, token_type: self.token_type }
    }
}

/// The three claim fields as found in a token whose signature held: each is
/// absent where the payload lacks it or holds a value of another shape.
#[derive(Clone, Debug)]
pub struct Payload {
    pub sub: Option<String>,
    pub exp: Option<u64>,
    pub token_type: Option<String>,
}

/// The payload as mathematical values.
pub struct PayloadView {
    pub sub: Option<Seq<char>>,
    pub exp: Option<u64>,
    pub token_type: Option<Seq<char>>,
}

impl View for Payload {
    type V = PayloadView;

    open spec fn view(&self) -> PayloadView {
        PayloadView {
            sub: match self.sub {
                Some(s) => Some(s@),
                None => None,
            },
            exp: self.exp,
            token_type: match self.token_type {
                Some(s) => Some(s@),
                None => None,
            },
        }
    }
}

/// The token that signing the claims `sub`, `exp`, `token_type` under `secret`
/// with HMAC-SHA256 produces.
pub uninterp spec fn jwt_encoded(
    secret: Seq<char>,
    sub: Seq<char>,
    exp: u64,
    token_type: Seq<char>,
) -> Seq<char>;

/// The payload of `token` where it is well-formed and signed under `secret`
/// with HMAC-SHA256, and its claims are acceptable without regard to time;
/// `None` otherwise.
pub uninterp spec fn jwt_decoded(secret: Seq<char>, token: Seq<char>) -> Option<PayloadView>;

/// Builds the claims object `sub`, `exp`, `token_type` and signs it by
/// `jsonwebtoken::encode` under the default header. The contract names the
/// result, and adds two things. The call succeeds: with a secret as the key
/// and the default header the key suits the algorithm, an object of texts
/// and an unsigned integer serializes, and signing with HMAC returns.
/// Decoding what was encoded under the same secret gives the same three
/// claims back.
#[verifier::external_body]
fn jwt_encode(secret: &str, sub: &str, exp: u64, token_type: &str) -> (r: Result<
    String,
    jsonwebtoken::errors::Error,
>)
    ensures
        r is Ok,
        r matches Ok(t) ==> t@ == jwt_encoded(secret@, sub@, exp, token_type@),
        r matches Ok(t) ==> jwt_decoded(secret@, t@) == Some(
            PayloadView { sub: Some(sub@), exp: Some(exp), token_type: Some(token_type@) },
        ),
{
    let mut claims = serde_json::Map::new();
    claims.insert("sub".to_owned(), serde_json::Value::from(sub));
    claims.insert("exp".to_owned(), serde_json::Value::from(exp));
    claims.insert("token_type".to_owned(), serde_json::Value::from(token_type));
    jsonwebtoken::encode(&Header::default(), &claims, &EncodingKey::from_secret(secret.as_bytes()))
}

/// Checks `token` by `jsonwebtoken::decode` under the default validation with
/// the expiry check switched off, and picks the three claim fields out of the
/// decoded object: a text for `sub` and `token_type`, an unsigned integer for
/// `exp`.
#[verifier::external_body]
fn jwt_decode(secret: &str, token: &str) -> (r: Result<Payload, jsonwebtoken::errors::Error>)
    ensures
        r is Ok <==> jwt_decoded(secret@, token@) is Some,
        r matches Ok(p) ==> jwt_decoded(secret@, token@) == Some(p@),
{
    let key = DecodingKey::from_secret(secret.as_bytes());
    let mut validation = Validation::default();
    validation.validate_exp = false;
    let claims = jsonwebtoken::decode::<serde_json::Value>(token, &key, &validation)?.claims;
    Ok(
        Payload {
            sub: claims.get("sub").and_then(serde_json::Value::as_str).map(str::to_owned),
            exp: claims.get("exp").and_then(serde_json::Value::as_u64),
            token_type: claims.get("token_type").and_then(serde_json::Value::as_str).map(
                str::to_owned,
            ),
        },
    )
}

/// The signing key of the service, fixed when the codec is built.
pub struct TokenCodec {
    secret: String,
}

impl TokenCodec {
    /// The secret that tokens are signed and checked with.
    pub closed spec fn key(&self) -> Seq<char> {
        self.secret@
    }

    /// A codec that signs with `secret`.
    pub fn new(secret: &str) -> (codec: TokenCodec)
        ensures
            codec.key() == secret@,
    {
        TokenCodec { secret: secret.to_owned() }
    }

    /// A codec from the configured secret; `ConfigurationError` where none
    /// is configured.
    pub fn from_configuration(secret: Option<String>) -> (r: Result<TokenCodec, ApiError>)
        ensures
            match secret {
                Some(s) => r matches Ok(codec) && codec.key() == s@,
                None => r matches Err(e) && e == ApiError::ConfigurationError,
            },
    {
        match secret {
            Some(s) => Ok(TokenCodec { secret: s }),
            None => Err(ApiError::ConfigurationError),
        }
    }
}

/// The moment `minutes` minutes after `now`, in seconds since the Unix epoch.
pub open spec fn expiry(now: int, minutes: int) -> int {
    now + 60 * minutes
}

/// What issuing answers for what signing returned: the token, or
/// `ConfigurationError` for a failure.
pub open spec fn signing_result(signed: Option<Seq<char>>) -> Result<Seq<char>, ApiError> {
    match signed {
        Some(t) => Ok(t),
        None => Err(ApiError::ConfigurationError),
    }
}

/// The token issued under `key` to `subject` at `now` for `minutes` minutes:
/// the signed claims, or `ConfigurationError` where the expiry is no
/// unsigned 64-bit timestamp.
pub open spec fn issued_token(
    key: Seq<char>,
    subject: Seq<char>,
    token_type: TokenType,
    minutes: int,
    now: int,
) -> Result<Seq<char>, ApiError> {
    let exp = expiry(now, minutes);
    if 0 <= exp <= u64::MAX {
        Ok(jwt_encoded(key, subject, exp as u64, token_type.label()))
    } else {
        Err(ApiError::ConfigurationError)
    }
}

/// Whether `token` carries exactly the claims `claims` under `key`.
pub open spec fn carries(key: Seq<char>, token: Seq<char>, claims: ClaimsView) -> bool {
    jwt_decoded(key, token) == Some(
        PayloadView {
            sub: Some(claims.sub),
            exp: Some(claims.exp),
            token_type: Some(claims.token_type.label()),
        },
    )
}

/// Accepts or refuses what the token crate returned from signing: a failure
/// to sign is a fault of the configuration.
pub fn accept_token(signed: Result<String, jsonwebtoken::errors::Error>) -> (r: Result<
    String,
    ApiError,
>)
    ensures
        text_result(r) == signing_result(
            match signed {
                Ok(t) => Some(t@),
                Err(_) => None,
            },
        ),
{
    match signed {
        Ok(t) => Ok(t),
        Err(_) => Err(ApiError::ConfigurationError),
    }
}

/// Issues a token to `username` that expires `expiration_minutes` minutes
/// after `now`.
///
/// The token is issued exactly where the expiry is an unsigned 64-bit
/// timestamp; it then carries the subject, the expiry and the type.
pub fn create_token_at(
    codec: &TokenCodec,
    username: &str,
    token_type: TokenType,
    expiration_minutes: i64,
    now: i64,
) -> (r: Result<String, ApiError>)
    ensures
        text_result(r) == issued_token(
            codec.key(),
            username@,
            token_type,
            expiration_minutes as int,
            now as int,
        ),
        r is Ok <==> 0 <= expiry(now as int, expiration_minutes as int) <= u64::MAX,
        r matches Ok(t) ==> carries(
            codec.key(),
            t@,
            ClaimsView {
                sub: username@,
                exp: expiry(now as int, expiration_minutes as int) as u64,
                token_type,
            },
        ),
{
    let exp: i128 = now as i128 + 60 * (expiration_minutes as i128);
    if exp < 0 || exp > u64::MAX as i128 {
        return Err(ApiError::ConfigurationError);
    }
    let signed = jwt_encode(codec.secret.as_str(), username, exp as u64, token_type.as_str());
    accept_token(signed)
}

/// Issues a token to `username` that expires `expiration_minutes` minutes
/// after the present moment, which is not before the epoch.
pub fn create_token(
    codec: &TokenCodec,
    username: &str,
    token_type: TokenType,
    expiration_minutes: i64,
) -> (r: Result<String, ApiError>)
    ensures
        exists|now: i64|
            0 <= now && text_result(r) == #[trigger] issued_token(
                codec.key(),
                username@,
                token_type,
                expiration_minutes as int,
                now as int,
            ) && (r matches Ok(t) ==> carries(
                codec.key(),
                t@,
                ClaimsView {
                    sub: username@,
                    exp: expiry(now as int, expiration_minutes as int) as u64,
                    token_type,
                },
            )),
{
    let now: i64 = current_timestamp();
    create_token_at(codec, username, token_type, expiration_minutes, now)
}

/// The view of a result that holds claims.
pub open spec fn claims_result(r: Result<Claims, ApiError>) -> Result<ClaimsView, ApiError> {
    match r {
        Ok(c) => Ok(c@),
        Err(e) => Err(e),
    }
}

/// The claims that a payload amounts to: all three fields present, and the
/// type one of the two known labels.
pub open spec fn claims_of(payload: PayloadView) -> Option<ClaimsView> {
    match (payload.sub, payload.exp, payload.token_type) {
        (Some(sub), Some(exp), Some(label)) => match TokenType::of_label(label) {
            Some(token_type) => Some(ClaimsView { sub, exp, token_type }),
            None => None,
        },
        _ => None,
    }
}

/// What validation answers at `now` for what checking the signature gave:
/// the claims of a token that decoded, is complete and has not expired;
/// `InvalidToken` in every other case.
pub open spec fn validation_result(decoded: Option<PayloadView>, now: int) -> Result<
    ClaimsView,
    ApiError,
> {
    match decoded {
        Some(payload) => match claims_of(payload) {
            Some(claims) => if claims.exp < now {
                Err(ApiError::InvalidToken)
            } else {
                Ok(claims)
            },
            None => Err(ApiError::InvalidToken),
        },
        None => Err(ApiError::InvalidToken),
    }
}

/// Reads the claims out of a payload; `None` where a field is missing or the
/// type is unknown.
pub fn read_claims(payload: Payload) -> (r: Option<Claims>)
    ensures
        match r {
            Some(c) => claims_of(payload@) == Some(c@),
            None => claims_of(payload@) is None,
        },
{
    match (payload.sub, payload.exp, payload.token_type) {
        (Some(sub), Some(exp), Some(label)) => match TokenType::parse(label.as_str()) {
            Some(token_type) => Some(Claims { sub, exp, token_type }),
            None => None,
        },
        _ => None,
    }
}

/// Whether claims have expired at `now`: their expiry lies before it.
pub fn is_expired(claims: &Claims, now: i64) -> (r: bool)
    ensures
        r == (claims.exp < now),
{
    now > 0 && claims.exp < now as u64
}

/// Decides on a token from what checking its signature returned: only after
/// the signature held are the claims read, and only then is the expiry
/// compared with `now`.
pub fn accept_payload(decoded: Result<Payload, jsonwebtoken::errors::Error>, now: i64) -> (r:
    Result<Claims, ApiError>)
    ensures
        claims_result(r) == validation_result(
            match decoded {
                Ok(p) => Some(p@),
                Err(_) => None,
            },
            now as int,
        ),
{
    match decoded {
        Ok(payload) => match read_claims(payload) {
            Some(claims) => if is_expired(&claims, now) {
                Err(ApiError::InvalidToken)
            } else {
                Ok(claims)
            },
            None => Err(ApiError::InvalidToken),
        },
        Err(_) => Err(ApiError::InvalidToken),
    }
}

/// Validates `token` at the moment `now`.
///
/// The claims are returned where the token is well-formed, signed with the
/// codec's key, complete, and `now` is not past its expiry; every other token
/// is an `InvalidToken`.
pub fn validate_jwt_at(codec: &TokenCodec, token: &str, now: i64) -> (r: Result<Claims, ApiError>)
    ensures
        claims_result(r) == validation_result(jwt_decoded(codec.key(), token@), now as int),
{
    let decoded = jwt_decode(codec.secret.as_str(), token);
    accept_payload(decoded, now)
}

/// Validates `token` at the present moment.
pub fn validate_jwt(codec: &TokenCodec, token: &str) -> (r: Result<Claims, ApiError>)
    ensures
        exists|now: i64|
            0 <= now && claims_result(r) == #[trigger] validation_result(
                jwt_decoded(codec.key(), token@),
                now as int,
            ),
        r matches Err(e) ==> e == ApiError::InvalidToken,
{
    let now: i64 = current_timestamp();
    validate_jwt_at(codec, token, now)
}

/// How long an access token lives, in minutes.
pub const ACCESS_MINUTES: i64 = 15;

/// How long a refresh token lives, in minutes: seven days.
pub const REFRESH_MINUTES: i64 = 60 * 24 * 7;

/// What every successful operation answers with: an access token and the
/// refresh token that goes with it.
#[derive(Clone, Debug)]
pub struct TokenResponse {
    pub access_token: String,
    pub refresh_token: String,
}

/// The pair as mathematical values.
pub struct TokenResponseView {
    pub access_token: Seq<char>,
    pub refresh_token: Seq<char>,
}

impl View for TokenResponse {
    type V = TokenResponseView;

    open spec fn view(&self) -> TokenResponseView {
        TokenResponseView {
            access_token: self.access_token@,
            refresh_token: self.refresh_token@,
        }
    }
}

/// The view of a result that holds a pair of tokens.
pub open spec fn pair_result(r: Result<TokenResponse, ApiError>) -> Result<
    TokenResponseView,
    ApiError,
> {
    match r {
        Ok(p) => Ok(p@),
        Err(e) => Err(e),
    }
}

/// The pair made of two issued tokens; the failure of the first that failed.
pub open spec fn paired(
    access: Result<Seq<char>, ApiError>,
    refresh: Result<Seq<char>, ApiError>,
) -> Result<TokenResponseView, ApiError> {
    match access {
        Ok(access_token) => match refresh {
            Ok(refresh_token) => Ok(TokenResponseView { access_token, refresh_token }),
            Err(e) => Err(e),
        },
        Err(e) => Err(e),
    }
}

/// The pair issued under `key` to `subject` at `now`: an access token for
/// fifteen minutes and a refresh token for seven days.
pub open spec fn issued_pair(key: Seq<char>, subject: Seq<char>, now: int) -> Result<
    TokenResponseView,
    ApiError,
> {
    paired(
        issued_token(key, subject, TokenType::Access, ACCESS_MINUTES as int, now),
        issued_token(key, subject, TokenType::Refresh, REFRESH_MINUTES as int, now),
    )
}

/// Whether both tokens of `pair` carry the claims of a pair issued to
/// `subject` at `now`.
pub open spec fn pair_carries(
    key: Seq<char>,
    pair: TokenResponseView,
    subject: Seq<char>,
    now: int,
) -> bool {
    &&& carries(
        key,
        pair.access_token,
        ClaimsView {
            sub: subject,
            exp: expiry(now, ACCESS_MINUTES as int) as u64,
            token_type: TokenType::Access,
        },
    )
    &&& carries(
        key,
        pair.refresh_token,
        ClaimsView {
            sub: subject,
            exp: expiry(now, REFRESH_MINUTES as int) as u64,
            token_type: TokenType::Refresh,
        },
    )
}

/// Issues a fresh pair of tokens to `username` at the moment `now`.
///
/// The pair is issued exactly where the access token's expiry is not before
/// the epoch: no moment is so late that an expiry would not fit.
pub fn generate_tokens_at(codec: &TokenCodec, username: &str, now: i64) -> (r: Result<
    TokenResponse,
    ApiError,
>)
    ensures
        pair_result(r) == issued_pair(codec.key(), username@, now as int),
        r is Ok <==> 0 <= expiry(now as int, ACCESS_MINUTES as int),
        r matches Ok(pair) ==> pair_carries(codec.key(), pair@, username@, now as int),
{
    let access_token = match create_token_at(
        codec,
        username,
        TokenType::Access,
        ACCESS_MINUTES,
        now,
    ) {
        Ok(t) => t,
        Err(e) => {
            return Err(e);
        },
    };
    let refresh_token = match create_token_at(
        codec,
        username,
        TokenType::Refresh,
        REFRESH_MINUTES,
        now,
    ) {
        Ok(t) => t,
        Err(e) => {
            return Err(e);
        },
    };
    Ok(TokenResponse { access_token, refresh_token })
}

/// Issues a fresh pair of tokens to `username` at the present moment, which
/// is not before the epoch: the pair is always issued.
pub fn generate_tokens(codec: &TokenCodec, username: &str) -> (r: Result<TokenResponse, ApiError>)
    ensures
        exists|now: i64|
            0 <= now && pair_result(r) == #[trigger] issued_pair(
                codec.key(),
                username@,
                now as int,
            ) && (r matches Ok(pair) ==> pair_carries(codec.key(), pair@, username@, now as int)),
        r is Ok,
{
    let now: i64 = current_timestamp();
    generate_tokens_at(codec, username, now)
}

/// A token that carries `claims` validates to exactly these claims at every
/// moment up to their expiry, and is an `InvalidToken` at every later one.
pub proof fn lemma_issued_token_validates(
    key: Seq<char>,
    token: Seq<char>,
    claims: ClaimsView,
    now: int,
)
    requires
        carries(key, token, claims),
    ensures
        now <= claims.exp ==> validation_result(jwt_decoded(key, token), now) == Ok::<
            ClaimsView,
            ApiError,
        >(claims),
        claims.exp < now ==> validation_result(jwt_decoded(key, token), now) == Err::<
            ClaimsView,
            ApiError,
        >(ApiError::InvalidToken),
{
    claims.token_type.lemma_label_round_trip();
}

/// Both tokens of a pair issued at `now` validate at `now`, to the subject
/// and the type they were issued with, and expire strictly later than `now`.
pub proof fn lemma_issued_pair_validates(
    key: Seq<char>,
    subject: Seq<char>,
    now: int,
    pair: TokenResponseView,
)
    requires
        issued_pair(key, subject, now) == Ok::<TokenResponseView, ApiError>(pair),
        pair_carries(key, pair, subject, now),
    ensures
        validation_result(jwt_decoded(key, pair.access_token), now) matches Ok(claims)
            && claims.sub == subject && claims.token_type == TokenType::Access && claims.exp
            == now + 60 * ACCESS_MINUTES && claims.exp > now,
        validation_result(jwt_decoded(key, pair.refresh_token), now) matches Ok(claims)
            && claims.sub == subject && claims.token_type == TokenType::Refresh && claims.exp
            == now + 60 * REFRESH_MINUTES && claims.exp > now,
{
    TokenType::Access.lemma_label_round_trip();
    TokenType::Refresh.lemma_label_round_trip();
}

/// At every moment from the epoch on that a clock of 64 bits can read, a pair
/// is issued.
pub proof fn lemma_pair_is_issued(key: Seq<char>, subject: Seq<char>, now: int)
    requires
        0 <= now <= i64::MAX,
    ensures
        issued_pair(key, subject, now) is Ok,
{
}

} // verus!
