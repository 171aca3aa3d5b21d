//! Issuing and checking bearer tokens.
//!
//! A token is valid if it is signed with the configured secret, carries all
//! four claims, and expires after the moment of the check. The signature is
//! made and checked by `jsonwebtoken` (HS256); the claims and the time are
//! judged here.

use crate::config::{integer_of, Config};
use crate::errors::api_error::ApiError;
use crate::errors::config_error::ConfigError;
use crate::models::auth::token::{Claims, ClaimsData};
use crate::models::{text_of, Timestamp};
use jsonwebtoken::{DecodingKey, EncodingKey, Header, Validation};
use serde_json::Value;
use vstd::prelude::*;

verus! {

/// The claims found in a token whose signature checked out. A claim that is
/// missing, or is not of the type it should have, is `None`.
#[derive(Clone, Debug, PartialEq, Eq)]
pub struct RawClaims {
    pub iat: Option<u64>,
    pub sub: Option<String>,
    pub exp: Option<u64>,
    pub role: Option<String>,
}

/// What the claims found in a token hold.
pub struct RawClaimsData {
    pub iat: Option<u64>,
    pub sub: Option<Seq<char>>,
    pub exp: Option<u64>,
    pub role: Option<Seq<char>>,
}

impl View for RawClaims {
    type V = RawClaimsData;

    open spec fn view(&self) -> RawClaimsData {
        RawClaimsData {
            iat: self.iat,
            sub: text_of(self.sub),
            exp: self.exp,
            role: text_of(self.role),
        }
    }
}

/// The names under which a token carries its claims.
#[derive(Clone, Debug, PartialEq, Eq)]
pub struct ClaimNames {
    pub iat: String,
    pub sub: String,
    pub exp: String,
    pub role: String,
}

/// What the names of the claims are.
pub struct ClaimNamesData {
    pub iat: Seq<char>,
    pub sub: Seq<char>,
    pub exp: Seq<char>,
    pub role: Seq<char>,
}

impl View for ClaimNames {
    type V = ClaimNamesData;

    open spec fn view(&self) -> ClaimNamesData {
        ClaimNamesData { iat: self.iat@, sub: self.sub@, exp: self.exp@, role: self.role@ }
    }
}

/// The names that the tokens of this service use: `iat` for the moment of
/// issue, `sub` for the subject, `exp` for the expiry, and `role`.
pub open spec fn standard_names() -> ClaimNamesData {
    ClaimNamesData { iat: "iat"@, sub: "sub"@, exp: "exp"@, role: "role"@ }
}

impl ClaimNames {
    /// The names that the tokens of this service use.
    pub fn standard() -> (names: ClaimNames)
        ensures
            names@ == standard_names(),
    {
        ClaimNames {
            iat: "iat".to_string(),
            sub: "sub".to_string(),
            exp: "exp".to_string(),
            role: "role".to_string(),
        }
    }
}

/// The token that carries these claims under these names, signed with this
/// secret; `None` if signing fails. This is what `jsonwebtoken::encode`
/// returns for the default header (HS256); it is not restated here.
pub uninterp spec fn encoded_token(
    claims: ClaimsData,
    names: ClaimNamesData,
    secret: Seq<char>,
) -> Option<Seq<char>>;

/// The claims found under these names in a token, if `jsonwebtoken::decode`
/// accepts it under this secret with its default validation, the judging of
/// the expiry switched off: it has the form of a token, it names HS256, its
/// signature is the one that this secret makes, and it carries an `exp` and
/// no `aud`. `None` if the token is refused. It is not restated here.
pub uninterp spec fn decoded_claims(
    token: Seq<char>,
    names: ClaimNamesData,
    secret: Seq<char>,
) -> Option<RawClaimsData>;

/// The token that carries these claims under the names of this service.
pub open spec fn signed_token(claims: ClaimsData, secret: Seq<char>) -> Option<Seq<char>> {
    encoded_token(claims, standard_names(), secret)
}

/// The claims found in a token under the names of this service.
pub open spec fn token_claims(token: Seq<char>, secret: Seq<char>) -> Option<RawClaimsData> {
    decoded_claims(token, standard_names(), secret)
}

/// Signs the claims with `jsonwebtoken::encode`, under the default header
/// and with the secret as an HMAC key. The claims are handed over as a JSON
/// object with one member for each claim, under the names given. Returns the
/// token, or the library's description of why signing failed. The contract
/// names the token: the same claims, names and secret always give the same
/// one. It also claims that a token under the names of this service is read
/// back: decoded under the same names and secret, it is accepted and yields
/// the four claims it was made from.
#[verifier::external_body]
fn encode_claims(claims: &Claims, names: &ClaimNames, secret: &str) -> (token: Result<
    String,
    String,
>)
    ensures
        match token {
            Ok(text) => encoded_token(claims@, names@, secret@) == Some(text@) && (names@
                == standard_names() ==> decoded_claims(text@, names@, secret@) == Some(
                carried(claims@),
            )),
            Err(_) => encoded_token(claims@, names@, secret@) is None,
        },
{
    let mut body = serde_json::Map::new();
    body.insert(names.iat.clone(), Value::from(claims.iat));
    body.insert(names.sub.clone(), Value::from(claims.sub.as_str()));
    body.insert(names.exp.clone(), Value::from(claims.exp));
    body.insert(names.role.clone(), Value::from(claims.role.as_str()));
    let key = EncodingKey::from_secret(secret.as_bytes());
    jsonwebtoken::encode(&Header::default(), &body, &key).map_err(|error| error.to_string())
}

/// Checks a token with `jsonwebtoken::decode`, with the secret as an HMAC
/// key and the default validation, in which the judging of the expiry is
/// switched on or off as asked, and picks the four claims out of the payload
/// by the names given. Returns the claims, or the library's description of
/// why the token was refused. Where the expiry is not judged, the contract
/// names the claims: the same token, names and secret always give the same
/// ones. Where it is judged, the library reads the clock, and nothing is
/// promised.
#[verifier::external_body]
fn decode_claims(token: &str, names: &ClaimNames, secret: &str, judge_expiry: bool) -> (claims:
    Result<RawClaims, String>)
    ensures
        !judge_expiry ==> match claims {
            Ok(found) => decoded_claims(token@, names@, secret@) == Some(found@),
            Err(_) => decoded_claims(token@, names@, secret@) is None,
        },
{
    let mut validation = Validation::default();
    validation.validate_exp = judge_expiry;
    let key = DecodingKey::from_secret(secret.as_bytes());
    let payload = jsonwebtoken::decode::<Value>(token, &key, &validation);
    payload.map_err(|error| error.to_string()).map(
        |data| RawClaims {
            iat: data.claims[names.iat.as_str()].as_u64(),
            sub: data.claims[names.sub.as_str()].as_str().map(String::from),
            exp: data.claims[names.exp.as_str()].as_u64(),
            role: data.claims[names.role.as_str()].as_str().map(String::from),
        },
    )
}

/// The claims as they are found in the token that carries them.
pub open spec fn carried(claims: ClaimsData) -> RawClaimsData {
    RawClaimsData {
        iat: Some(claims.iat as u64),
        sub: Some(claims.sub),
        exp: Some(claims.exp as u64),
        role: Some(claims.role),
    }
}

/// Whether a token issued at `now` for `lifetime` seconds has times that can
/// be written down: neither the moment of issue nor the expiry is before the
/// epoch or beyond what the machine counts.
pub open spec fn representable(lifetime: i64, now: i64) -> bool {
    0 <= now <= usize::MAX && 0 <= now + lifetime <= usize::MAX
}

/// The claims of a token issued at `now` for `lifetime` seconds.
pub open spec fn claims_at(
    username: Seq<char>,
    role: Seq<char>,
    lifetime: i64,
    now: i64,
) -> ClaimsData {
    ClaimsData { iat: now as int, sub: username, exp: now + lifetime, role }
}

/// Makes the claims of a token issued at `now` for `lifetime` seconds:
/// issued at `now`, expiring at `now + lifetime`. A lifetime with which the
/// times cannot be written down is a malformed setting.
pub fn new_claims(username: &str, role: &str, lifetime: i64, now: i64) -> (claims: Result<
    Claims,
    ApiError,
>)
    ensures
        representable(lifetime, now) ==> (claims matches Ok(made) && made@ == claims_at(
            username@,
            role@,
            lifetime,
            now,
        )),
        !representable(lifetime, now) ==> claims matches Err(
            ApiError::ConfigError(ConfigError::ParsingError(_)),
        ),
{
    let expiry: i128 = now as i128 + lifetime as i128;
    if now < 0 || expiry < 0 || expiry > usize::MAX as i128 || now as i128 > usize::MAX as i128 {
        return Err(
            ApiError::ConfigError(
                ConfigError::ParsingError("Invalid JWT_EXPIRATION_TIME value".to_string()),
            ),
        );
    }
    Ok(
        Claims {
            iat: now as usize,
            sub: username.to_string(),
            exp: expiry as usize,
            role: role.to_string(),
        },
    )
}

/// Whether the claims found in a token are those of a valid token at `now`:
/// all four are there, the times can be counted by the machine, and the
/// expiry is after `now`.
pub open spec fn acceptable(found: RawClaimsData, now: i64) -> bool {
    &&& found.iat matches Some(iat) && iat <= usize::MAX
    &&& found.sub is Some
    &&& found.exp matches Some(exp) && exp <= usize::MAX && exp > now
    &&& found.role is Some
}

/// The claims of a valid token.
pub open spec fn accepted_claims(found: RawClaimsData) -> ClaimsData {
    ClaimsData {
        iat: found.iat.unwrap() as int,
        sub: found.sub.unwrap(),
        exp: found.exp.unwrap() as int,
        role: found.role.unwrap(),
    }
}

/// Judges the claims found in a token whose signature checked out.
pub fn check_claims(found: RawClaims, now: i64) -> (claims: Result<Claims, ApiError>)
    ensures
        acceptable(found@, now) ==> (claims matches Ok(valid) && valid@ == accepted_claims(
            found@,
        )),
        !acceptable(found@, now) ==> claims matches Err(ApiError::JWTError(_)),
{
    let (iat, sub, exp, role) = match (found.iat, found.sub, found.exp, found.role) {
        (Some(iat), Some(sub), Some(exp), Some(role)) => (iat, sub, exp, role),
        _ => {
            return Err(ApiError::JWTError("JSON error: missing or malformed claim".to_string()));
        },
    };
    if iat > usize::MAX as u64 || exp > usize::MAX as u64 {
        return Err(ApiError::JWTError("JSON error: claim out of range".to_string()));
    }
    if now >= 0 && exp <= now as u64 {
        return Err(ApiError::JWTError("ExpiredSignature".to_string()));
    }
    Ok(Claims { iat: iat as usize, sub, exp: exp as usize, role })
}

/// What issuing a token answers, given the settings: the token for the
/// claims, or why there is none.
pub open spec fn issued(
    username: Seq<char>,
    role: Seq<char>,
    config: Config,
    now: i64,
    token: Result<String, ApiError>,
) -> bool {
    match config.jwt_expiration_time {
        None => token matches Err(ApiError::ConfigError(ConfigError::EnvVarNotFound(_))),
        Some(setting) => match integer_of(setting@) {
            None => token matches Err(ApiError::ConfigError(ConfigError::ParsingError(_))),
            Some(lifetime) => match config.jwt_secret {
                None => token matches Err(ApiError::ConfigError(ConfigError::EnvVarNotFound(_))),
                Some(secret) => if !representable(lifetime, now) {
                    token matches Err(ApiError::ConfigError(ConfigError::ParsingError(_)))
                } else {
                    match signed_token(claims_at(username, role, lifetime, now), secret@) {
                        Some(text) => token matches Ok(made) && made@ == text && token_claims(
                            text,
                            secret@,
                        ) == Some(carried(claims_at(username, role, lifetime, now))),
                        None => token matches Err(ApiError::JWTError(_)),
                    }
                },
            },
        },
    }
}

/// Issues a token for an account at the moment `now`.
pub fn generate_jwt_at(username: &str, role: &str, config: &Config, now: i64) -> (token: Result<
    String,
    ApiError,
>)
    ensures
        issued(username@, role@, *config, now, token),
{
    let lifetime = match config.token_lifetime() {
        Ok(lifetime) => lifetime,
        Err(error) => {
            return Err(ApiError::ConfigError(error));
        },
    };
    let secret = match config.signing_secret() {
        Ok(secret) => secret,
        Err(error) => {
            return Err(ApiError::ConfigError(error));
        },
    };
    let claims = match new_claims(username, role, lifetime, now) {
        Ok(claims) => claims,
        Err(error) => {
            return Err(error);
        },
    };
    match encode_claims(&claims, &ClaimNames::standard(), secret.as_str()) {
        Ok(token) => Ok(token),
        Err(cause) => Err(ApiError::JWTError(cause)),
    }
}

/// Issues a token for an account, now.
pub fn generate_jwt(username: &str, role: &str, config: &Config) -> (token: Result<
    String,
    ApiError,
>)
    ensures
        exists|now: i64| #[trigger] issued(username@, role@, *config, now, token),
{
    let now = Timestamp::now().unix_seconds();
    let token = generate_jwt_at(username, role, config, now);
    assert(issued(username@, role@, *config, now, token));
    token
}

/// What checking a token answers, given the settings: its claims if it is
/// valid at `now`, or why it is not.
pub open spec fn decoded(
    token: Seq<char>,
    config: Config,
    now: i64,
    claims: Result<Claims, ApiError>,
) -> bool {
    match config.jwt_secret {
        None => claims matches Err(ApiError::ConfigError(ConfigError::EnvVarNotFound(_))),
        Some(secret) => match token_claims(token, secret@) {
            None => claims matches Err(ApiError::JWTError(_)),
            Some(found) => if acceptable(found, now) {
                claims matches Ok(valid) && valid@ == accepted_claims(found)
            } else {
                claims matches Err(ApiError::JWTError(_))
            },
        },
    }
}

/// Checks a token at the moment `now` and returns its claims.
pub fn decode_jwt_at(token: &str, config: &Config, now: i64) -> (claims: Result<Claims, ApiError>)
    ensures
        decoded(token@, *config, now, claims),
        claims matches Ok(valid) ==> valid.exp > now,
{
    let secret = match config.signing_secret() {
        Ok(secret) => secret,
        Err(error) => {
            return Err(ApiError::ConfigError(error));
        },
    };
    // The expiry is judged here, against `now`, and not by the library.
    match decode_claims(token, &ClaimNames::standard(), secret.as_str(), false) {
        Ok(found) => check_claims(found, now),
        Err(cause) => Err(ApiError::JWTError(cause)),
    }
}

/// Checks a token now and returns its claims.
pub fn decode_jwt(token: String, config: &Config) -> (claims: Result<Claims, ApiError>)
    ensures
        exists|now: i64| #[trigger] decoded(token@, *config, now, claims),
{
    let now = Timestamp::now().unix_seconds();
    let claims = decode_jwt_at(token.as_str(), config, now);
    assert(decoded(token@, *config, now, claims));
    claims
}

/// Whether a token is valid at the moment `now`.
pub open spec fn valid_at(token: Seq<char>, config: Config, now: i64) -> bool {
    config.jwt_secret matches Some(secret) && token_claims(token, secret@) matches Some(found)
        && acceptable(found, now)
}

/// What checking a token answers: nothing if it is valid, or why it is not.
pub open spec fn validated(
    token: Seq<char>,
    config: Config,
    now: i64,
    verdict: Result<(), ApiError>,
) -> bool {
    if valid_at(token, config, now) {
        verdict is Ok
    } else if config.jwt_secret is None {
        verdict matches Err(ApiError::ConfigError(ConfigError::EnvVarNotFound(_)))
    } else {
        verdict matches Err(ApiError::JWTError(_))
    }
}

/// Checks a token at the moment `now`.
pub fn validate_jwt_at(token: &str, config: &Config, now: i64) -> (verdict: Result<(), ApiError>)
    ensures
        validated(token@, *config, now, verdict),
{
    match decode_jwt_at(token, config, now) {
        Ok(_) => Ok(()),
        Err(error) => Err(error),
    }
}

/// Checks a token now.
pub fn validate_jwt(token: &str, config: &Config) -> (verdict: Result<(), ApiError>)
    ensures
        exists|now: i64| #[trigger] validated(token@, *config, now, verdict),
{
    let now = Timestamp::now().unix_seconds();
    let verdict = validate_jwt_at(token, config, now);
    assert(validated(token@, *config, now, verdict));
    verdict
}

/// A token that has expired is refused: whatever claims a check returns
/// expire after the moment of the check.
pub proof fn lemma_expired_token_is_refused(
    token: Seq<char>,
    config: Config,
    now: i64,
    claims: Claims,
)
    requires
        decoded(token, config, now, Ok(claims)),
    ensures
        claims.exp > now,
        valid_at(token, config, now),
{
}

/// A token stays valid up to its expiry and no longer: one that is valid at
/// some moment is valid at every earlier one, and at none from its expiry
/// on.
pub proof fn lemma_validity_ends_at_expiry(
    token: Seq<char>,
    config: Config,
    now: i64,
    other: i64,
)
    requires
        valid_at(token, config, now),
    ensures
        other <= now ==> valid_at(token, config, other),
        valid_at(token, config, other) <==> other < token_claims(
            token,
            config.jwt_secret.unwrap()@,
        ).unwrap().exp.unwrap(),
{
}

/// A token that was issued is read back: at every moment before its expiry
/// it is valid, and a check yields the subject and the role it was issued
/// for, the moment of issue, and the expiry, which is the moment of issue
/// plus the configured lifetime.
pub proof fn lemma_issued_token_is_read_back(
    username: Seq<char>,
    role: Seq<char>,
    config: Config,
    now: i64,
    token: String,
    at: i64,
    claims: Result<Claims, ApiError>,
)
    requires
        issued(username, role, config, now, Ok(token)),
        decoded(token@, config, at, claims),
    ensures
        config.jwt_expiration_time matches Some(setting) && integer_of(setting@) matches Some(
            lifetime,
        ) && (if at < now + lifetime {
            &&& valid_at(token@, config, at)
            &&& claims matches Ok(valid)
            &&& valid@.sub == username
            &&& valid@.role == role
            &&& valid@.iat == now
            &&& valid@.exp == now + lifetime
        } else {
            claims matches Err(ApiError::JWTError(_))
        }),
{
}

} // verus!
