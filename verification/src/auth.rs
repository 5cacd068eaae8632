//! The token provider and authentication gate: issuing signed tokens that
//! carry identity and privilege claims, and validating presented tokens back
//! into an identity. The signing scheme is pluggable behind one capability
//! trait; the concrete provider signs with a symmetric secret (HS256).

use vstd::prelude::*;
use vstd::string::StrSliceExecFns;
use crate::errors::ServiceError;
use crate::users::{UserOut, UserTknDetails};

verus! {

/// How long an issued token stays valid, in seconds: five minutes.
pub const TOKEN_VALIDITY_SECS: u64 = 300;

/// Transient login credentials, consumed once by the login flow.
#[derive(Clone, Debug, PartialEq, Eq)]
pub struct Creds {
    pub email: String,
    pub password: String,
}

/// The signed payload inside a token: expiry, subject id, privilege flag.
#[derive(Clone, Debug, PartialEq, Eq)]
pub struct Claims {
    pub exp: u64,
    pub sub: String,
    pub moderator: bool,
}

/// The body of a successful login response.
#[derive(Clone, Debug, PartialEq, Eq)]
pub struct Token {
    pub token: String,
}

/// The mathematical shape of a claims set.
pub ghost struct ClaimsView {
    pub sub: Seq<char>,
    pub exp: u64,
    pub moderator: bool,
}

impl View for Claims {
    type V = ClaimsView;

    open spec fn view(&self) -> ClaimsView {
        ClaimsView { sub: self.sub@, exp: self.exp, moderator: self.moderator }
    }
}

/// The token text that signing a claims set with a secret yields.
pub uninterp spec fn token_of(secret: Seq<char>, sub: Seq<char>, exp: u64, moderator: bool) -> Seq<char>;

/// The claims that signature verification with a secret accepts in a token
/// text, if any: a function of the secret and the text alone.
pub uninterp spec fn decoded_of(secret: Seq<char>, tkn: Seq<char>) -> Option<ClaimsView>;

/// Whether a presented credential starts with the `"Token "` scheme prefix.
pub open spec fn has_scheme_prefix(tkn: Seq<char>) -> bool {
    tkn.len() >= 6 && tkn[0] == 'T' && tkn[1] == 'o' && tkn[2] == 'k' && tkn[3] == 'e'
        && tkn[4] == 'n' && tkn[5] == ' '
}

/// A presented credential with the scheme prefix, if any, stripped.
pub open spec fn scheme_stripped(tkn: Seq<char>) -> Seq<char> {
    if has_scheme_prefix(tkn) {
        tkn.subrange(6, tkn.len() as int)
    } else {
        tkn
    }
}

/// What validation makes of decoded claims at instant `now`: the claims stand
/// if and only if their expiry is still in the future.
pub open spec fn accept_claims(d: Option<ClaimsView>, now: u64) -> Option<ClaimsView> {
    match d {
        Some(c) => if now < c.exp {
            Some(c)
        } else {
            None
        },
        None => None,
    }
}

/// Claims whose expiry is past at the checking instant are rejected, no
/// matter how the token carrying them was signed.
pub proof fn lemma_expired_claims_rejected(d: Option<ClaimsView>, now: u64)
    requires
        d matches Some(c) && c.exp <= now,
    ensures
        accept_claims(d, now) is None,
{
}

/// Freshly issued claims are accepted, unchanged, at any instant before their
/// expiry: the round trip from issuance through validation preserves the
/// subject and the privilege flag.
pub proof fn lemma_fresh_claims_accepted(d: Option<ClaimsView>, c: ClaimsView, check: u64)
    requires
        d == Some(c),
        check < c.exp,
    ensures
        accept_claims(d, check) == Some(c),
{
}

/// One base64url character: the alphabet the compact serialization uses.
pub open spec fn is_b64url_char(c: char) -> bool {
    ('A' <= c && c <= 'Z') || ('a' <= c && c <= 'z') || ('0' <= c && c <= '9') || c == '-'
        || c == '_'
}

/// The compact JWS shape: three nonempty base64url segments — header,
/// claims, signature — joined by dots.
pub open spec fn compact_jws_shape(t: Seq<char>) -> bool {
    exists|i: int, j: int|
        #![trigger t[i], t[j]]
        0 < i && i + 2 <= j && j + 2 <= t.len() && t[i] == '.' && t[j] == '.' && (forall|k: int|
            0 <= k < t.len() && k != i && k != j ==> is_b64url_char(t[k]))
}

/// Relies on jsonwebtoken::encode with the default HS256 header. It cannot
/// fail on these inputs: the key and header families agree by construction,
/// HMAC-SHA256 accepts a secret of any length and its signing is infallible,
/// and serializing the fixed header and the `{sub, exp, moderator}` claims
/// object cannot fail. The result is the compact JWS form — three nonempty
/// base64url segments joined by `'.'`, hence free of spaces — and decoding
/// it with the same secret yields exactly the claims encoded here.
#[verifier::external_body]
fn encode_claims(secret: &str, sub: &str, exp: u64, moderator: bool) -> (r: Option<String>)
    ensures
        r is Some,
        r matches Some(t) ==> t@ == token_of(secret@, sub@, exp, moderator),
        r matches Some(t) ==> decoded_of(secret@, t@) == Some(
            ClaimsView { sub: sub@, exp, moderator },
        ),
        r matches Some(t) ==> compact_jws_shape(t@),
        r matches Some(t) ==> forall|i: int| 0 <= i < t@.len() ==> t@[i] != ' ',
{
    let mut claims = serde_json::Map::new();
    claims.insert("sub".to_owned(), serde_json::Value::String(sub.to_owned()));
    claims.insert("exp".to_owned(), serde_json::Value::from(exp));
    claims.insert("moderator".to_owned(), serde_json::Value::Bool(moderator));
    jsonwebtoken::encode(
        &jsonwebtoken::Header::default(),
        &serde_json::Value::Object(claims),
        &jsonwebtoken::EncodingKey::from_secret(secret.as_bytes()),
    )
    .ok()
}

/// Relies on jsonwebtoken::decode restricted to HS256, with expiry validation
/// turned off so that the outcome depends on the secret and the token text
/// alone; an absent `moderator` claim defaults to false.
#[verifier::external_body]
fn decode_claims(secret: &str, tkn: &str) -> (r: Option<Claims>)
    ensures
        decoded_of(secret@, tkn@) == match r {
            Some(c) => Some(c@),
            None => None::<ClaimsView>,
        },
{
    let mut validation = jsonwebtoken::Validation::new(jsonwebtoken::Algorithm::HS256);
    validation.validate_exp = false;
    let key = jsonwebtoken::DecodingKey::from_secret(secret.as_bytes());
    let data = jsonwebtoken::decode::<serde_json::Value>(tkn, &key, &validation).ok()?;
    let sub = data.claims.get("sub")?.as_str()?.to_owned();
    let exp = data.claims.get("exp")?.as_u64()?;
    let moderator = data.claims.get("moderator").and_then(|v| v.as_bool()).unwrap_or(false);
    Some(Claims { exp, sub, moderator })
}

/// The capability interface over the signing scheme. A provider issues tokens
/// whose claims its own verification accepts back unchanged until expiry, and
/// validates presented tokens against its key material and the clock.
pub trait AuthProvider: Sized {
    /// The claims this provider's verification accepts in a token text, if
    /// any: a function of the provider's key material and the text alone.
    spec fn decode_view(&self, tkn: Seq<char>) -> Option<ClaimsView>;

    /// Issue a signed token for `u`, expiring `TOKEN_VALIDITY_SECS` after
    /// `now`. An issued token is deterministic in structure — header, claims
    /// and signature segments — and never starts with the scheme prefix, so
    /// presenting it bare or prefixed validates the same text. A fresh token
    /// validates back to the identity it was issued for at any instant
    /// before its expiry, and the expiry is in the future at issuance.
    fn issue_token(&self, u: &UserTknDetails, now: u64) -> (r: Result<String, ServiceError>)
        requires
            now + TOKEN_VALIDITY_SECS <= u64::MAX,
        ensures
            now < (now + TOKEN_VALIDITY_SECS) as u64,
            r matches Ok(t) ==> compact_jws_shape(t@) && scheme_stripped(t@) == t@,
            r matches Ok(t) ==> self.decode_view(scheme_stripped(t@)) == Some(
                ClaimsView {
                    sub: u._id@,
                    exp: (now + TOKEN_VALIDITY_SECS) as u64,
                    moderator: u.is_moderator,
                },
            ),
            r matches Ok(t) ==> forall|check: u64|
                check < now + TOKEN_VALIDITY_SECS ==> accept_claims(
                    self.decode_view(scheme_stripped(t@)),
                    check,
                ) == Some(
                    ClaimsView {
                        sub: u._id@,
                        exp: (now + TOKEN_VALIDITY_SECS) as u64,
                        moderator: u.is_moderator,
                    },
                ),
            r matches Err(e) ==> e == ServiceError::AuthTokenEncoderErr,
    ;

    /// Validate a presented token at instant `now`: strip the scheme prefix
    /// if present, verify the signature, and check the expiry. Any signature
    /// mismatch, malformed structure, or expiry violation is the one
    /// undifferentiated failure `AuthTokenMissingOrInvalid`.
    fn parse_token(&self, tkn: &str, now: u64) -> (r: Result<UserTknDetails, ServiceError>)
        ensures
            match r {
                Ok(u) => accept_claims(self.decode_view(scheme_stripped(tkn@)), now)
                    matches Some(c) && u._id@ == c.sub && u.is_moderator == c.moderator,
                Err(e) => accept_claims(self.decode_view(scheme_stripped(tkn@)), now) is None
                    && e == ServiceError::AuthTokenMissingOrInvalid,
            },
    ;
}

/// A token provider signing with a symmetric shared secret (HS256). The
/// secret is loaded once at process start and is immutable for the process
/// lifetime.
#[derive(Clone, Debug)]
pub struct JWTAuth {
    secret: String,
}

impl JWTAuth {
    /// The provider's key material.
    pub closed spec fn spec_secret(&self) -> Seq<char> {
        self.secret@
    }

    /// Build a provider around the configured secret.
    pub fn new(secret: String) -> (r: Self)
        ensures
            r.spec_secret() == secret@,
    {
        JWTAuth { secret }
    }
}

/// Whether `tkn` starts with the `"Token "` scheme prefix.
fn has_scheme_prefix_exec(tkn: &str) -> (r: bool)
    ensures
        r == has_scheme_prefix(tkn@),
{
    let n = tkn.unicode_len();
    n >= 6 && tkn.get_char(0) == 'T' && tkn.get_char(1) == 'o' && tkn.get_char(2) == 'k'
        && tkn.get_char(3) == 'e' && tkn.get_char(4) == 'n' && tkn.get_char(5) == ' '
}

impl AuthProvider for JWTAuth {
    open spec fn decode_view(&self, tkn: Seq<char>) -> Option<ClaimsView> {
        decoded_of(self.spec_secret(), tkn)
    }

    fn issue_token(&self, u: &UserTknDetails, now: u64) -> (r: Result<String, ServiceError>)
        // Issuance is owed: with this provider the signing call cannot fail.
        ensures
            r is Ok,
    {
        let exp = now + TOKEN_VALIDITY_SECS;
        match encode_claims(self.secret.as_str(), u._id.as_str(), exp, u.is_moderator) {
            Some(t) => {
                proof {
                    if has_scheme_prefix(t@) {
                        assert(t@[5] != ' ');
                    }
                    assert(scheme_stripped(t@) == t@);
                }
                Ok(t)
            },
            None => Err(ServiceError::AuthTokenEncoderErr),
        }
    }

    fn parse_token(&self, tkn: &str, now: u64) -> (r: Result<UserTknDetails, ServiceError>) {
        let stripped: &str = if has_scheme_prefix_exec(tkn) {
            tkn.substring_char(6, tkn.unicode_len())
        } else {
            tkn
        };
        assert(stripped@ == scheme_stripped(tkn@));
        match decode_claims(self.secret.as_str(), stripped) {
            Some(c) => {
                if now < c.exp {
                    Ok(UserTknDetails { _id: c.sub, is_moderator: c.moderator })
                } else {
                    Err(ServiceError::AuthTokenMissingOrInvalid)
                }
            },
            None => Err(ServiceError::AuthTokenMissingOrInvalid),
        }
    }
}

/// The round trip in one step: issue a token for `u` at `now` and validate
/// it at any instant `check` before its expiry. Whenever issuance succeeds,
/// validation cannot fail, and the identity comes back with the subject and
/// the privilege flag preserved; the only possible failure is the signing
/// failure at issuance.
pub fn issue_then_validate<T: AuthProvider>(
    provider: &T,
    u: &UserTknDetails,
    now: u64,
    check: u64,
) -> (r: Result<UserTknDetails, ServiceError>)
    requires
        now + TOKEN_VALIDITY_SECS <= u64::MAX,
        check < now + TOKEN_VALIDITY_SECS,
    ensures
        r matches Ok(v) ==> v._id@ == u._id@ && v.is_moderator == u.is_moderator,
        r matches Err(e) ==> e == ServiceError::AuthTokenEncoderErr,
{
    let token = match provider.issue_token(u, now) {
        Ok(t) => t,
        Err(e) => {
            return Err(e);
        },
    };
    match provider.parse_token(token.as_str(), check) {
        Ok(v) => Ok(v),
        Err(e) => {
            proof {
                assert(false);
            }
            Err(e)
        },
    }
}

/// The authentication gate: the single request-boundary step that takes the
/// raw authorization credential, absent if the client sent none, and yields
/// either a validated identity or the undifferentiated auth failure.
pub fn authenticate<T: AuthProvider>(provider: &T, header: Option<String>, now: u64) -> (r: Result<
    UserTknDetails,
    ServiceError,
>)
    ensures
        header is None ==> r == Err::<UserTknDetails, ServiceError>(
            ServiceError::AuthTokenMissingOrInvalid,
        ),
        header matches Some(h) ==> match r {
            Ok(u) => accept_claims(provider.decode_view(scheme_stripped(h@)), now)
                matches Some(c) && u._id@ == c.sub && u.is_moderator == c.moderator,
            Err(e) => accept_claims(provider.decode_view(scheme_stripped(h@)), now) is None
                && e == ServiceError::AuthTokenMissingOrInvalid,
        },
{
    match header {
        None => Err(ServiceError::AuthTokenMissingOrInvalid),
        Some(h) => provider.parse_token(h.as_str(), now),
    }
}

/// The login flow past the credential lookup: a storage failure propagates
/// unchanged; for a found account, a token is issued for its identity, and a
/// signing failure surfaces as `AuthTokenEncoderErr`.
pub fn login<T: AuthProvider>(
    provider: &T,
    lookup: Result<UserOut, ServiceError>,
    now: u64,
) -> (r: Result<Token, ServiceError>)
    requires
        now + TOKEN_VALIDITY_SECS <= u64::MAX,
    ensures
        lookup matches Err(e) ==> r == Err::<Token, ServiceError>(e),
        lookup matches Ok(u) ==> match r {
            Ok(t) => scheme_stripped(t.token@) == t.token@ && provider.decode_view(t.token@)
                == Some(
                ClaimsView {
                    sub: u._id@,
                    exp: (now + TOKEN_VALIDITY_SECS) as u64,
                    moderator: u.is_moderator,
                },
            ),
            Err(e) => e == ServiceError::AuthTokenEncoderErr,
        },
{
    match lookup {
        Err(e) => Err(e),
        Ok(u) => {
            let details = UserTknDetails { _id: u._id, is_moderator: u.is_moderator };
            match provider.issue_token(&details, now) {
                Ok(t) => Ok(Token { token: t }),
                Err(e) => Err(e),
            }
        },
    }
}

} // verus!
