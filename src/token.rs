//! Bearer-token verification against a fetched signing-key set.
//!
//! The cryptographic work (header decoding, key lookup, signature and claim
//! checks) is done by `alcoholic_jwt`; the expiry judgement, the order of the
//! checks and the mapping of every failure to a typed rejection live here.
use vstd::prelude::*;
use vstd::string::*;
use alcoholic_jwt::{JWK, JWKS, ValidJWT, Validation, ValidationError};

verus! {

#[verifier::external_type_specification]
#[verifier::external_body]
pub struct ExJwks(alcoholic_jwt::JWKS);

#[verifier::external_type_specification]
#[verifier::external_body]
pub struct ExJwk(alcoholic_jwt::JWK);

#[verifier::external_type_specification]
#[verifier::external_body]
pub struct ExValidJwt(alcoholic_jwt::ValidJWT);

#[verifier::external_type_specification]
#[verifier::external_body]
pub struct ExValidationError(alcoholic_jwt::ValidationError);

/// Why a token was not admitted. Callers at the trust boundary collapse all
/// of these into one rejection.
#[derive(Debug, Clone, Copy, PartialEq, Eq, Structural)]
pub enum VerifyError {
    /// The token is not three dot-separated segments, or its header does not
    /// decode, or the header carries no key identifier.
    MalformedToken,
    /// The key set could not be fetched or parsed.
    FetchFailed,
    /// The header names a key that the fetched key set does not hold.
    KeyNotFound,
    /// Signature, issuer, audience, subject or expiry check failed.
    ClaimValidation,
}

/// What the verifier is configured with: the expected issuer and audience and
/// how many seconds past `exp` a token is still tolerated.
pub struct VerifyPolicy {
    pub issuer: String,
    pub audience: String,
    pub leeway_secs: u64,
}

/// Number of `.` characters in `s`.
pub open spec fn dot_count(s: Seq<char>) -> nat
    decreases s.len(),
{
    if s.len() == 0 {
        0
    } else {
        dot_count(s.drop_last()) + if s.last() == '.' { 1nat } else { 0nat }
    }
}

/// A token is structurally a JWT when it has exactly three dot-separated
/// segments.
pub open spec fn three_segments(s: Seq<char>) -> bool {
    dot_count(s) == 2
}

/// The key identifier that the token's header carries: `None` when the header
/// does not decode, `Some(None)` when it decodes without a `kid`.
pub uninterp spec fn header_kid(token: Seq<char>) -> Option<Option<Seq<char>>>;

/// The key identifiers of a key set, one per key, in the order of the set.
pub uninterp spec fn key_ids(keys: JWKS) -> Seq<Option<Seq<char>>>;

pub open spec fn opt_string_view(o: Option<String>) -> Option<Seq<char>> {
    match o {
        Some(s) => Some(s@),
        None => None,
    }
}

/// Relies on alcoholic_jwt::token_kid: splits off the header segment, decodes
/// it and reads its `kid`. It fails when the token holds no `.`.
#[verifier::external_body]
fn decode_kid(token: &str) -> (r: Result<Option<String>, ValidationError>)
    ensures
        match r {
            Ok(k) => header_kid(token@) == Some(opt_string_view(k)),
            Err(_) => header_kid(token@) is None,
        },
        !token@.contains('.') ==> r is Err,
{
    alcoholic_jwt::token_kid(token)
}

/// The key that `JWKS::find` hands out for a key identifier the set holds.
pub uninterp spec fn key_for(keys: JWKS, kid: Seq<char>) -> JWK;

/// What a token's signature-and-claims check yields under `key`: `None` when
/// the RS256 signature does not verify or the `iss` claim differs from
/// `issuer`, the `aud` claim does not name `audience`, or `sub` is missing;
/// otherwise the `exp` claim (when an integer) and the `sub` claim.
pub uninterp spec fn checked_claims(
    token: Seq<char>,
    key: JWK,
    issuer: Seq<char>,
    audience: Seq<char>,
) -> Option<(Option<u64>, Option<Seq<char>>)>;

/// Relies on alcoholic_jwt::JWKS::find: the first key whose `kid` equals the
/// given identifier, if there is one.
#[verifier::external_body]
fn find_key<'a>(keys: &'a JWKS, kid: &str) -> (r: Option<&'a JWK>)
    ensures
        r is Some <==> key_ids(*keys).contains(Some(kid@)),
        r matches Some(k) ==> *k == key_for(*keys, kid@),
{
    keys.find(kid)
}

/// Relies on alcoholic_jwt::validate, asked for exactly the issuer, audience
/// and subject-present validations (not its clock-based expiry check), and
/// reads the `exp` and `sub` claims out of the validated token.
#[verifier::external_body]
fn check_signature_and_claims(token: &str, key: &JWK, issuer: &str, audience: &str) -> (r: Result<
    (Option<u64>, Option<String>),
    ValidationError,
>)
    ensures
        match r {
            Ok((exp, sub)) => checked_claims(token@, *key, issuer@, audience@) == Some(
                (exp, opt_string_view(sub)),
            ),
            Err(_) => checked_claims(token@, *key, issuer@, audience@) is None,
        },
{
    let checks = vec![
        Validation::Issuer(issuer.to_string()),
        Validation::Audience(audience.to_string()),
        Validation::SubjectPresent,
    ];
    alcoholic_jwt::validate(token, key, checks).map(
        |v: ValidJWT|
            (
                v.claims.get("exp").and_then(|e| e.as_u64()),
                v.claims.get("sub").and_then(|s| s.as_str()).map(|s| s.to_string()),
            ),
    )
}

/// The path under an issuer where its signing-key set is published.
pub open spec fn key_set_suffix() -> Seq<char> {
    "/.well-known/jwks.json"@
}

/// The address of an issuer's signing-key set: the issuer base URL followed by
/// the well-known key-set path.
pub fn key_set_url(authority: &str) -> (r: String)
    ensures
        r@ == authority@ + key_set_suffix(),
{
    let mut url = String::from_str(authority);
    url.append("/.well-known/jwks.json");
    url
}

/// Counts the segment separators of a token and tells whether it has the
/// three-segment shape of a JWT.
pub fn has_three_segments(token: &str) -> (r: bool)
    ensures
        r == three_segments(token@),
{
    let n = token.unicode_len();
    let mut dots: usize = 0;
    let mut i: usize = 0;
    while i < n
        invariant
            n == token@.len(),
            i <= n,
            dots <= i,
            dots == dot_count(token@.subrange(0, i as int)),
        decreases n - i,
    {
        let c = token.get_char(i);
        assert(token@.subrange(0, i + 1).drop_last() =~= token@.subrange(0, i as int));
        if c == '.' {
            dots = dots + 1;
        }
        i = i + 1;
    }
    assert(token@.subrange(0, n as int) =~= token@);
    dots == 2
}

pub open spec fn opt_str_view(o: Option<&str>) -> Option<Seq<char>> {
    match o {
        Some(s) => Some(s@),
        None => None,
    }
}

/// The verdict on the claims of a token: admitted exactly when the signature
/// and issuer/audience check passed, `sub` is present and not empty, and `exp`
/// lies strictly after `now - leeway`.
pub open spec fn claims_verdict(
    checked: bool,
    exp: Option<u64>,
    sub: Option<Seq<char>>,
    now: u64,
    leeway: u64,
) -> Result<(), VerifyError> {
    if checked && (sub matches Some(s) && s.len() > 0) && (exp matches Some(e) && e as int
        + leeway as int > now as int) {
        Ok(())
    } else {
        Err(VerifyError::ClaimValidation)
    }
}

/// The verdict on a token against a key set, in the order the checks run:
/// shape, key identifier, key lookup, then signature and claims.
pub open spec fn token_verdict(
    token: Seq<char>,
    keys: JWKS,
    issuer: Seq<char>,
    audience: Seq<char>,
    now: u64,
    leeway: u64,
) -> Result<(), VerifyError> {
    if !three_segments(token) {
        Err(VerifyError::MalformedToken)
    } else {
        match header_kid(token) {
            Some(Some(k)) => if !key_ids(keys).contains(Some(k)) {
                Err(VerifyError::KeyNotFound)
            } else {
                match checked_claims(token, key_for(keys, k), issuer, audience) {
                    None => Err(VerifyError::ClaimValidation),
                    Some((exp, sub)) => claims_verdict(true, exp, sub, now, leeway),
                }
            },
            _ => Err(VerifyError::MalformedToken),
        }
    }
}

/// Decides on the claims once the outside check has run: `checked` is whether
/// signature, issuer, audience and subject presence passed, `exp` the expiry
/// claim in seconds since the epoch, `sub` the subject claim, `now` the
/// current time in seconds.
pub fn judge_claims(checked: bool, exp: Option<u64>, sub: Option<&str>, now: u64, leeway: u64) -> (r:
    Result<(), VerifyError>)
    ensures
        r == claims_verdict(checked, exp, opt_str_view(sub), now, leeway),
{
    if !checked {
        return Err(VerifyError::ClaimValidation);
    }
    let sub_ok = match sub {
        Some(s) => s.unicode_len() > 0,
        None => false,
    };
    if !sub_ok {
        return Err(VerifyError::ClaimValidation);
    }
    match exp {
        None => Err(VerifyError::ClaimValidation),
        Some(e) => {
            if (e as u128) + (leeway as u128) > now as u128 {
                Ok(())
            } else {
                Err(VerifyError::ClaimValidation)
            }
        },
    }
}

/// Verifies a bearer token against a fetched key set at time `now` (seconds
/// since the epoch). The token is first checked for shape, then its header's
/// key identifier is resolved in `keys`, then signature and claims are checked.
/// A key identifier that the set lacks is a `KeyNotFound` rejection.
pub fn validate_token(token: &str, keys: &JWKS, policy: &VerifyPolicy, now: u64) -> (r: Result<
    (),
    VerifyError,
>)
    ensures
        r == token_verdict(
            token@,
            *keys,
            policy.issuer@,
            policy.audience@,
            now,
            policy.leeway_secs,
        ),
{
    if !has_three_segments(token) {
        return Err(VerifyError::MalformedToken);
    }
    let kid = match decode_kid(token) {
        Ok(Some(k)) => k,
        _ => return Err(VerifyError::MalformedToken),
    };
    let key = match find_key(keys, kid.as_str()) {
        Some(k) => k,
        None => return Err(VerifyError::KeyNotFound),
    };
    match check_signature_and_claims(
        token,
        key,
        policy.issuer.as_str(),
        policy.audience.as_str(),
    ) {
        Ok((exp, sub)) => {
            let sub_text: Option<&str> = match &sub {
                Some(s) => Some(s.as_str()),
                None => None,
            };
            judge_claims(true, exp, sub_text, now, policy.leeway_secs)
        },
        Err(_) => Err(VerifyError::ClaimValidation),
    }
}

/// No key identifier occurs twice among the keys of a set, so a lookup by
/// identifier yields at most one key. Keys without an identifier are never
/// looked up and may repeat.
pub open spec fn distinct_ids(ids: Seq<Option<Seq<char>>>) -> bool {
    forall|a: int, b: int|
        0 <= a < b < ids.len() && #[trigger] ids[a] is Some ==> ids[a] != #[trigger] ids[b]
}

pub open spec fn ids_view(ids: Seq<Option<String>>) -> Seq<Option<Seq<char>>> {
    ids.map_values(|o: Option<String>| opt_string_view(o))
}

/// Tells whether the key identifiers of a key-set document, in order, are free
/// of repeats.
pub fn key_ids_distinct(ids: &Vec<Option<String>>) -> (r: bool)
    ensures
        r == distinct_ids(ids_view(ids@)),
{
    let ghost v = ids_view(ids@);
    let n = ids.len();
    assert(forall|i: int| 0 <= i < n ==> #[trigger] v[i] == opt_string_view(ids@[i]));
    let mut a: usize = 0;
    while a < n
        invariant
            n == ids@.len(),
            v == ids_view(ids@),
            v.len() == n,
            forall|i: int| 0 <= i < n ==> #[trigger] v[i] == opt_string_view(ids@[i]),
            a <= n,
            forall|x: int, y: int|
                0 <= x < a && x < y < n && #[trigger] v[x] is Some ==> v[x] != #[trigger] v[y],
        decreases n - a,
    {
        match &ids[a] {
            None => {},
            Some(ka) => {
                let mut b: usize = a + 1;
                while b < n
                    invariant
                        n == ids@.len(),
                        v == ids_view(ids@),
                        v.len() == n,
                        forall|i: int| 0 <= i < n ==> #[trigger] v[i] == opt_string_view(ids@[i]),
                        a < b <= n,
                        v[a as int] == Some(ka@),
                        forall|y: int| a < y < b ==> v[a as int] != #[trigger] v[y],
                    decreases n - b,
                {
                    match &ids[b] {
                        Some(kb) => {
                            if ka.eq(kb) {
                                assert(v[b as int] == Some(kb@));
                                assert(v[a as int] is Some && v[a as int] == v[b as int]);
                                assert(!distinct_ids(v));
                                return false;
                            }
                        },
                        None => {},
                    }
                    b = b + 1;
                }
            },
        }
        a = a + 1;
    }
    true
}

/// A well-formed token whose key identifier the key set lacks is rejected as
/// signed by an unknown key, whatever its claims.
pub proof fn unknown_key_rejected(
    token: Seq<char>,
    keys: JWKS,
    issuer: Seq<char>,
    audience: Seq<char>,
    now: u64,
    leeway: u64,
    kid: Seq<char>,
)
    requires
        three_segments(token),
        header_kid(token) == Some(Some(kid)),
        !key_ids(keys).contains(Some(kid)),
    ensures
        token_verdict(token, keys, issuer, audience, now, leeway) == Err::<(), VerifyError>(
            VerifyError::KeyNotFound,
        ),
{
}

/// With no leeway, a token whose `exp` is not after `now` is rejected, even
/// when its signature and every other claim check out.
pub proof fn expired_token_rejected(
    token: Seq<char>,
    keys: JWKS,
    issuer: Seq<char>,
    audience: Seq<char>,
    now: u64,
    kid: Seq<char>,
    exp: u64,
    sub: Option<Seq<char>>,
)
    requires
        header_kid(token) == Some(Some(kid)),
        checked_claims(token, key_for(keys, kid), issuer, audience) == Some((Some(exp), sub)),
        exp <= now,
    ensures
        token_verdict(token, keys, issuer, audience, now, 0) is Err,
{
}

/// A well-formed token signed by a key of the set, whose issuer, audience and
/// non-empty subject check out and whose `exp` is after `now`, is admitted,
/// whatever the leeway.
pub proof fn live_token_admitted(
    token: Seq<char>,
    keys: JWKS,
    issuer: Seq<char>,
    audience: Seq<char>,
    now: u64,
    leeway: u64,
    kid: Seq<char>,
    exp: u64,
    sub: Seq<char>,
)
    requires
        three_segments(token),
        header_kid(token) == Some(Some(kid)),
        key_ids(keys).contains(Some(kid)),
        checked_claims(token, key_for(keys, kid), issuer, audience) == Some((Some(exp), Some(sub))),
        sub.len() > 0,
        exp > now,
    ensures
        token_verdict(token, keys, issuer, audience, now, leeway) == Ok::<(), VerifyError>(()),
{
}

/// A token whose subject is missing or empty is never admitted.
pub proof fn empty_subject_rejected(
    token: Seq<char>,
    keys: JWKS,
    issuer: Seq<char>,
    audience: Seq<char>,
    now: u64,
    leeway: u64,
    kid: Seq<char>,
    exp: Option<u64>,
    sub: Option<Seq<char>>,
)
    requires
        header_kid(token) == Some(Some(kid)),
        checked_claims(token, key_for(keys, kid), issuer, audience) == Some((exp, sub)),
        !(sub matches Some(s) && s.len() > 0),
    ensures
        token_verdict(token, keys, issuer, audience, now, leeway) is Err,
{
}

} // verus!
