//! Issuing and verifying signed bearer tokens.
//!
//! A token is the textual claims payload, a dot, and the HMAC-SHA256
//! signature of the payload under the process secret. Verification
//! re-parses the payload, recomputes the signature, and checks the expiry
//! instant explicitly.

use vstd::prelude::*;
use crate::codec::{
    ClaimsView, Subject, SubjectView, TokenCliams, decode_claims, enc_claims, encode_claims,
    parse_claims_prefix, subject_wf,
};
use crate::errors::AuthError;

verus! {

/// How long a token stays valid, in seconds.
pub const TOKEN_LIFETIME_SECONDS: u64 = 36000;

/// The signature jsonwebtoken computes for a message under a secret:
/// the base64url rendering of the HMAC-SHA256 tag. It depends on the
/// message and the secret alone.
pub uninterp spec fn hmac_tag(message: Seq<char>, secret: Seq<char>) -> Seq<char>;

/// Relies on `jsonwebtoken::crypto::sign` with `Algorithm::HS256`, which
/// renders the HMAC-SHA256 tag of the message under the secret as a
/// base64url string; for the HMAC algorithms its source always returns
/// `Ok`, so the unwrap cannot fail.
#[verifier::external_body]
fn hmac_sign(message: &str, secret: &str) -> (tag: String)
    ensures
        tag@ == hmac_tag(message@, secret@),
{
    jsonwebtoken::crypto::sign(
        message.as_bytes(),
        &jsonwebtoken::EncodingKey::from_secret(secret.as_bytes()),
        jsonwebtoken::Algorithm::HS256,
    ).unwrap()
}

/// The token minted for a claims payload under a secret.
pub open spec fn spec_token(c: ClaimsView, secret: Seq<char>) -> Seq<char> {
    enc_claims(c) + seq!['.'] + hmac_tag(enc_claims(c), secret)
}

/// What verification concludes about a token string at instant `now`:
/// the claims when the payload parses, the signature matches and the
/// expiry instant lies ahead; the precise rejection reason otherwise.
pub open spec fn spec_verify(token: Seq<char>, secret: Seq<char>, now: u64) -> Result<
    ClaimsView,
    AuthError,
> {
    match parse_claims_prefix(token) {
        None => Err(AuthError::Malformed),
        Some((c, j)) => if !(j < token.len() && token[j] == '.') {
            Err(AuthError::Malformed)
        } else if token.subrange(j + 1, token.len() as int) != hmac_tag(
            token.subrange(0, j),
            secret,
        ) {
            Err(AuthError::InvalidSignature)
        } else if now >= c.exp {
            Err(AuthError::Expired)
        } else {
            Ok(c)
        },
    }
}

/// The stateless token codec: every operation is a pure function of the
/// secret and its inputs.
pub struct JwtService {
    secret_key: String,
}

impl JwtService {
    /// The signing secret this codec was built around.
    pub closed spec fn secret(&self) -> Seq<char> {
        self.secret_key@
    }

    /// Builds the codec around the signing secret the process loaded at
    /// start; the secret is never exposed again.
    pub fn init(secret_key: String) -> (r: JwtService)
        ensures
            r.secret() == secret_key@,
    {
        JwtService { secret_key }
    }

    /// The claims minted for `subject` at instant `now`.
    pub open spec fn spec_claims_for(subject: SubjectView, now: u64) -> ClaimsView
        recommends
            now + TOKEN_LIFETIME_SECONDS <= u64::MAX,
    {
        ClaimsView { user: Some(subject), iat: now, exp: (now + TOKEN_LIFETIME_SECONDS) as u64 }
    }

    /// Issues a signed token for `subject` at instant `now`: the claims
    /// carry `now` as issue instant and `now` plus the fixed lifetime as
    /// expiry instant.
    #[allow(non_snake_case)]
    pub fn GenerateToken(&self, user: Subject, now: u64) -> (token: String)
        requires
            now + TOKEN_LIFETIME_SECONDS <= u64::MAX,
        ensures
            token@ == spec_token(Self::spec_claims_for(user@, now), self.secret()),
    {
        let claims = TokenCliams { user: Some(user), iat: now, exp: now + TOKEN_LIFETIME_SECONDS };
        let mut token = encode_claims(&claims);
        let tag = hmac_sign(token.as_str(), self.secret_key.as_str());
        token.append(".");
        token.append(tag.as_str());
        proof {
            reveal_strlit(".");
            assert(token@ =~= spec_token(Self::spec_claims_for(claims.user->0@, now), self.secret()));
        }
        token
    }

    /// Verifies a token string at instant `now`: parses the payload,
    /// recomputes the signature, and checks the expiry instant. Returns
    /// the claims, or the precise rejection reason.
    pub fn validate_token(&self, token: &str, now: u64) -> (r: Result<TokenCliams, AuthError>)
        ensures
            match r {
                Ok(c) => spec_verify(token@, self.secret(), now) == Ok::<ClaimsView, AuthError>(
                    c@,
                ),
                Err(e) => spec_verify(token@, self.secret(), now) == Err::<ClaimsView, AuthError>(
                    e,
                ),
            },
    {
        let len: usize = token.unicode_len();
        match decode_claims(token) {
            None => Err(AuthError::Malformed),
            Some((claims, j)) => {
                if !(j < len && token.get_char(j) == '.') {
                    Err(AuthError::Malformed)
                } else {
                    let msg = token.substring_char(0, j);
                    let tag = token.substring_char(j + 1, len);
                    let expected = hmac_sign(msg, self.secret_key.as_str());
                    if !crate::policy::str_equal(tag, expected.as_str()) {
                        Err(AuthError::InvalidSignature)
                    } else if now >= claims.exp {
                        Err(AuthError::Expired)
                    } else {
                        Ok(claims)
                    }
                }
            },
        }
    }
}

/// Round trip with expiry boundary: a token minted for `subject` at
/// `now_issue` verifies at any later instant strictly before its expiry
/// to exactly the minted claims — the subject comes back intact — and is
/// rejected as expired from the expiry instant on.
#[verifier::spinoff_prover]
#[verifier::rlimit(60)]
pub proof fn lemma_issue_verify_round_trip(
    subject: SubjectView,
    secret: Seq<char>,
    now_issue: u64,
    now_check: u64,
)
    requires
        subject_wf(subject),
        now_issue + TOKEN_LIFETIME_SECONDS <= u64::MAX,
    ensures
        ({
            let c = JwtService::spec_claims_for(subject, now_issue);
            spec_verify(spec_token(c, secret), secret, now_check) == if now_check >= c.exp {
                Err::<ClaimsView, AuthError>(AuthError::Expired)
            } else {
                Ok::<ClaimsView, AuthError>(c)
            }
        }),
{
    let c = JwtService::spec_claims_for(subject, now_issue);
    let enc = enc_claims(c);
    let tag = hmac_tag(enc, secret);
    let t = spec_token(c, secret);
    crate::codec::lemma_parse_claims_of_enc(c, seq!['.'] + tag);
    assert(t == enc + (seq!['.'] + tag)) by {
        assert(t =~= enc + (seq!['.'] + tag));
    }
    let j = enc.len() as int;
    assert(t[j] == '.');
    assert(t.subrange(0, j) =~= enc);
    assert(t.subrange(j + 1, t.len() as int) =~= tag);
}

/// What acceptance means: a token passes verification only when its
/// payload parses to the returned claims, the part after the dot is
/// exactly the HMAC tag of the part before it, and the expiry instant
/// lies ahead. A change to a token that leaves payload and signature
/// inconsistent is therefore always rejected; an altered token can pass
/// only by presenting the correct tag of its altered payload, which is
/// what the collision resistance of HMAC (outside the logic) rules out.
pub proof fn lemma_verify_ok_structure(token: Seq<char>, secret: Seq<char>, now: u64)
    requires
        spec_verify(token, secret, now) is Ok,
    ensures
        ({
            let p = parse_claims_prefix(token);
            let pair = p->Some_0;
            let c = pair.0;
            let j = pair.1;
            &&& p is Some
            &&& j < token.len()
            &&& token[j] == '.'
            &&& token.subrange(j + 1, token.len() as int) == hmac_tag(
                token.subrange(0, j),
                secret,
            )
            &&& c.exp > now
            &&& spec_verify(token, secret, now) == Ok::<ClaimsView, AuthError>(c)
        }),
{
}

} // verus!
