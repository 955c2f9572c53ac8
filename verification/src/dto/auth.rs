//! Tokens, their claims and the profile of the user they stand for.

use vstd::prelude::*;
use jsonwebtoken::jwk::JwkSet;
use crate::config::OauthSettings;
use crate::errors::{token_failure_reason, AppError, TokenFailure};
use crate::keys::{
    algorithm_name, find_key, key_records, lemma_select_key_is_first_match, select_key,
    KeyFamily, KeyFamilyView, KeyRecordView, SigningAlgorithm,
};
use crate::token::{
    accept_audience, accept_issuer, answer_for_published_key, claim_set, decode_document,
    document_claims, failure_kind, header_key_id, member_accepted, outcome_of_check,
    published_key_answer, rsa_components_accepted, rsa_key, signature_holds, text_member,
    token_key_id, token_payload, validation_for, KeyMaterial,
};
use serde_json::Value;

verus! {

/// The decoded body of a bearer token.
#[derive(Debug, Clone, PartialEq, Eq)]
pub struct Claims {
    pub iss: String,
    pub sub: String,
    pub aud: String,
    pub exp: i64,
    pub iat: i64,
    pub acr: String,
}

/// The claims as mathematical values.
pub ghost struct ClaimsView {
    pub iss: Seq<char>,
    pub sub: Seq<char>,
    pub aud: Seq<char>,
    pub exp: int,
    pub iat: int,
    pub acr: Seq<char>,
}

impl View for Claims {
    type V = ClaimsView;

    open spec fn view(&self) -> ClaimsView {
        ClaimsView {
            iss: self.iss@,
            sub: self.sub@,
            aud: self.aud@,
            exp: self.exp as int,
            iat: self.iat as int,
            acr: self.acr@,
        }
    }
}

/// A token handed in for sign-in.
#[derive(Debug, Clone, PartialEq, Eq)]
pub struct AuthRequest {
    pub access_token: String,
}

/// The pair of tokens that a sign-in is answered with.
#[derive(Debug, Clone, PartialEq, Eq)]
pub struct AuthResponse {
    pub access_token: String,
    pub refresh_token: String,
}

/// A refresh token handed in for a new pair of tokens.
#[derive(Debug, Clone, PartialEq, Eq)]
pub struct RefreshRequest {
    pub refresh_token: String,
}

/// The profile that the identity provider keeps for a subject.
#[derive(Debug, Clone, PartialEq, Eq)]
pub struct UserInfo {
    pub email: String,
    pub email_verified: bool,
    pub sub: String,
}

/// The profile as mathematical values.
pub ghost struct UserInfoView {
    pub email: Seq<char>,
    pub email_verified: bool,
    pub sub: Seq<char>,
}

impl View for UserInfo {
    type V = UserInfoView;

    open spec fn view(&self) -> UserInfoView {
        UserInfoView { email: self.email@, email_verified: self.email_verified, sub: self.sub@ }
    }
}

impl UserInfo {
    /// A second copy of the profile.
    pub fn duplicate(&self) -> (copy: UserInfo)
        ensures
            copy@ == self@,
    {
        UserInfo {
            email: self.email.clone(),
            email_verified: self.email_verified,
            sub: self.sub.clone(),
        }
    }
}

/// The raw credential of a request. Nothing about it has been verified.
#[derive(Debug, Clone, PartialEq, Eq)]
pub struct BearerToken {
    pub access_token: String,
}

/// The answer is a refusal as unauthorized, with `reason` shown to the caller.
pub open spec fn refused<T>(answer: Result<T, AppError>, reason: Seq<char>) -> bool {
    answer matches Err(err) && err.is_authorization(reason)
}

/// The answer is a refusal with one of the reasons that a token is turned down for.
pub open spec fn turned_down<T>(answer: Result<T, AppError>) -> bool {
    exists|kind: TokenFailure| refused(answer, #[trigger] token_failure_reason(kind))
}

/// What is answered once `token` has been checked with a key made from
/// `material`, with `algorithm`, and with `issuer` and `audience` as the only
/// ones that pass: the answer that belongs to some outcome of that check. A
/// document that was accepted is the payload of this token, its signature
/// holds under the key, and issuer and audience of the payload, as far as it
/// names them as texts, are the two that pass. A token whose signature does
/// not hold is not turned down for its expiry, its issuer or its audience.
pub open spec fn checked_answer(
    token: Seq<char>,
    material: KeyMaterial,
    algorithm: SigningAlgorithm,
    issuer: Seq<char>,
    audience: Seq<char>,
    answer: Result<Claims, AppError>,
) -> bool {
    exists|outcome: Result<Value, TokenFailure>|
        {
            &&& #[trigger] published_key_answer(outcome, answer)
            &&& outcome_of_check(token, material, seq![algorithm], outcome)
            &&& outcome matches Ok(document) ==> {
                &&& member_accepted(claim_set(document), "iss"@, set![issuer])
                &&& member_accepted(claim_set(document), "aud"@, set![audience])
            }
        }
}

/// What `get_claims` answers for a token, given the keys that are published.
///
/// A token is refused as "Unauthorized" where its header cannot be read or
/// names no key, where no published key has the key id it names, and where
/// that key is no RSA key. Of an RSA key modulus and exponent are read
/// first: where they cannot be read the token is refused as "Invalid token".
/// A key that advertises no algorithm refuses the token as "Unauthorized".
/// Otherwise signature and claims decide, and the answer is a
/// `checked_answer` for this token, this key and the algorithm it advertises.
pub open spec fn claims_answer(
    keys: Seq<KeyRecordView>,
    issuer: Seq<char>,
    audience: Seq<char>,
    token: Seq<char>,
    answer: Result<Claims, AppError>,
) -> bool {
    match header_key_id(token) {
        Some(Some(kid)) => match select_key(keys, kid) {
            Some(key) => match key.family {
                KeyFamilyView::Rsa { modulus, exponent } => if !rsa_components_accepted(
                    modulus,
                    exponent,
                ) {
                    refused(answer, "Invalid token"@)
                } else {
                    match key.algorithm {
                        Some(algorithm) => checked_answer(
                            token,
                            KeyMaterial::Rsa { modulus, exponent },
                            algorithm,
                            issuer,
                            audience,
                            answer,
                        ),
                        None => refused(answer, "Unauthorized"@),
                    }
                },
                _ => refused(answer, "Unauthorized"@),
            },
            None => refused(answer, "Unauthorized"@),
        },
        _ => refused(answer, "Unauthorized"@),
    }
}

/// The key that `get_claims` checks a token against: the first published key
/// with the key id of the token, where it is an RSA key whose components can
/// be read and which advertises its algorithm.
pub open spec fn checking_key(keys: Seq<KeyRecordView>, token: Seq<char>) -> Option<
    (KeyMaterial, SigningAlgorithm),
> {
    match header_key_id(token) {
        Some(Some(kid)) => match select_key(keys, kid) {
            Some(key) => match (key.family, key.algorithm) {
                (KeyFamilyView::Rsa { modulus, exponent }, Some(algorithm)) => if
                    rsa_components_accepted(modulus, exponent) {
                    Some((KeyMaterial::Rsa { modulus, exponent }, algorithm))
                } else {
                    None
                },
                _ => None,
            },
            None => None,
        },
        _ => None,
    }
}

/// The claims are those that the payload of `token` holds, member for member.
pub open spec fn claims_of_token(token: Seq<char>, claims: Claims) -> bool {
    token_payload(token) matches Some(members) && document_claims(members) == Some(claims@)
}

/// Verifies a bearer token against the published keys and hands out its claims.
///
/// The payload of the token is decoded as a JSON document and the claims
/// are read from it member by member. A payload that repeats `iat` or `acr`
/// is therefore read as it stands last.
pub fn get_claims(key_set: &JwkSet, oauth_settings: &OauthSettings, token: &str) -> (answer: Result<
    Claims,
    AppError,
>)
    ensures
        claims_answer(
            key_records(*key_set),
            oauth_settings.issuer@,
            oauth_settings.audience@,
            token@,
            answer,
        ),
        answer matches Ok(claims) ==> {
            &&& claims_of_token(token@, claims)
            &&& checking_key(key_records(*key_set), token@) matches Some((material, algorithm))
            &&& signature_holds(token@, material, seq![algorithm])
            &&& claims@.iss == oauth_settings.issuer@
            &&& claims@.aud == oauth_settings.audience@
        },
{
    let kid = match token_key_id(token) {
        Ok(Some(kid)) => kid,
        _ => return Err(AppError::unauthorized("Unauthorized")),
    };
    let key = match find_key(key_set, kid.as_str()) {
        Some(key) => key,
        None => return Err(AppError::unauthorized("Unauthorized")),
    };
    match key.family {
        KeyFamily::Rsa { modulus, exponent } => {
            let decoding_key = match rsa_key(modulus.as_str(), exponent.as_str()) {
                Ok(decoding_key) => decoding_key,
                // A key that cannot be built is no failure with a reason of its own.
                Err(_) => return Err(AppError::from_token_failure(TokenFailure::Other)),
            };
            let algorithm = match key.algorithm {
                Some(algorithm) => algorithm,
                None => return Err(AppError::unauthorized("Unauthorized")),
            };
            let mut validation = validation_for(algorithm);
            accept_audience(&mut validation, oauth_settings.audience.as_str());
            accept_issuer(&mut validation, oauth_settings.issuer.as_str());
            let outcome = match decode_document(token, &decoding_key, &validation) {
                Ok(document) => Ok(document),
                Err(err) => Err(failure_kind(&err)),
            };
            let ghost decoded = outcome;
            let answer = answer_for_published_key(outcome);
            assert(checked_answer(
                token@,
                KeyMaterial::Rsa { modulus: modulus@, exponent: exponent@ },
                algorithm_name(algorithm),
                oauth_settings.issuer@,
                oauth_settings.audience@,
                answer,
            )) by {
                assert(published_key_answer(decoded, answer));
            }
            proof {
                lemma_checked_answer_is_of_the_token(
                    token@,
                    KeyMaterial::Rsa { modulus: modulus@, exponent: exponent@ },
                    algorithm_name(algorithm),
                    oauth_settings.issuer@,
                    oauth_settings.audience@,
                    answer,
                );
            }
            answer
        },
        _ => Err(AppError::unauthorized("Unauthorized")),
    }
}

/// A token that names a key which the published set does not hold is
/// refused as "Unauthorized", whatever it claims and whoever signed it.
pub proof fn lemma_unknown_key_is_refused(
    keys: Seq<KeyRecordView>,
    issuer: Seq<char>,
    audience: Seq<char>,
    token: Seq<char>,
    kid: Seq<char>,
    answer: Result<Claims, AppError>,
)
    requires
        header_key_id(token) == Some(Some(kid)),
        forall|at: int| 0 <= at < keys.len() ==> (#[trigger] keys[at]).key_id != Some(kid),
        claims_answer(keys, issuer, audience, token, answer),
    ensures
        refused(answer, "Unauthorized"@),
{
    lemma_select_key_is_first_match(keys, kid);
    if select_key(keys, kid) is Some {
        let found = select_key(keys, kid)->0;
        let at = choose|at: int| 0 <= at < keys.len() && #[trigger] keys[at] == found;
        assert(keys[at].key_id == Some(kid));
    }
}

/// A token without a readable header, or whose header names no key, is
/// refused as "Unauthorized": never accepted, never an internal failure.
pub proof fn lemma_token_without_key_id_is_refused(
    keys: Seq<KeyRecordView>,
    issuer: Seq<char>,
    audience: Seq<char>,
    token: Seq<char>,
    answer: Result<Claims, AppError>,
)
    requires
        !(header_key_id(token) matches Some(Some(_))),
        claims_answer(keys, issuer, audience, token, answer),
    ensures
        refused(answer, "Unauthorized"@),
        answer->Err_0.status() == 401,
{
}

/// Whatever is wrong with a token, verification ends in an authorization
/// failure and in no other kind of failure.
pub proof fn lemma_refusals_are_authorization_failures(
    keys: Seq<KeyRecordView>,
    issuer: Seq<char>,
    audience: Seq<char>,
    token: Seq<char>,
    answer: Result<Claims, AppError>,
)
    requires
        claims_answer(keys, issuer, audience, token, answer),
        answer is Err,
    ensures
        answer->Err_0 is AuthorizationError,
        answer->Err_0.status() == 401,
{
}

/// What follows from a `checked_answer`: a refusal has one of the reasons
/// that a token is turned down for; claims that are handed out are those of
/// the payload of the token, the token is signed with the key, and it was
/// issued by the issuer for the audience.
pub proof fn lemma_checked_answer_is_of_the_token(
    token: Seq<char>,
    material: KeyMaterial,
    algorithm: SigningAlgorithm,
    issuer: Seq<char>,
    audience: Seq<char>,
    answer: Result<Claims, AppError>,
)
    requires
        checked_answer(token, material, algorithm, issuer, audience, answer),
    ensures
        answer is Err ==> turned_down(answer),
        !signature_holds(token, material, seq![algorithm]) ==> refused(answer, "Invalid token"@),
        answer matches Ok(claims) ==> {
            &&& claims_of_token(token, claims)
            &&& signature_holds(token, material, seq![algorithm])
            &&& claims@.iss == issuer
            &&& claims@.aud == audience
        },
{
    let outcome = choose|outcome: Result<Value, TokenFailure>|
        {
            &&& #[trigger] published_key_answer(outcome, answer)
            &&& outcome_of_check(token, material, seq![algorithm], outcome)
            &&& outcome matches Ok(document) ==> {
                &&& member_accepted(claim_set(document), "iss"@, set![issuer])
                &&& member_accepted(claim_set(document), "aud"@, set![audience])
            }
        };
    match outcome {
        Ok(_) => {
            if answer is Err {
                assert(refused(answer, token_failure_reason(TokenFailure::Other)));
            }
        },
        Err(kind) => {
            assert(refused(answer, token_failure_reason(kind)));
        },
    }
}

/// Claims are handed out only for a token that has a key to be checked
/// against and whose signature holds under that key and the algorithm that
/// the key advertises; and they are the claims of the payload of that token.
pub proof fn lemma_accepted_token_is_signed_and_read(
    keys: Seq<KeyRecordView>,
    issuer: Seq<char>,
    audience: Seq<char>,
    token: Seq<char>,
    answer: Result<Claims, AppError>,
)
    requires
        claims_answer(keys, issuer, audience, token, answer),
        answer is Ok,
    ensures
        checking_key(keys, token) matches Some((material, algorithm)) && signature_holds(
            token,
            material,
            seq![algorithm],
        ),
        claims_of_token(token, answer->Ok_0),
{
    let key = select_key(keys, header_key_id(token)->0->0)->0;
    lemma_checked_answer_is_of_the_token(
        token,
        KeyMaterial::Rsa { modulus: key.family->modulus, exponent: key.family->exponent },
        key.algorithm->0,
        issuer,
        audience,
        answer,
    );
}

/// A token whose signature does not hold under the key it is checked
/// against is refused as "Invalid token", whatever it claims: so is a token
/// that was signed with a key which the published set does not hold, under
/// the key id of one that it holds.
pub proof fn lemma_token_of_another_signer_is_invalid(
    keys: Seq<KeyRecordView>,
    issuer: Seq<char>,
    audience: Seq<char>,
    token: Seq<char>,
    answer: Result<Claims, AppError>,
)
    requires
        claims_answer(keys, issuer, audience, token, answer),
        checking_key(keys, token) matches Some((material, algorithm)) && !signature_holds(
            token,
            material,
            seq![algorithm],
        ),
    ensures
        refused(answer, "Invalid token"@),
{
    let key = select_key(keys, header_key_id(token)->0->0)->0;
    lemma_checked_answer_is_of_the_token(
        token,
        KeyMaterial::Rsa { modulus: key.family->modulus, exponent: key.family->exponent },
        key.algorithm->0,
        issuer,
        audience,
        answer,
    );
}

/// Claims are handed out only for a token that was issued by the configured
/// issuer for the configured audience.
pub proof fn lemma_accepted_claims_match_settings(
    keys: Seq<KeyRecordView>,
    issuer: Seq<char>,
    audience: Seq<char>,
    token: Seq<char>,
    answer: Result<Claims, AppError>,
)
    requires
        claims_answer(keys, issuer, audience, token, answer),
        answer is Ok,
    ensures
        answer->Ok_0@.iss == issuer,
        answer->Ok_0@.aud == audience,
{
    let key = select_key(keys, header_key_id(token)->0->0)->0;
    lemma_checked_answer_is_of_the_token(
        token,
        KeyMaterial::Rsa { modulus: key.family->modulus, exponent: key.family->exponent },
        key.algorithm->0,
        issuer,
        audience,
        answer,
    );
}

/// A token whose payload names another issuer than the configured one, or
/// another audience, is never accepted, whoever signed it.
pub proof fn lemma_foreign_token_is_never_accepted(
    keys: Seq<KeyRecordView>,
    issuer: Seq<char>,
    audience: Seq<char>,
    token: Seq<char>,
    answer: Result<Claims, AppError>,
)
    requires
        claims_answer(keys, issuer, audience, token, answer),
        token_payload(token) matches Some(members) && {
            ||| text_member(members, "iss"@) matches Some(named) && named != issuer
            ||| text_member(members, "aud"@) matches Some(named) && named != audience
        },
    ensures
        answer is Err,
{
    if answer is Ok {
        lemma_accepted_token_is_signed_and_read(keys, issuer, audience, token, answer);
        lemma_accepted_claims_match_settings(keys, issuer, audience, token, answer);
    }
}

/// A token whose payload does not hold all six claims, each of its type, is
/// never accepted.
pub proof fn lemma_incomplete_token_is_never_accepted(
    keys: Seq<KeyRecordView>,
    issuer: Seq<char>,
    audience: Seq<char>,
    token: Seq<char>,
    answer: Result<Claims, AppError>,
)
    requires
        claims_answer(keys, issuer, audience, token, answer),
        !(token_payload(token) matches Some(members) && document_claims(members) is Some),
    ensures
        answer is Err,
{
    if answer is Ok {
        lemma_accepted_token_is_signed_and_read(keys, issuer, audience, token, answer);
    }
}

} // verus!
