//! Decoding and validating a signed token with `jsonwebtoken`.
//!
//! The payload of a token is decoded as a JSON document; the claims are then
//! read from the document one by one.

use vstd::prelude::*;
use jsonwebtoken::errors::{Error, ErrorKind};
use jsonwebtoken::{Algorithm, DecodingKey, Validation};
use serde_json::Value;
use crate::dto::auth::{Claims, ClaimsView};
use crate::keys::{algorithm_name, SigningAlgorithm};
use crate::errors::{
    lemma_specific_reasons_stand_apart, token_failure_reason, AppError, TokenFailure,
};

verus! {

/// `jsonwebtoken::errors::Error`: the proofs know of it what `failure_name` says.
#[verifier::external_type_specification]
#[verifier::external_body]
pub struct ExTokenError(jsonwebtoken::errors::Error);

/// `jsonwebtoken::DecodingKey`: the proofs know of it what `key_material` says.
#[verifier::external_type_specification]
#[verifier::external_body]
pub struct ExDecodingKey(jsonwebtoken::DecodingKey);

/// `jsonwebtoken::Validation`: the proofs know of it which issuers and
/// audiences it lets pass and with which algorithms it checks a signature.
#[verifier::external_type_specification]
#[verifier::external_body]
pub struct ExValidation(jsonwebtoken::Validation);

/// `serde_json::Value`: the proofs know of it what `claim_set` says.
#[verifier::external_type_specification]
#[verifier::external_body]
pub struct ExValue(serde_json::Value);

/// One member of a JSON object, as far as a claim can be read from it.
pub ghost enum ClaimValue {
    Text(Seq<char>),
    Integer(int),
    Other,
}

/// What a key for checking signatures was made from.
pub ghost enum KeyMaterial {
    /// A secret that signer and verifier share.
    Secret(Seq<u8>),
    /// Modulus and exponent of a public RSA key, as a key set writes them.
    Rsa { modulus: Seq<char>, exponent: Seq<char> },
    /// Anything else.
    Other,
}

/// What a key was made from.
pub uninterp spec fn key_material(key: DecodingKey) -> KeyMaterial;

/// The algorithms with which a validation lets a signature be checked; none
/// where it checks no signature at all.
pub uninterp spec fn signature_algorithms(validation: Validation) -> Seq<SigningAlgorithm>;

/// Which failure an error of `jsonwebtoken` is: an expired signature, an
/// invalid token, an invalid issuer or an invalid audience, each by the kind
/// of that name; every other kind is `Other`.
pub uninterp spec fn failure_name(err: Error) -> TokenFailure;

/// Whether the check of the signature of `token` passes: whether the token
/// has three parts, its header can be read and names one of `algorithms`,
/// and its signature, checked with that algorithm and a key made from
/// `material`, is the signature of its header and payload.
pub uninterp spec fn signature_holds(
    token: Seq<char>,
    material: KeyMaterial,
    algorithms: Seq<SigningAlgorithm>,
) -> bool;

/// The members of the payload of a token, where the payload is a JSON
/// document. A member that the payload repeats counts as it stands last.
pub uninterp spec fn token_payload(token: Seq<char>) -> Option<Map<Seq<char>, ClaimValue>>;

/// The key id in the header of a token: `None` where the header cannot be
/// read, `Some(None)` where it names no key.
pub uninterp spec fn header_key_id(token: Seq<char>) -> Option<Option<Seq<char>>>;

/// Whether modulus and exponent, as a key set writes them, can both be read:
/// whether each is base64 in the URL-safe alphabet, without padding.
pub uninterp spec fn rsa_components_accepted(modulus: Seq<char>, exponent: Seq<char>) -> bool;

/// The issuers that a validation lets pass.
pub uninterp spec fn accepted_issuers(validation: Validation) -> Set<Seq<char>>;

/// The audiences that a validation lets pass.
pub uninterp spec fn accepted_audiences(validation: Validation) -> Set<Seq<char>>;

/// The members of a JSON object by name; a document that is no object has
/// none. A member that the text of the document repeated is the last of them.
pub uninterp spec fn claim_set(document: Value) -> Map<Seq<char>, ClaimValue>;

/// A text member `name` of `claims`, if there is one, is among `accepted`.
pub open spec fn member_accepted(
    claims: Map<Seq<char>, ClaimValue>,
    name: Seq<char>,
    accepted: Set<Seq<char>>,
) -> bool {
    claims.contains_key(name) ==> match claims[name] {
        ClaimValue::Text(text) => accepted.contains(text),
        _ => true,
    }
}

/// `jsonwebtoken::decode_header`, of whose result the key id is kept.
#[verifier::external_body]
pub(crate) fn token_key_id(token: &str) -> (read: Result<Option<String>, Error>)
    ensures
        match read {
            Ok(Some(kid)) => header_key_id(token@) == Some(Some(kid@)),
            Ok(None) => header_key_id(token@) == Some(None::<Seq<char>>),
            Err(_) => header_key_id(token@) is None,
        },
{
    jsonwebtoken::decode_header(token).map(|header| header.kid)
}

/// `DecodingKey::from_rsa_components`: fails exactly where modulus or exponent
/// cannot be read, and else gives a key made from the two.
#[verifier::external_body]
pub(crate) fn rsa_key(modulus: &str, exponent: &str) -> (made: Result<DecodingKey, Error>)
    ensures
        made is Ok <==> rsa_components_accepted(modulus@, exponent@),
        made matches Ok(key) ==> key_material(key) == (KeyMaterial::Rsa {
            modulus: modulus@,
            exponent: exponent@,
        }),
{
    DecodingKey::from_rsa_components(modulus, exponent)
}

/// `DecodingKey::from_secret`: a key made from the shared secret.
#[verifier::external_body]
pub(crate) fn secret_key(secret: &[u8]) -> (key: DecodingKey)
    ensures
        key_material(key) == KeyMaterial::Secret(secret@),
{
    DecodingKey::from_secret(secret)
}

/// `Validation::new`: a validation that checks the signature with `algorithm` and no other.
#[verifier::external_body]
pub(crate) fn validation_for(algorithm: Algorithm) -> (validation: Validation)
    ensures
        signature_algorithms(validation) == seq![algorithm_name(algorithm)],
{
    Validation::new(algorithm)
}

/// `Validation::default`: a validation that checks the signature with HS256 and no other.
#[verifier::external_body]
pub(crate) fn default_validation() -> (validation: Validation)
    ensures
        signature_algorithms(validation) == seq![SigningAlgorithm::HS256],
{
    Validation::default()
}

/// `Validation::set_audience` with one audience: afterwards no other passes.
/// The algorithms stay as they were.
#[verifier::external_body]
pub(crate) fn accept_audience(validation: &mut Validation, audience: &str)
    ensures
        accepted_audiences(*final(validation)) == set![audience@],
        signature_algorithms(*final(validation)) == signature_algorithms(*old(validation)),
{
    validation.set_audience(&[audience]);
}

/// `Validation::set_issuer` with one issuer: afterwards no other passes.
/// Audiences and algorithms stay as they were.
#[verifier::external_body]
pub(crate) fn accept_issuer(validation: &mut Validation, issuer: &str)
    ensures
        accepted_issuers(*final(validation)) == set![issuer@],
        accepted_audiences(*final(validation)) == accepted_audiences(*old(validation)),
        signature_algorithms(*final(validation)) == signature_algorithms(*old(validation)),
{
    validation.set_issuer(&[issuer]);
}

/// `jsonwebtoken::decode` at `serde_json::Value`. Whether a token is accepted
/// depends on the clock, so nothing says when it is. Of an accepted token:
/// the document is the payload of this token; where the validation checks
/// signatures, the signature holds under this key and one of the algorithms
/// of the validation; and `iss` and `aud` of the payload, where they are
/// texts, are among those that the validation lets pass.
///
/// Of a token whose signature does not hold: it is turned down before its
/// claims are looked at, so not for its expiry, issuer or audience.
///
/// The payload is decoded as a document, not as the claims themselves: a
/// payload that repeats `iat` or `acr` is accepted here and read as it
/// stands last, where a decoder of the six claims would turn it down.
#[verifier::external_body]
pub(crate) fn decode_document(token: &str, key: &DecodingKey, validation: &Validation) -> (decoded:
    Result<Value, Error>)
    ensures
        decoded matches Ok(document) ==> {
            &&& token_payload(token@) == Some(claim_set(document))
            &&& signature_algorithms(*validation).len() > 0 ==> signature_holds(
                token@,
                key_material(*key),
                signature_algorithms(*validation),
            )
            &&& member_accepted(claim_set(document), "iss"@, accepted_issuers(*validation))
            &&& member_accepted(claim_set(document), "aud"@, accepted_audiences(*validation))
        },
        decoded matches Err(err) ==> {
            let algorithms = signature_algorithms(*validation);
            algorithms.len() > 0 && !signature_holds(token@, key_material(*key), algorithms)
                ==> failure_name(err) is InvalidToken || failure_name(err) is Other
        },
{
    jsonwebtoken::decode::<Value>(token, key, validation).map(|data| data.claims)
}

/// `Error::kind`, told apart as far as the reason shown to the caller depends on it.
#[verifier::external_body]
pub(crate) fn failure_kind(err: &Error) -> (kind: TokenFailure)
    ensures
        kind == failure_name(*err),
{
    match err.kind() {
        ErrorKind::ExpiredSignature => TokenFailure::ExpiredSignature,
        ErrorKind::InvalidToken => TokenFailure::InvalidToken,
        ErrorKind::InvalidIssuer => TokenFailure::InvalidIssuer,
        ErrorKind::InvalidAudience => TokenFailure::InvalidAudience,
        _ => TokenFailure::Other,
    }
}

/// `Value::get` and `Value::as_str`: the member `name`, where the document is
/// an object that has it and it is a text.
#[verifier::external_body]
pub(crate) fn text_claim(document: &Value, name: &str) -> (found: Option<String>)
    ensures
        match found {
            Some(text) => claim_set(*document).contains_key(name@) && claim_set(*document)[name@]
                == ClaimValue::Text(text@),
            None => !claim_set(*document).contains_key(name@) || !(claim_set(*document)[name@]
                is Text),
        },
{
    match document.get(name) {
        Some(member) => member.as_str().map(str::to_owned),
        None => None,
    }
}

/// `Value::get` and `Value::as_i64`: the member `name`, where the document is
/// an object that has it and it is an integer that an `i64` can hold.
#[verifier::external_body]
pub(crate) fn integer_claim(document: &Value, name: &str) -> (found: Option<i64>)
    ensures
        match found {
            Some(number) => claim_set(*document).contains_key(name@) && claim_set(*document)[name@]
                == ClaimValue::Integer(number as int),
            None => !claim_set(*document).contains_key(name@) || !(claim_set(
                *document,
            )[name@] matches ClaimValue::Integer(number) && i64::MIN <= number <= i64::MAX),
        },
{
    match document.get(name) {
        Some(member) => member.as_i64(),
        None => None,
    }
}

/// The text member `name` of a JSON object, if it has one.
pub open spec fn text_member(members: Map<Seq<char>, ClaimValue>, name: Seq<char>) -> Option<
    Seq<char>,
> {
    if members.contains_key(name) {
        match members[name] {
            ClaimValue::Text(text) => Some(text),
            _ => None,
        }
    } else {
        None
    }
}

/// The integer member `name` of a JSON object, if it has one that an `i64` can hold.
pub open spec fn integer_member(members: Map<Seq<char>, ClaimValue>, name: Seq<char>) -> Option<
    int,
> {
    if members.contains_key(name) {
        match members[name] {
            ClaimValue::Integer(number) => if i64::MIN <= number <= i64::MAX {
                Some(number)
            } else {
                None
            },
            _ => None,
        }
    } else {
        None
    }
}

/// The claims that a payload holds: all six members, each of its type, copied as they are.
pub open spec fn document_claims(members: Map<Seq<char>, ClaimValue>) -> Option<ClaimsView> {
    match (
        text_member(members, "iss"@),
        text_member(members, "sub"@),
        text_member(members, "aud"@),
        integer_member(members, "exp"@),
        integer_member(members, "iat"@),
        text_member(members, "acr"@),
    ) {
        (Some(iss), Some(sub), Some(aud), Some(exp), Some(iat), Some(acr)) => Some(
            ClaimsView { iss, sub, aud, exp, iat, acr },
        ),
        _ => None,
    }
}

/// What holds of every outcome of checking `token` with a key made from
/// `material` and a validation that checks signatures with `algorithms`: a
/// document that was accepted is the payload of the token, and the signature
/// of the token holds; a token whose signature does not hold is turned down
/// as an invalid token or for a failure without a reason of its own.
pub open spec fn outcome_of_check(
    token: Seq<char>,
    material: KeyMaterial,
    algorithms: Seq<SigningAlgorithm>,
    outcome: Result<Value, TokenFailure>,
) -> bool {
    match outcome {
        Ok(document) => {
            &&& token_payload(token) == Some(claim_set(document))
            &&& signature_holds(token, material, algorithms)
        },
        Err(kind) => !signature_holds(token, material, algorithms) ==> kind is InvalidToken
            || kind is Other,
    }
}

/// What is answered for a token that was checked against a published key:
/// the claims of an accepted payload that holds them all, "Invalid token"
/// for an accepted payload that does not, and for a token that was turned
/// down the reason that belongs to the failure.
pub open spec fn published_key_answer(
    outcome: Result<Value, TokenFailure>,
    answer: Result<Claims, AppError>,
) -> bool {
    match outcome {
        Ok(document) => match document_claims(claim_set(document)) {
            Some(view) => answer matches Ok(claims) && claims@ == view,
            None => answer matches Err(err) && err.is_authorization("Invalid token"@),
        },
        Err(kind) => answer matches Err(err) && err.is_authorization(token_failure_reason(kind)),
    }
}

/// What is answered for a token that was checked against a shared secret:
/// the claims of an accepted payload that holds them all, and "Unauthorized"
/// in every other case.
pub open spec fn shared_secret_answer(
    outcome: Result<Value, TokenFailure>,
    answer: Result<Claims, AppError>,
) -> bool {
    match outcome {
        Ok(document) => match document_claims(claim_set(document)) {
            Some(view) => answer matches Ok(claims) && claims@ == view,
            None => answer matches Err(err) && err.is_authorization("Unauthorized"@),
        },
        Err(_) => answer matches Err(err) && err.is_authorization("Unauthorized"@),
    }
}

/// Reads the six claims from a decoded payload.
pub fn claims_from_document(document: &Value) -> (claims: Option<Claims>)
    ensures
        match document_claims(claim_set(*document)) {
            Some(view) => claims matches Some(found) && found@ == view,
            None => claims is None,
        },
{
    let iss = match text_claim(document, "iss") {
        Some(text) => text,
        None => return None,
    };
    let sub = match text_claim(document, "sub") {
        Some(text) => text,
        None => return None,
    };
    let aud = match text_claim(document, "aud") {
        Some(text) => text,
        None => return None,
    };
    let exp = match integer_claim(document, "exp") {
        Some(number) => number,
        None => return None,
    };
    let iat = match integer_claim(document, "iat") {
        Some(number) => number,
        None => return None,
    };
    let acr = match text_claim(document, "acr") {
        Some(text) => text,
        None => return None,
    };
    Some(Claims { iss, sub, aud, exp, iat, acr })
}

/// Turns the outcome of checking a token against a published key into the answer.
pub fn answer_for_published_key(outcome: Result<Value, TokenFailure>) -> (answer: Result<
    Claims,
    AppError,
>)
    ensures
        published_key_answer(outcome, answer),
{
    match outcome {
        Ok(document) => match claims_from_document(&document) {
            Some(claims) => Ok(claims),
            None => Err(AppError::from_token_failure(TokenFailure::Other)),
        },
        Err(kind) => Err(AppError::from_token_failure(kind)),
    }
}

/// Turns the outcome of checking a token against a shared secret into the answer.
pub fn answer_for_shared_secret(outcome: Result<Value, TokenFailure>) -> (answer: Result<
    Claims,
    AppError,
>)
    ensures
        shared_secret_answer(outcome, answer),
{
    match outcome {
        Ok(document) => match claims_from_document(&document) {
            Some(claims) => Ok(claims),
            None => Err(AppError::unauthorized("Unauthorized")),
        },
        Err(_) => Err(AppError::unauthorized("Unauthorized")),
    }
}

/// Under a published key, a token that was turned down for its expiry, its
/// issuer or its audience is refused with the reason of that failure, and
/// with no other.
pub proof fn lemma_specific_failure_has_specific_reason(
    kind: TokenFailure,
    answer: Result<Claims, AppError>,
)
    requires
        kind is ExpiredSignature || kind is InvalidIssuer || kind is InvalidAudience,
        published_key_answer(Err(kind), answer),
    ensures
        answer matches Err(err) && err.is_authorization(token_failure_reason(kind)),
        kind is ExpiredSignature ==> answer->Err_0.is_authorization("Token expired"@),
        kind is InvalidIssuer ==> answer->Err_0.is_authorization("Invalid issuer"@),
        kind is InvalidAudience ==> answer->Err_0.is_authorization("Invalid audience"@),
        !answer->Err_0.is_authorization("Invalid token"@),
        !answer->Err_0.is_authorization("Unauthorized"@),
{
    lemma_specific_reasons_stand_apart();
}

/// The claims that are handed out are the members of the payload, unchanged.
pub proof fn lemma_claims_are_copied_verbatim(document: Value, answer: Result<Claims, AppError>)
    requires
        published_key_answer(Ok(document), answer),
        answer is Ok,
    ensures
        claim_set(document)["iss"@] == ClaimValue::Text(answer->Ok_0@.iss),
        claim_set(document)["sub"@] == ClaimValue::Text(answer->Ok_0@.sub),
        claim_set(document)["aud"@] == ClaimValue::Text(answer->Ok_0@.aud),
        claim_set(document)["exp"@] == ClaimValue::Integer(answer->Ok_0@.exp),
        claim_set(document)["iat"@] == ClaimValue::Integer(answer->Ok_0@.iat),
        claim_set(document)["acr"@] == ClaimValue::Text(answer->Ok_0@.acr),
{
}

} // verus!
