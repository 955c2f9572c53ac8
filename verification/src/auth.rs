//! Tokens that the service issues itself, signed with a secret that it shares with nobody.

use vstd::prelude::*;
use vstd::string::StringSliceAdditionalSpecFns;
use serde_json::Value;
use crate::dto::auth::{claims_of_token, refused, Claims};
use crate::errors::{AppError, TokenFailure};
use crate::keys::SigningAlgorithm;
use crate::token::{
    answer_for_shared_secret, decode_document, default_validation, failure_kind,
    outcome_of_check, secret_key, shared_secret_answer, signature_holds, KeyMaterial,
};

verus! {

/// What is answered once `token` has been checked against the shared secret
/// `secret`: the answer that belongs to some outcome of that check. A
/// document that was accepted is the payload of this token, and its
/// signature holds under the secret with HS256.
pub open spec fn secret_checked_answer(
    secret: Seq<u8>,
    token: Seq<char>,
    answer: Result<Claims, AppError>,
) -> bool {
    exists|outcome: Result<Value, TokenFailure>|
        {
            &&& #[trigger] shared_secret_answer(outcome, answer)
            &&& outcome_of_check(
                token,
                KeyMaterial::Secret(secret),
                seq![SigningAlgorithm::HS256],
                outcome,
            )
        }
}

/// Checks signature and expiry of `token` against `secret`. Issuer and audience are not looked at.
fn decode_token(secret: &str, token: &str) -> (answer: Result<Claims, AppError>)
    ensures
        secret_checked_answer(secret.spec_bytes(), token@, answer),
{
    let key = secret_key(secret.as_bytes());
    let validation = default_validation();
    let outcome = match decode_document(token, &key, &validation) {
        Ok(document) => Ok(document),
        Err(err) => Err(failure_kind(&err)),
    };
    let ghost decoded = outcome;
    let answer = answer_for_shared_secret(outcome);
    assert(shared_secret_answer(decoded, answer));
    answer
}

/// Verifies a token that was signed with the shared secret and hands out its claims.
/// Whatever is wrong with the token, the caller is told "Unauthorized" and no more.
///
/// The payload of the token is decoded as a JSON document and the claims
/// are read from it member by member. A payload that repeats `iat` or `acr`
/// is therefore read as it stands last.
pub fn verify_access_token(secret: &str, token: &str) -> (answer: Result<Claims, AppError>)
    ensures
        secret_checked_answer(secret.spec_bytes(), token@, answer),
        answer is Err ==> refused(answer, "Unauthorized"@),
        answer matches Ok(claims) ==> {
            &&& claims_of_token(token@, claims)
            &&& signature_holds(
                token@,
                KeyMaterial::Secret(secret.spec_bytes()),
                seq![SigningAlgorithm::HS256],
            )
        },
{
    decode_token(secret, token)
}

} // verus!
