//! The token verifier: reads the key id of a bearer token, looks the
//! published keys up in the key cache, and verifies the token against them.

use vstd::prelude::*;
use jsonwebtoken::jwk::JwkSet;
use crate::config::OauthSettings;
use crate::dto::auth::{claims_answer, get_claims, BearerToken, Claims};
use crate::errors::AppError;
use crate::exchange::{Reply, Step};
use crate::key_cache::{
    begin, lemma_lookup_moves_forward, read_keys, requests_left, resume, resumed, KeyCacheState,
};
use crate::keys::key_records;
use crate::token::{header_key_id, token_key_id};

verus! {

/// How far the verification of a bearer token has come.
#[derive(Debug)]
pub enum ClaimsState {
    /// The token names a key; the published keys are being looked up.
    Keys { token: String, lookup: KeyCacheState },
    /// The verification has given its answer.
    Finished,
}

/// How the verification of the token of a request starts.
///
/// A request without a bearer token, a token whose header cannot be read and
/// a token that names no key are refused as "Unauthorized" before anything
/// is asked of the cache store. For any other token the key cache is asked.
pub open spec fn claims_begun(
    bearer: Option<&str>,
    state: ClaimsState,
    step: Step<Claims>,
) -> bool {
    match bearer {
        Some(token) => match header_key_id(token@) {
            Some(Some(_)) => {
                &&& state matches ClaimsState::Keys { token: held, lookup }
                &&& held@ == token@
                &&& lookup is Reading
                &&& step.performs(read_keys())
            },
            _ => state is Finished && step.refuses("Unauthorized"@),
        },
        None => state is Finished && step.refuses("Unauthorized"@),
    }
}

/// How a verification goes on from `state` when `reply` comes in.
///
/// While the key cache asks for more, its requests are passed on. When it
/// fails, the verification fails as the cache did. When it hands out the
/// keys, the token is verified against them and the answer is that of
/// `get_claims`.
pub open spec fn claims_resumed(
    state: ClaimsState,
    reply: Reply,
    settings: OauthSettings,
    next: ClaimsState,
    step: Step<Claims>,
) -> bool {
    match state {
        ClaimsState::Keys { token, lookup } => exists|after: KeyCacheState, found: Step<JwkSet>|
            {
                &&& #[trigger] resumed(lookup, reply, settings.jwks_url@, after, found)
                &&& match found {
                    Step::Perform(request) => {
                        &&& next == (ClaimsState::Keys { token, lookup: after })
                        &&& step == Step::<Claims>::Perform(request)
                    },
                    Step::Finish(Ok(keys)) => {
                        &&& next is Finished
                        &&& step matches Step::Finish(answer)
                        &&& claims_answer(
                            key_records(keys),
                            settings.issuer@,
                            settings.audience@,
                            token@,
                            answer,
                        )
                    },
                    Step::Finish(Err(err)) => {
                        &&& next is Finished
                        &&& step == Step::<Claims>::Finish(Err(err))
                    },
                }
            },
        ClaimsState::Finished => next is Finished && step.breaks_with("unexpected reply"@),
    }
}

impl BearerToken {
    /// Takes the raw credential of a request. `bearer` is the token of the
    /// request's `Authorization` header, where the header is there and well
    /// formed. The token is not verified.
    pub fn from_request_parts(bearer: Option<&str>) -> (extracted: Result<BearerToken, AppError>)
        ensures
            match bearer {
                Some(token) => extracted matches Ok(taken) && taken.access_token@ == token@,
                None => extracted matches Err(err) && err.is_authorization(
                    "Invalid bearer token"@,
                ),
            },
    {
        match bearer {
            Some(token) => Ok(BearerToken { access_token: token.to_string() }),
            None => Err(AppError::unauthorized("Invalid bearer token")),
        }
    }
}

impl Claims {
    /// Starts the verification of the bearer token of a request. `bearer` is
    /// the token of the request's `Authorization` header, where the header
    /// is there and well formed.
    pub fn from_request_parts(bearer: Option<&str>) -> (started: (ClaimsState, Step<Claims>))
        ensures
            claims_begun(bearer, started.0, started.1),
    {
        let token = match bearer {
            Some(token) => token,
            None => return (
                ClaimsState::Finished,
                Step::Finish(Err(AppError::unauthorized("Unauthorized"))),
            ),
        };
        match token_key_id(token) {
            Ok(Some(_)) => {
                let (lookup, request) = begin();
                (ClaimsState::Keys { token: token.to_string(), lookup }, Step::Perform(request))
            },
            _ => (ClaimsState::Finished, Step::Finish(Err(AppError::unauthorized("Unauthorized")))),
        }
    }
}

impl ClaimsState {
    /// Goes on with a verification when the reply to its last request comes in.
    pub fn resume(self, reply: Reply, settings: &OauthSettings) -> (next: (
        ClaimsState,
        Step<Claims>,
    ))
        ensures
            claims_resumed(self, reply, *settings, next.0, next.1),
    {
        match self {
            ClaimsState::Keys { token, lookup } => {
                let (after, found) = resume(lookup, reply, settings.jwks_url.as_str());
                match found {
                    Step::Perform(request) => (
                        ClaimsState::Keys { token, lookup: after },
                        Step::Perform(request),
                    ),
                    Step::Finish(Ok(keys)) => (
                        ClaimsState::Finished,
                        Step::Finish(get_claims(&keys, settings, token.as_str())),
                    ),
                    Step::Finish(Err(err)) => (ClaimsState::Finished, Step::Finish(Err(err))),
                }
            },
            ClaimsState::Finished => (
                ClaimsState::Finished,
                Step::Finish(Err(AppError::internal("unexpected reply".to_string()))),
            ),
        }
    }
}

/// How many requests a verification may still make.
pub open spec fn claims_requests_left(state: ClaimsState) -> nat {
    match state {
        ClaimsState::Keys { lookup, .. } => requests_left(lookup),
        ClaimsState::Finished => 0,
    }
}

/// A verification only moves forward: it finishes exactly when it asks for
/// nothing more, and every request uses up one of the requests that are left.
pub proof fn lemma_verification_moves_forward(
    state: ClaimsState,
    reply: Reply,
    settings: OauthSettings,
    next: ClaimsState,
    step: Step<Claims>,
)
    requires
        claims_resumed(state, reply, settings, next, step),
    ensures
        step is Finish <==> next is Finished,
        step is Perform ==> claims_requests_left(next) + 1 == claims_requests_left(state),
{
    if let ClaimsState::Keys { token, lookup } = state {
        let (after, found) = choose|after: KeyCacheState, found: Step<JwkSet>|
            {
                &&& #[trigger] resumed(lookup, reply, settings.jwks_url@, after, found)
                &&& match found {
                    Step::Perform(request) => {
                        &&& next == (ClaimsState::Keys { token, lookup: after })
                        &&& step == Step::<Claims>::Perform(request)
                    },
                    Step::Finish(Ok(keys)) => {
                        &&& next is Finished
                        &&& step matches Step::Finish(answer)
                        &&& claims_answer(
                            key_records(keys),
                            settings.issuer@,
                            settings.audience@,
                            token@,
                            answer,
                        )
                    },
                    Step::Finish(Err(err)) => {
                        &&& next is Finished
                        &&& step == Step::<Claims>::Finish(Err(err))
                    },
                }
            };
        lemma_lookup_moves_forward(lookup, reply, settings.jwks_url@, after, found);
    }
}

/// A verification asks the store for the keys, asks the authorization server
/// for them, and writes them to the store: it never asks for a profile.
pub proof fn lemma_verification_asks_the_key_cache_only(
    state: ClaimsState,
    reply: Reply,
    settings: OauthSettings,
    next: ClaimsState,
    step: Step<Claims>,
)
    requires
        claims_resumed(state, reply, settings, next, step),
    ensures
        step matches Step::Perform(request) ==> request@ is Cache || request@ is FetchKeys,
{
}

} // verus!
