//! The profile cache: the profile of the subject of a verified token, read
//! from the cache store and fetched from the identity provider only when the
//! store has none.

use vstd::prelude::*;
use vstd::string::StringExecFns;
use crate::config::OauthSettings;
use crate::dto::auth::{Claims, UserInfo};
use crate::errors::AppError;
use crate::exchange::{is_http_error, Reply, Request, RequestView, Step};
use crate::redis::{cache_ttl, command, CacheCommandView, SECONDS_PER_DAY};
use crate::token_verifier::{
    claims_begun, claims_requests_left, claims_resumed, lemma_verification_asks_the_key_cache_only,
    lemma_verification_moves_forward, ClaimsState,
};

verus! {

/// The key under which the profile of `subject` is cached.
pub open spec fn profile_key(subject: Seq<char>) -> Seq<char> {
    "user_info|"@ + subject
}

pub fn profile_cache_key(subject: &str) -> (key: String)
    ensures
        key@ == profile_key(subject@),
{
    "user_info|".to_string().concat(subject)
}

/// How far the lookup of a profile has come.
#[derive(Debug)]
pub enum UserInfoState {
    /// The bearer token is being verified.
    Verifying { token: String, claims: ClaimsState },
    /// The cache store was asked for the profile.
    Reading { token: String, key: String },
    /// The cache store had none; the identity provider was asked.
    Fetching { key: String },
    /// The fetched profile is being written to the cache store.
    Writing { key: String, profile: UserInfo },
    /// The cached profile is being given its time to live.
    Expiring { profile: UserInfo },
    /// The lookup has given its answer.
    Finished,
}

/// The request that lets the profile cached under `key` lapse after one day.
pub open spec fn expire_profile(key: Seq<char>) -> RequestView {
    RequestView::Cache(CacheCommandView::Expire { key, seconds: SECONDS_PER_DAY as int })
}

/// What follows from a step of the token verifier, on behalf of `token`.
///
/// Requests of the verifier are passed on, and its refusal or failure ends
/// the lookup unchanged. Once the claims are there, the cache store is asked
/// for the profile of their subject.
pub open spec fn verified(
    token: Seq<char>,
    after: ClaimsState,
    found: Step<Claims>,
    next: UserInfoState,
    step: Step<UserInfo>,
) -> bool {
    match found {
        Step::Perform(request) => {
            &&& next matches UserInfoState::Verifying { token: held, claims }
            &&& held@ == token
            &&& claims == after
            &&& step == Step::<UserInfo>::Perform(request)
        },
        Step::Finish(Ok(claims)) => {
            &&& next matches UserInfoState::Reading { token: held, key }
            &&& held@ == token
            &&& key@ == profile_key(claims.sub@)
            &&& step.performs(RequestView::ReadProfile { key: profile_key(claims.sub@) })
        },
        Step::Finish(Err(err)) => {
            &&& next is Finished
            &&& step == Step::<UserInfo>::Finish(Err(err))
        },
    }
}

/// How the lookup of the profile behind a request starts.
///
/// A request without a bearer token is refused as "Invalid bearer token".
/// Otherwise the token verifier starts on the token.
pub open spec fn user_info_begun(
    bearer: Option<&str>,
    state: UserInfoState,
    step: Step<UserInfo>,
) -> bool {
    match bearer {
        Some(token) => exists|after: ClaimsState, found: Step<Claims>|
            {
                &&& #[trigger] claims_begun(bearer, after, found)
                &&& verified(token@, after, found, state, step)
            },
        None => state is Finished && step.refuses("Invalid bearer token"@),
    }
}

/// How a lookup goes on from `state` when `reply` comes in.
///
/// A cached profile is handed out; nothing is fetched. Where the store has
/// none, the profile is fetched from `userinfo_url` with the bearer token as
/// the credential, written to the store and given one day to live, and then
/// handed out. A fetch that fails, and one that is answered with an error
/// status whatever its body holds, is refused as "Invalid bearer token", and
/// nothing is written. A failure of the cache store, and a reply that
/// answers no request of the lookup, end it with an internal failure.
pub open spec fn user_info_resumed(
    state: UserInfoState,
    reply: Reply,
    settings: OauthSettings,
    next: UserInfoState,
    step: Step<UserInfo>,
) -> bool {
    match (state, reply) {
        (UserInfoState::Verifying { token, claims }, _) => exists|
            after: ClaimsState,
            found: Step<Claims>,
        |
            {
                &&& #[trigger] claims_resumed(claims, reply, settings, after, found)
                &&& verified(token@, after, found, next, step)
            },
        (UserInfoState::Reading { token, key }, Reply::CachedProfile(Some(profile))) => {
            &&& next is Finished
            &&& step matches Step::Finish(Ok(found))
            &&& found@ == profile@
        },
        (UserInfoState::Reading { token, key }, Reply::CachedProfile(None)) => {
            &&& next matches UserInfoState::Fetching { key: held }
            &&& held@ == key@
            &&& step.performs(
                RequestView::FetchProfile { url: settings.userinfo_url@, bearer: token@ },
            )
        },
        (UserInfoState::Fetching { key }, Reply::FetchedProfile { status, profile }) => if
            is_http_error(status) {
            &&& next is Finished
            &&& step.refuses("Invalid bearer token"@)
        } else {
            &&& next matches UserInfoState::Writing { key: held, profile: kept }
            &&& held@ == key@
            &&& kept@ == profile@
            &&& step.performs(RequestView::WriteProfile { key: key@, profile: profile@ })
        },
        (UserInfoState::Fetching { key }, Reply::Failed(_)) => {
            &&& next is Finished
            &&& step.refuses("Invalid bearer token"@)
        },
        (UserInfoState::Writing { key, profile }, Reply::Done) => {
            &&& next matches UserInfoState::Expiring { profile: kept }
            &&& kept@ == profile@
            &&& step.performs(expire_profile(key@))
        },
        (UserInfoState::Expiring { profile }, Reply::Done) => {
            &&& next is Finished
            &&& step matches Step::Finish(Ok(found))
            &&& found@ == profile@
        },
        (UserInfoState::Finished, _) => next is Finished && step.breaks_with("unexpected reply"@),
        (_, Reply::Failed(text)) => next is Finished && step.breaks_with(text@),
        _ => next is Finished && step.breaks_with("unexpected reply"@),
    }
}

fn unexpected() -> (ended: (UserInfoState, Step<UserInfo>))
    ensures
        ended.0 is Finished,
        ended.1.breaks_with("unexpected reply"@),
{
    (UserInfoState::Finished, Step::Finish(Err(AppError::internal("unexpected reply".to_string()))))
}

fn broken(text: String) -> (ended: (UserInfoState, Step<UserInfo>))
    ensures
        ended.0 is Finished,
        ended.1.breaks_with(text@),
{
    (UserInfoState::Finished, Step::Finish(Err(AppError::internal(text))))
}

/// Goes on after a step of the token verifier.
fn after_verifier(token: String, after: ClaimsState, found: Step<Claims>) -> (next: (
    UserInfoState,
    Step<UserInfo>,
))
    ensures
        verified(token@, after, found, next.0, next.1),
{
    match found {
        Step::Perform(request) => (
            UserInfoState::Verifying { token, claims: after },
            Step::Perform(request),
        ),
        Step::Finish(Ok(claims)) => {
            let key = profile_cache_key(claims.sub.as_str());
            let asked = key.clone();
            (
                UserInfoState::Reading { token, key },
                Step::Perform(Request::ReadProfile { key: asked }),
            )
        },
        Step::Finish(Err(err)) => (UserInfoState::Finished, Step::Finish(Err(err))),
    }
}

impl UserInfo {
    /// Starts the lookup of the profile behind a request. `bearer` is the
    /// token of the request's `Authorization` header, where the header is
    /// there and well formed.
    pub fn from_request_parts(bearer: Option<&str>) -> (started: (UserInfoState, Step<UserInfo>))
        ensures
            user_info_begun(bearer, started.0, started.1),
    {
        match bearer {
            Some(token) => {
                let (after, found) = Claims::from_request_parts(bearer);
                after_verifier(token.to_string(), after, found)
            },
            None => (
                UserInfoState::Finished,
                Step::Finish(Err(AppError::unauthorized("Invalid bearer token"))),
            ),
        }
    }
}

impl UserInfoState {
    /// Goes on with a lookup when the reply to its last request comes in.
    pub fn resume(self, reply: Reply, settings: &OauthSettings) -> (next: (
        UserInfoState,
        Step<UserInfo>,
    ))
        ensures
            user_info_resumed(self, reply, *settings, next.0, next.1),
    {
        match self {
            UserInfoState::Verifying { token, claims } => {
                let (after, found) = claims.resume(reply, settings);
                after_verifier(token, after, found)
            },
            UserInfoState::Reading { token, key } => match reply {
                Reply::CachedProfile(Some(profile)) => (
                    UserInfoState::Finished,
                    Step::Finish(Ok(profile)),
                ),
                Reply::CachedProfile(None) => (
                    UserInfoState::Fetching { key },
                    Step::Perform(
                        Request::FetchProfile { url: settings.userinfo_url.clone(), bearer: token },
                    ),
                ),
                Reply::Failed(text) => broken(text),
                _ => unexpected(),
            },
            UserInfoState::Fetching { key } => match reply {
                Reply::FetchedProfile { status, profile } => if status >= 400 {
                    (
                        UserInfoState::Finished,
                        Step::Finish(Err(AppError::unauthorized("Invalid bearer token"))),
                    )
                } else {
                    let written = profile.duplicate();
                    let under = key.clone();
                    (
                        UserInfoState::Writing { key, profile },
                        Step::Perform(Request::WriteProfile { key: under, profile: written }),
                    )
                },
                Reply::Failed(_) => (
                    UserInfoState::Finished,
                    Step::Finish(Err(AppError::unauthorized("Invalid bearer token"))),
                ),
                _ => unexpected(),
            },
            UserInfoState::Writing { key, profile } => match reply {
                Reply::Done => match command(key.as_str()).expire(cache_ttl()) {
                    Ok(expire) => (
                        UserInfoState::Expiring { profile },
                        Step::Perform(Request::Cache(expire)),
                    ),
                    Err(err) => (
                        UserInfoState::Finished,
                        Step::Finish(Err(AppError::InternalError(err))),
                    ),
                },
                Reply::Failed(text) => broken(text),
                _ => unexpected(),
            },
            UserInfoState::Expiring { profile } => match reply {
                Reply::Done => (UserInfoState::Finished, Step::Finish(Ok(profile))),
                Reply::Failed(text) => broken(text),
                _ => unexpected(),
            },
            UserInfoState::Finished => unexpected(),
        }
    }
}

/// The profiles of two subjects are cached under one key only where the
/// subjects are the same, and no profile is cached under the key of the
/// published keys.
pub proof fn lemma_profile_keys_never_collide(first: Seq<char>, second: Seq<char>)
    ensures
        profile_key(first) == profile_key(second) <==> first == second,
        profile_key(first) != "jwks"@,
{
    let tag = "user_info|"@;
    reveal_strlit("user_info|");
    reveal_strlit("jwks");
    assert(profile_key(first)[0] == 'u');
    assert("jwks"@[0] == 'j');
    if profile_key(first) == profile_key(second) {
        assert(profile_key(first).subrange(tag.len() as int, profile_key(first).len() as int)
            == first);
        assert(profile_key(second).subrange(tag.len() as int, profile_key(second).len() as int)
            == second);
    }
}

/// A profile that a lookup has written to the store is what a lookup that
/// reads it back hands out, member for member.
pub proof fn lemma_written_profile_is_read_back(
    settings: OauthSettings,
    key: String,
    status: u16,
    fetched: UserInfo,
    writing: UserInfoState,
    written: Step<UserInfo>,
    reading: UserInfoState,
    read: UserInfo,
    next: UserInfoState,
    step: Step<UserInfo>,
)
    requires
        user_info_resumed(
            UserInfoState::Fetching { key },
            Reply::FetchedProfile { status, profile: fetched },
            settings,
            writing,
            written,
        ),
        written matches Step::Perform(Request::WriteProfile { key: under, profile })
            && profile@ == read@,
        reading is Reading,
        user_info_resumed(reading, Reply::CachedProfile(Some(read)), settings, next, step),
    ensures
        next is Finished,
        step matches Step::Finish(Ok(found)) && found@ == fetched@,
{
}

/// How many requests the lookup of a profile may still make.
pub open spec fn profile_requests_left(state: UserInfoState) -> nat {
    match state {
        UserInfoState::Verifying { claims, .. } => claims_requests_left(claims) + 4,
        UserInfoState::Reading { .. } => 3,
        UserInfoState::Fetching { .. } => 2,
        UserInfoState::Writing { .. } => 1,
        UserInfoState::Expiring { .. } => 0,
        UserInfoState::Finished => 0,
    }
}

/// The lookup of a profile only moves forward: it finishes exactly when it
/// asks for nothing more, and every request uses up at least one of the
/// requests that are left. The identity provider is asked only after the
/// store had no profile, and a profile is written only after it was fetched.
pub proof fn lemma_profile_lookup_moves_forward(
    state: UserInfoState,
    reply: Reply,
    settings: OauthSettings,
    next: UserInfoState,
    step: Step<UserInfo>,
)
    requires
        user_info_resumed(state, reply, settings, next, step),
    ensures
        step is Finish <==> next is Finished,
        step is Perform ==> profile_requests_left(next) < profile_requests_left(state),
        step matches Step::Perform(request) ==> {
            &&& request@ is FetchProfile <==> state is Reading
            &&& request@ is WriteProfile <==> state is Fetching
            &&& request@ is ReadProfile ==> state is Verifying
        },
{
    if let UserInfoState::Verifying { token, claims } = state {
        let (after, found) = choose|after: ClaimsState, found: Step<Claims>|
            {
                &&& #[trigger] claims_resumed(claims, reply, settings, after, found)
                &&& verified(token@, after, found, next, step)
            };
        lemma_verification_moves_forward(claims, reply, settings, after, found);
        lemma_verification_asks_the_key_cache_only(claims, reply, settings, after, found);
    }
}

/// A profile that was written to the store is not handed out before it was
/// given its day to live: after the write, the lookup either asks for the
/// expiry of the key it wrote to, or fails.
pub proof fn lemma_written_profile_is_given_a_lifetime(
    key: String,
    profile: UserInfo,
    reply: Reply,
    settings: OauthSettings,
    next: UserInfoState,
    step: Step<UserInfo>,
)
    requires
        user_info_resumed(UserInfoState::Writing { key, profile }, reply, settings, next, step),
    ensures
        step.performs(expire_profile(key@)) || step.breaks(),
        reply is Done <==> step.performs(expire_profile(key@)),
{
}

/// A fetch that the identity provider answers with an error status ends the
/// lookup with "Invalid bearer token", whatever the body of the answer holds,
/// and nothing is asked of the store any more: no profile is written.
pub proof fn lemma_error_status_writes_nothing(
    key: String,
    status: u16,
    profile: UserInfo,
    settings: OauthSettings,
    next: UserInfoState,
    step: Step<UserInfo>,
)
    requires
        is_http_error(status),
        user_info_resumed(
            UserInfoState::Fetching { key },
            Reply::FetchedProfile { status, profile },
            settings,
            next,
            step,
        ),
    ensures
        next is Finished,
        step.refuses("Invalid bearer token"@),
        !(step is Perform),
{
}

/// A fetch that failed ends the lookup with "Invalid bearer token", whatever
/// went wrong, and nothing is asked of the store any more.
pub proof fn lemma_failed_fetch_writes_nothing(
    key: String,
    cause: String,
    settings: OauthSettings,
    next: UserInfoState,
    step: Step<UserInfo>,
)
    requires
        user_info_resumed(
            UserInfoState::Fetching { key },
            Reply::Failed(cause),
            settings,
            next,
            step,
        ),
    ensures
        next is Finished,
        step.refuses("Invalid bearer token"@),
        !(step is Perform),
{
}

} // verus!
