//! The key cache: the published keys, read from the cache store and fetched
//! from the authorization server only when the store has none.

use vstd::prelude::*;
use jsonwebtoken::jwk::JwkSet;
use crate::errors::AppError;
use crate::exchange::{store_after, store_answers, Reply, Request, RequestView, Step};
use crate::keys::{
    encode_key_set, json_error_text, key_records, key_set_of_bytes, key_set_of_text, key_set_text,
    parse_key_set, parse_key_set_bytes,
};
use crate::redis::{cache_ttl, command, CacheCommandView, SECONDS_PER_DAY};

verus! {

/// How far a lookup of the published keys has come.
#[derive(Debug)]
pub enum KeyCacheState {
    /// The cache store was asked for the keys.
    Reading,
    /// The cache store had none; the authorization server was asked.
    Fetching,
    /// The fetched keys are being written to the cache store.
    Writing { keys: JwkSet },
    /// The cached keys are being given their time to live.
    Expiring { keys: JwkSet },
    /// The lookup has given its answer.
    Finished,
}

/// The request that reads the cached keys.
pub open spec fn read_keys() -> RequestView {
    RequestView::Cache(CacheCommandView::Get { key: "jwks"@ })
}

/// The request that caches `text` as the keys.
pub open spec fn write_keys(text: Seq<char>) -> RequestView {
    RequestView::Cache(CacheCommandView::Store { key: "jwks"@, value: text })
}

/// The request that lets the cached keys lapse after one day.
pub open spec fn expire_keys() -> RequestView {
    RequestView::Cache(CacheCommandView::Expire { key: "jwks"@, seconds: SECONDS_PER_DAY as int })
}

/// How a lookup goes on from `state` when `reply` comes in.
///
/// A cached text is parsed and handed out; nothing is fetched. Where the
/// store has no text, the document at `jwks_url` is fetched, parsed, written
/// to the store as text and given one day to live, and then handed out. Any
/// request that fails, any text or document that is no key set, a key set
/// that cannot be written as text, and any reply that answers no request of
/// the lookup ends it with an internal failure.
pub open spec fn resumed(
    state: KeyCacheState,
    reply: Reply,
    jwks_url: Seq<char>,
    next: KeyCacheState,
    step: Step<JwkSet>,
) -> bool {
    match (state, reply) {
        (KeyCacheState::Reading, Reply::CacheValue(Some(text))) => {
            &&& next is Finished
            &&& match key_set_of_text(text@) {
                Some(records) => step matches Step::Finish(Ok(keys)) && key_records(keys)
                    == records,
                None => step.breaks(),
            }
        },
        (KeyCacheState::Reading, Reply::CacheValue(None)) => {
            &&& next is Fetching
            &&& step.performs(RequestView::FetchKeys { url: jwks_url })
        },
        (KeyCacheState::Fetching, Reply::Document(body)) => match key_set_of_bytes(body@) {
            Some(records) => {
                ||| {
                    &&& next matches KeyCacheState::Writing { keys }
                    &&& key_records(keys) == records
                    &&& key_set_text(keys) matches Some(text)
                    &&& step.performs(write_keys(text))
                }
                ||| {
                    &&& next is Finished
                    &&& step.breaks()
                    &&& exists|keys: JwkSet|
                        #[trigger] key_records(keys) == records && key_set_text(keys) is None
                }
            },
            None => next is Finished && step.breaks(),
        },
        (KeyCacheState::Writing { keys }, Reply::Done) => {
            &&& next == (KeyCacheState::Expiring { keys })
            &&& step.performs(expire_keys())
        },
        (KeyCacheState::Expiring { keys }, Reply::Done) => {
            &&& next is Finished
            &&& step == Step::Finish(Ok::<JwkSet, AppError>(keys))
        },
        (KeyCacheState::Finished, _) => next is Finished && step.breaks_with("unexpected reply"@),
        (_, Reply::Failed(text)) => next is Finished && step.breaks_with(text@),
        _ => next is Finished && step.breaks_with("unexpected reply"@),
    }
}

/// Starts a lookup: the cache store is asked first.
pub fn begin() -> (started: (KeyCacheState, Request))
    ensures
        started.0 is Reading,
        started.1@ == read_keys(),
{
    (KeyCacheState::Reading, Request::Cache(command("jwks").get()))
}

fn unexpected() -> (ended: (KeyCacheState, Step<JwkSet>))
    ensures
        ended.0 is Finished,
        ended.1.breaks_with("unexpected reply"@),
{
    (KeyCacheState::Finished, Step::Finish(Err(AppError::internal("unexpected reply".to_string()))))
}

fn broken(text: String) -> (ended: (KeyCacheState, Step<JwkSet>))
    ensures
        ended.0 is Finished,
        ended.1.breaks_with(text@),
{
    (KeyCacheState::Finished, Step::Finish(Err(AppError::internal(text))))
}

/// Goes on with a lookup when the reply to its last request comes in.
pub fn resume(state: KeyCacheState, reply: Reply, jwks_url: &str) -> (next: (
    KeyCacheState,
    Step<JwkSet>,
))
    ensures
        resumed(state, reply, jwks_url@, next.0, next.1),
{
    match state {
        KeyCacheState::Reading => match reply {
            Reply::CacheValue(Some(text)) => match parse_key_set(text.as_str()) {
                Ok(keys) => (KeyCacheState::Finished, Step::Finish(Ok(keys))),
                Err(err) => broken(json_error_text(&err)),
            },
            Reply::CacheValue(None) => (
                KeyCacheState::Fetching,
                Step::Perform(Request::FetchKeys { url: jwks_url.to_string() }),
            ),
            Reply::Failed(text) => broken(text),
            _ => unexpected(),
        },
        KeyCacheState::Fetching => match reply {
            Reply::Document(body) => match parse_key_set_bytes(body.as_slice()) {
                Ok(keys) => match encode_key_set(&keys) {
                    Ok(text) => (
                        KeyCacheState::Writing { keys },
                        Step::Perform(Request::Cache(command("jwks").set(text))),
                    ),
                    Err(err) => broken(json_error_text(&err)),
                },
                Err(err) => broken(json_error_text(&err)),
            },
            Reply::Failed(text) => broken(text),
            _ => unexpected(),
        },
        KeyCacheState::Writing { keys } => match reply {
            Reply::Done => match command("jwks").expire(cache_ttl()) {
                Ok(expire) => (
                    KeyCacheState::Expiring { keys },
                    Step::Perform(Request::Cache(expire)),
                ),
                Err(err) => (
                    KeyCacheState::Finished,
                    Step::Finish(Err(AppError::InternalError(err))),
                ),
            },
            Reply::Failed(text) => broken(text),
            _ => unexpected(),
        },
        KeyCacheState::Expiring { keys } => match reply {
            Reply::Done => (KeyCacheState::Finished, Step::Finish(Ok(keys))),
            Reply::Failed(text) => broken(text),
            _ => unexpected(),
        },
        KeyCacheState::Finished => unexpected(),
    }
}

/// Once a lookup that found the store empty has written the keys, a lookup
/// that reads the store afterwards is answered from what was written and asks
/// for nothing more: the keys are not fetched again.
pub proof fn lemma_cached_keys_are_not_fetched_again(
    store: Map<Seq<char>, Seq<char>>,
    document: Vec<u8>,
    jwks_url: Seq<char>,
    writing: KeyCacheState,
    written: Step<JwkSet>,
    reply: Reply,
    next: KeyCacheState,
    step: Step<JwkSet>,
)
    requires
        resumed(KeyCacheState::Fetching, Reply::Document(document), jwks_url, writing, written),
        written is Perform,
        store_answers(store_after(store, written->Perform_0@), "jwks"@, reply),
        resumed(KeyCacheState::Reading, reply, jwks_url, next, step),
    ensures
        next is Finished,
        step is Finish,
        writing matches KeyCacheState::Writing { keys } && key_set_text(keys) matches Some(text)
            && match key_set_of_text(text) {
            Some(records) => step matches Step::Finish(Ok(found)) && key_records(found) == records,
            None => step.breaks(),
        },
{
}

/// How many requests a lookup may still make.
pub open spec fn requests_left(state: KeyCacheState) -> nat {
    match state {
        KeyCacheState::Reading => 3,
        KeyCacheState::Fetching => 2,
        KeyCacheState::Writing { .. } => 1,
        KeyCacheState::Expiring { .. } => 0,
        KeyCacheState::Finished => 0,
    }
}

/// A lookup only moves forward: it finishes exactly when it asks for nothing
/// more, every request uses up one of the requests that are left, the
/// authorization server is asked only after the store had nothing, and the
/// store is written to only after the fetch. So a lookup fetches at most
/// once, writes at most once, and ends after four replies at the latest.
pub proof fn lemma_lookup_moves_forward(
    state: KeyCacheState,
    reply: Reply,
    jwks_url: Seq<char>,
    next: KeyCacheState,
    step: Step<JwkSet>,
)
    requires
        resumed(state, reply, jwks_url, next, step),
    ensures
        step is Finish <==> next is Finished,
        step is Perform ==> requests_left(next) + 1 == requests_left(state),
        step matches Step::Perform(request) ==> {
            &&& request@ is FetchKeys <==> state is Reading
            &&& (request@ matches RequestView::Cache(CacheCommandView::Store { .. })) <==> state
                is Fetching
            &&& (request@ matches RequestView::Cache(CacheCommandView::Expire { .. })) <==> state
                is Writing
        },
{
}

/// Keys that were written to the store are not handed out before they were
/// given their day to live: after the write, the lookup either asks for the
/// expiry or fails.
pub proof fn lemma_written_keys_are_given_a_lifetime(
    keys: JwkSet,
    reply: Reply,
    jwks_url: Seq<char>,
    next: KeyCacheState,
    step: Step<JwkSet>,
)
    requires
        resumed(KeyCacheState::Writing { keys }, reply, jwks_url, next, step),
    ensures
        step.performs(expire_keys()) || step.breaks(),
        reply is Done <==> step.performs(expire_keys()),
{
}

} // verus!
