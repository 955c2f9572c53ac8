//! What the library asks the service to do, and what the service reports back.
//!
//! A lookup that needs the cache store or the identity provider runs in
//! steps: the library hands out a `Request`, the service performs it and
//! hands back a `Reply`, until the library finishes with an answer.

use vstd::prelude::*;
use crate::dto::auth::{UserInfo, UserInfoView};
use crate::errors::AppError;
use crate::redis::{CacheCommand, CacheCommandView};

verus! {

/// One thing for the service to do.
#[derive(Debug, Clone, PartialEq, Eq)]
pub enum Request {
    /// Send the command to the cache store.
    Cache(CacheCommand),
    /// Get the key set document from `url`.
    FetchKeys { url: String },
    /// Read the profile that is cached under `key`.
    ReadProfile { key: String },
    /// Get the profile from `url`, presenting `bearer` as the credential.
    FetchProfile { url: String, bearer: String },
    /// Cache `profile` under `key`, in place of what was there.
    WriteProfile { key: String, profile: UserInfo },
}

/// A request as mathematical values.
pub ghost enum RequestView {
    Cache(CacheCommandView),
    FetchKeys { url: Seq<char> },
    ReadProfile { key: Seq<char> },
    FetchProfile { url: Seq<char>, bearer: Seq<char> },
    WriteProfile { key: Seq<char>, profile: UserInfoView },
}

impl View for Request {
    type V = RequestView;

    open spec fn view(&self) -> RequestView {
        match self {
            Request::Cache(command) => RequestView::Cache(command@),
            Request::FetchKeys { url } => RequestView::FetchKeys { url: url@ },
            Request::ReadProfile { key } => RequestView::ReadProfile { key: key@ },
            Request::FetchProfile { url, bearer } => RequestView::FetchProfile {
                url: url@,
                bearer: bearer@,
            },
            Request::WriteProfile { key, profile } => RequestView::WriteProfile {
                key: key@,
                profile: profile@,
            },
        }
    }
}

/// How a request ended.
#[derive(Debug, Clone, PartialEq, Eq)]
pub enum Reply {
    /// The text that the cache store holds under the key, if it holds one.
    CacheValue(Option<String>),
    /// The cache store has carried out the command.
    Done,
    /// The body of the document that was fetched.
    Document(Vec<u8>),
    /// The profile that the cache store holds under the key, if it holds one.
    CachedProfile(Option<UserInfo>),
    /// The status that the identity provider answered with, and the profile in the body.
    FetchedProfile { status: u16, profile: UserInfo },
    /// The request could not be carried out, or what came back could not be read.
    Failed(String),
}

/// Whether an HTTP status reports an error of the client or of the server.
pub open spec fn is_http_error(status: u16) -> bool {
    status >= 400
}

/// What comes next: another request, or the answer.
#[derive(Debug)]
pub enum Step<T> {
    Perform(Request),
    Finish(Result<T, AppError>),
}

impl<T> Step<T> {
    /// The step asks for exactly `request`.
    pub open spec fn performs(self, request: RequestView) -> bool {
        self matches Step::Perform(asked) && asked@ == request
    }

    /// The step finishes with a refusal as unauthorized, with `reason` shown to the caller.
    pub open spec fn refuses(self, reason: Seq<char>) -> bool {
        self matches Step::Finish(Err(err)) && err.is_authorization(reason)
    }

    /// The step finishes with an internal failure described by `text`.
    pub open spec fn breaks_with(self, text: Seq<char>) -> bool {
        self matches Step::Finish(Err(err)) && err.is_internal(text)
    }

    /// The step finishes with an internal failure.
    pub open spec fn breaks(self) -> bool {
        self matches Step::Finish(Err(err)) && err is InternalError
    }
}

/// The texts in a cache store after `request` has been carried out on `store`.
pub open spec fn store_after(store: Map<Seq<char>, Seq<char>>, request: RequestView) -> Map<
    Seq<char>,
    Seq<char>,
> {
    match request {
        RequestView::Cache(CacheCommandView::Store { key, value }) => store.insert(key, value),
        RequestView::Cache(CacheCommandView::Delete { key }) => store.remove(key),
        _ => store,
    }
}

/// `reply` is what a cache store that holds `store` answers when `key` is read.
pub open spec fn store_answers(
    store: Map<Seq<char>, Seq<char>>,
    key: Seq<char>,
    reply: Reply,
) -> bool {
    reply matches Reply::CacheValue(held) && match held {
        Some(text) => store.contains_key(key) && store[key] == text@,
        None => !store.contains_key(key),
    }
}

} // verus!
