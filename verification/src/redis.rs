//! Commands for the cache store, as values.
//!
//! The library names the key and works out the arguments of a command; the
//! service around it sends the command to the store.

use vstd::prelude::*;
use chrono::Duration;
use crate::errors::InternalError;

verus! {

/// One command for the cache store.
#[derive(Debug, Clone, PartialEq, Eq)]
pub enum CacheCommand {
    Get { key: String },
    Store { key: String, value: String },
    Expire { key: String, seconds: usize },
    Delete { key: String },
}

/// A command as mathematical values.
pub ghost enum CacheCommandView {
    Get { key: Seq<char> },
    Store { key: Seq<char>, value: Seq<char> },
    Expire { key: Seq<char>, seconds: int },
    Delete { key: Seq<char> },
}

impl View for CacheCommand {
    type V = CacheCommandView;

    open spec fn view(&self) -> CacheCommandView {
        match self {
            CacheCommand::Get { key } => CacheCommandView::Get { key: key@ },
            CacheCommand::Store { key, value } => CacheCommandView::Store {
                key: key@,
                value: value@,
            },
            CacheCommand::Expire { key, seconds } => CacheCommandView::Expire {
                key: key@,
                seconds: *seconds as int,
            },
            CacheCommand::Delete { key } => CacheCommandView::Delete { key: key@ },
        }
    }
}

/// The most days, forwards or backwards, that a `chrono::Duration` can hold.
pub const MAX_DAYS: i64 = 106_751_991_167;

/// The seconds of one day.
pub const SECONDS_PER_DAY: i64 = 86_400;

/// `Duration::days`, read back with `Duration::num_seconds`: the seconds of
/// so many days. `Duration::days` panics where the days are more than a
/// `Duration` can hold.
#[verifier::external_body]
pub(crate) fn seconds_in_days(days: i64) -> (seconds: i64)
    requires
        -MAX_DAYS <= days <= MAX_DAYS,
    ensures
        seconds == days * SECONDS_PER_DAY,
{
    Duration::days(days).num_seconds()
}

/// How long a cached value stays valid, in seconds: one day.
pub fn cache_ttl() -> (seconds: i64)
    ensures
        seconds == SECONDS_PER_DAY,
{
    seconds_in_days(1)
}

/// Builds the commands that act on one key.
#[derive(Debug, Clone)]
pub struct CommandBuilder {
    key: String,
}

/// A builder for the commands that act on `key`.
pub fn command(key: &str) -> (builder: CommandBuilder)
    ensures
        builder.key() == key@,
{
    CommandBuilder { key: key.to_string() }
}

impl CommandBuilder {
    /// The key that the commands of this builder act on.
    pub closed spec fn key(self) -> Seq<char> {
        self.key@
    }

    /// Reads the value under the key.
    pub fn get(&self) -> (command: CacheCommand)
        ensures
            command@ == (CacheCommandView::Get { key: self.key() }),
    {
        CacheCommand::Get { key: self.key.clone() }
    }

    /// Puts `value` under the key, in place of what was there.
    pub fn set(&self, value: String) -> (command: CacheCommand)
        ensures
            command@ == (CacheCommandView::Store { key: self.key(), value: value@ }),
    {
        CacheCommand::Store { key: self.key.clone(), value }
    }

    /// Lets the key lapse after `ttl` seconds. Seconds that are negative, or
    /// more than a `usize` holds, are no time to live.
    pub fn expire(&self, ttl: i64) -> (command: Result<CacheCommand, InternalError>)
        ensures
            match command {
                Ok(made) => 0 <= ttl <= usize::MAX && made@ == (CacheCommandView::Expire {
                    key: self.key(),
                    seconds: ttl as int,
                }),
                Err(err) => !(0 <= ttl <= usize::MAX) && err.text()
                    == "out of range integral type conversion attempted"@,
            },
    {
        match usize::try_from(ttl) {
            Ok(seconds) => Ok(CacheCommand::Expire { key: self.key.clone(), seconds }),
            Err(_) => Err(
                InternalError::new("out of range integral type conversion attempted".to_string()),
            ),
        }
    }

    /// Removes the key.
    pub fn delete(self) -> (command: CacheCommand)
        ensures
            command@ == (CacheCommandView::Delete { key: self.key() }),
    {
        CacheCommand::Delete { key: self.key }
    }
}

} // verus!
