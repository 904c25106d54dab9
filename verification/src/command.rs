//! The run specification: the configured action and the page to fetch.

use vstd::prelude::*;
use crate::sort::ParseError;
use crate::sort::RedditSort;

verus! {

/// The operation to apply to each fetched item.
#[derive(Debug, PartialEq, Eq)]
pub enum Provide {
    /// Post a reply naming the given target under each item.  A meaningful
    /// call needs a non-empty target identity; `Command::new` rejects an
    /// empty one, and the dispatcher refuses to fetch for it.
    BotCall(String),
    /// Do nothing: a run with this action makes no platform calls.
    Nothing,
}

/// One run's specification: the action to apply, the collection to fetch
/// from, the feed-sort strategy, and the requested page size.  Built once
/// per run and consumed by the dispatcher.
#[derive(Debug, PartialEq, Eq)]
pub struct Command {
    pub provide: Provide,
    pub subreddit: String,
    pub sort: RedditSort,
    pub n: u32,
}

impl Command {
    /// A command is well formed when its page size is positive and, for a
    /// reply action, its target identity is non-empty.
    pub open spec fn wf(self) -> bool {
        &&& self.n >= 1
        &&& match self.provide {
            Provide::BotCall(t) => t@.len() > 0,
            Provide::Nothing => true,
        }
    }

    /// Builds a run specification.  A reply action whose target identity is
    /// empty is rejected here, before any network call could be tied to it;
    /// every other input yields the command made of exactly these parts.
    pub fn new(provide: Provide, subreddit: String, sort: RedditSort, n: u32) -> (r: Result<
        Command,
        ParseError,
    >)
        requires
            n >= 1,
        ensures
            r is Ok <==> !(provide matches Provide::BotCall(t) && t@.len() == 0),
            r matches Ok(c) ==> c == (Command { provide, subreddit, sort, n }) && c.wf(),
    {
        let empty_target = match &provide {
            Provide::BotCall(t) => t.as_str().is_empty(),
            Provide::Nothing => false,
        };
        if empty_target {
            Err(ParseError)
        } else {
            Ok(Command { provide, subreddit, sort, n })
        }
    }
}

} // verus!
