//! The dispatcher: a state machine that decides, one event at a time, which
//! platform call the run makes next.
//!
//! The surrounding program performs the network calls.  It drives the
//! machine in a loop: it hands the machine an event (the run start, or the
//! outcome of the call it just made) and receives the next requested action
//! back.  Every decision — the no-op short circuit, the rejection of an
//! empty target or an unimplemented sort before any fetch, the strictly
//! sequential reply loop, and the fail-fast stop on the first error — is
//! made here and verified against `spec_step`.

use vstd::prelude::*;
use crate::command::Command;
use crate::command::Provide;
use crate::sort::RedditSort;

verus! {

/// The tagged failures a run can end with.
#[derive(Debug, PartialEq, Eq, Clone, Copy)]
pub enum RunError {
    /// Credential rejection or transport failure while authenticating.
    Auth,
    /// A reply action whose target identity is empty.
    Parse,
    /// A recognized sort tag with no wired fetch behaviour: a feature gap,
    /// not a runtime fault.
    Unimplemented,
    /// The page retrieval failed.
    Fetch,
    /// A single item's reply failed; under the sequential contract this
    /// aborts the remaining items.
    Action,
}

/// Where a run stands.  `Dispatching` carries the fetched page and the
/// index of the next item to reply under; `next` also counts the replies
/// requested so far.
#[derive(Debug, PartialEq, Eq)]
pub enum State {
    Idle,
    Authenticating,
    Fetching,
    Dispatching { items: Vec<String>, next: usize },
    Done,
    Failed(RunError),
}

/// What the driving program reports to the machine: the run start, or the
/// outcome of the call it was last asked to make.
#[derive(Debug, PartialEq, Eq)]
pub enum Event {
    Start,
    AuthOk,
    AuthFailed,
    /// The fetched page: one stable identifier per item, in platform order.
    FetchOk(Vec<String>),
    FetchFailed,
    ReplyOk,
    ReplyFailed,
}

/// What the machine asks the driving program to do next.  `FetchHot` and
/// `Reply` are the only network calls a run can request besides the initial
/// authentication.
#[derive(Debug, PartialEq, Eq)]
pub enum Action {
    /// Exchange the credentials for an authenticated session handle.
    Authenticate,
    /// Fetch one page of `n` items from the named collection, ordered by
    /// the platform's "hot" ranking.
    FetchHot { subreddit: String, n: u32 },
    /// Post a reply naming `target`, addressed to the item `item`.
    Reply { target: String, item: String },
    /// The run is complete; nothing further happens.
    Finish,
    /// The run failed; nothing further happens.
    Abort(RunError),
    /// Nothing to do: the event did not apply to the current state.
    Nop,
}

/// The reply action for one item, as the command's action determines it.
pub open spec fn reply_action(cmd: Command, item: String) -> Action {
    match cmd.provide {
        Provide::BotCall(target) => Action::Reply { target, item },
        Provide::Nothing => Action::Nop,
    }
}

/// One transition of the dispatcher: from a state and an event to the next
/// state and the requested action.  The machine is total: an event that
/// does not apply to the current state changes nothing and requests
/// nothing.
pub open spec fn spec_step(cmd: Command, s: State, ev: Event) -> (State, Action) {
    match (s, ev) {
        (State::Idle, Event::Start) => (State::Authenticating, Action::Authenticate),
        (State::Authenticating, Event::AuthOk) => match cmd.provide {
            Provide::Nothing => (State::Done, Action::Finish),
            Provide::BotCall(target) => if target@.len() == 0 {
                (State::Failed(RunError::Parse), Action::Abort(RunError::Parse))
            } else if !(cmd.sort is Hot) {
                (State::Failed(RunError::Unimplemented), Action::Abort(RunError::Unimplemented))
            } else {
                (State::Fetching, Action::FetchHot { subreddit: cmd.subreddit, n: cmd.n })
            },
        },
        (State::Authenticating, Event::AuthFailed) => (
            State::Failed(RunError::Auth),
            Action::Abort(RunError::Auth),
        ),
        (State::Fetching, Event::FetchOk(items)) => if items@.len() == 0 {
            (State::Done, Action::Finish)
        } else {
            (State::Dispatching { items, next: 1 }, reply_action(cmd, items@[0]))
        },
        (State::Fetching, Event::FetchFailed) => (
            State::Failed(RunError::Fetch),
            Action::Abort(RunError::Fetch),
        ),
        (State::Dispatching { items, next }, Event::ReplyOk) => if next < items@.len() {
            (
                State::Dispatching { items, next: (next + 1) as usize },
                reply_action(cmd, items@[next as int]),
            )
        } else {
            (State::Done, Action::Finish)
        },
        (State::Dispatching { items, next }, Event::ReplyFailed) => (
            State::Failed(RunError::Action),
            Action::Abort(RunError::Action),
        ),
        (s2, _) => (s2, Action::Nop),
    }
}

/// The dispatcher: one run's command and its current state.  The fields
/// stay private, so every state the machine reaches is reached through
/// `step`.
pub struct Dispatcher {
    command: Command,
    state: State,
}

impl Dispatcher {
    /// The command this run was configured with.
    pub closed spec fn cmd(self) -> Command {
        self.command
    }

    /// The state the run currently stands in.
    pub closed spec fn st(self) -> State {
        self.state
    }

    /// Sets a run up, ready to be started.
    pub fn new(command: Command) -> (d: Dispatcher)
        ensures
            d.cmd() == command,
            d.st() == State::Idle,
    {
        Dispatcher { command, state: State::Idle }
    }

    /// The reply action for one item under this run's command.
    fn make_reply(&self, item: String) -> (a: Action)
        ensures
            a == reply_action(self.command, item),
    {
        match &self.command.provide {
            Provide::BotCall(target) => Action::Reply { target: target.clone(), item },
            Provide::Nothing => Action::Nop,
        }
    }

    /// Feeds the machine one event and returns the next requested action.
    /// The command never changes; the state and the action are exactly what
    /// `spec_step` gives.
    pub fn step(&mut self, ev: Event) -> (a: Action)
        ensures
            final(self).cmd() == old(self).cmd(),
            final(self).st() == spec_step(old(self).cmd(), old(self).st(), ev).0,
            a == spec_step(old(self).cmd(), old(self).st(), ev).1,
    {
        match ev {
            Event::Start => {
                match &self.state {
                    State::Idle => {
                        self.state = State::Authenticating;
                        Action::Authenticate
                    },
                    _ => Action::Nop,
                }
            },
            Event::AuthOk => {
                match &self.state {
                    State::Authenticating => {
                        match &self.command.provide {
                            Provide::Nothing => {
                                self.state = State::Done;
                                Action::Finish
                            },
                            Provide::BotCall(target) => {
                                if target.as_str().is_empty() {
                                    self.state = State::Failed(RunError::Parse);
                                    Action::Abort(RunError::Parse)
                                } else if !(matches!(self.command.sort, RedditSort::Hot)) {
                                    self.state = State::Failed(RunError::Unimplemented);
                                    Action::Abort(RunError::Unimplemented)
                                } else {
                                    let subreddit = self.command.subreddit.clone();
                                    self.state = State::Fetching;
                                    Action::FetchHot { subreddit, n: self.command.n }
                                }
                            },
                        }
                    },
                    _ => Action::Nop,
                }
            },
            Event::AuthFailed => {
                match &self.state {
                    State::Authenticating => {
                        self.state = State::Failed(RunError::Auth);
                        Action::Abort(RunError::Auth)
                    },
                    _ => Action::Nop,
                }
            },
            Event::FetchOk(items) => {
                match &self.state {
                    State::Fetching => {
                        if items.len() == 0 {
                            self.state = State::Done;
                            Action::Finish
                        } else {
                            let first = items[0].clone();
                            self.state = State::Dispatching { items, next: 1 };
                            self.make_reply(first)
                        }
                    },
                    _ => Action::Nop,
                }
            },
            Event::FetchFailed => {
                match &self.state {
                    State::Fetching => {
                        self.state = State::Failed(RunError::Fetch);
                        Action::Abort(RunError::Fetch)
                    },
                    _ => Action::Nop,
                }
            },
            Event::ReplyOk => {
                let mut finish: bool = false;
                let mut item_to_send: Option<String> = None;
                match &mut self.state {
                    State::Dispatching { items, next } => {
                        if *next < items.len() {
                            item_to_send = Some(items[*next].clone());
                            *next = *next + 1;
                        } else {
                            finish = true;
                        }
                    },
                    _ => {},
                }
                if finish {
                    self.state = State::Done;
                    Action::Finish
                } else {
                    match item_to_send {
                        Some(item) => self.make_reply(item),
                        None => Action::Nop,
                    }
                }
            },
            Event::ReplyFailed => {
                match &self.state {
                    State::Dispatching { .. } => {
                        self.state = State::Failed(RunError::Action);
                        Action::Abort(RunError::Action)
                    },
                    _ => Action::Nop,
                }
            },
        }
    }
}

} // verus!
