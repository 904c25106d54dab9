//! What holds of whole runs.
//!
//! `run_states` and `run_actions` fold `spec_step` over a sequence of
//! events; the proof functions here state the guarantees the dispatcher
//! gives over every such run: which commands can never reach the network,
//! that a failed run stays failed, and that a successful reply run requests
//! exactly one reply per fetched item, in order.

use vstd::prelude::*;
use crate::command::Command;
use crate::command::Provide;
use crate::dispatch::spec_step;
use crate::dispatch::Action;
use crate::dispatch::Event;
use crate::dispatch::RunError;
use crate::dispatch::State;

verus! {

/// The state a run reaches after consuming the given events in order.
pub open spec fn run_states(cmd: Command, s: State, evs: Seq<Event>) -> State
    decreases evs.len(),
{
    if evs.len() == 0 {
        s
    } else {
        run_states(cmd, spec_step(cmd, s, evs[0]).0, evs.drop_first())
    }
}

/// The actions a run requests while consuming the given events in order,
/// one per event.
pub open spec fn run_actions(cmd: Command, s: State, evs: Seq<Event>) -> Seq<Action>
    decreases evs.len(),
{
    if evs.len() == 0 {
        Seq::empty()
    } else {
        seq![spec_step(cmd, s, evs[0]).1] + run_actions(
            cmd,
            spec_step(cmd, s, evs[0]).0,
            evs.drop_first(),
        )
    }
}

/// A network call tied to the feed: a page fetch or a per-item reply.
/// (The initial authentication exchange is a separate, earlier call.)
pub open spec fn is_feed_call(a: Action) -> bool {
    a is FetchHot || a is Reply
}

/// A command that never reaches the fetch/reply phase: a no-op action, an
/// empty target identity, or a sort tag with no wired fetch behaviour.
pub open spec fn never_fetches(cmd: Command) -> bool {
    match cmd.provide {
        Provide::Nothing => true,
        Provide::BotCall(target) => target@.len() == 0 || !(cmd.sort is Hot),
    }
}

/// The states outside the fetch/reply phase.
pub open spec fn quiet(s: State) -> bool {
    !(s is Fetching) && !(s is Dispatching)
}

/// Under a command that never fetches, one step from a quiet state stays
/// quiet and requests no feed call.
proof fn lemma_quiet_step(cmd: Command, s: State, ev: Event)
    requires
        never_fetches(cmd),
        quiet(s),
    ensures
        quiet(spec_step(cmd, s, ev).0),
        !is_feed_call(spec_step(cmd, s, ev).1),
{
}

/// Under a command that never fetches, a run from a quiet state requests
/// no feed call, whatever events arrive.
proof fn lemma_quiet_run(cmd: Command, s: State, evs: Seq<Event>)
    requires
        never_fetches(cmd),
        quiet(s),
    ensures
        forall|i: int|
            0 <= i < run_actions(cmd, s, evs).len() ==> !is_feed_call(
                #[trigger] run_actions(cmd, s, evs)[i],
            ),
    decreases evs.len(),
{
    if evs.len() > 0 {
        lemma_quiet_step(cmd, s, evs[0]);
        let s1 = spec_step(cmd, s, evs[0]).0;
        lemma_quiet_run(cmd, s1, evs.drop_first());
        let acts = run_actions(cmd, s, evs);
        let rest = run_actions(cmd, s1, evs.drop_first());
        assert forall|i: int| 0 <= i < acts.len() implies !is_feed_call(acts[i]) by {
            if i > 0 {
                assert(acts[i] == rest[i - 1]);
            }
        }
    }
}

/// A no-op run makes no feed call: the dispatcher never requests a page
/// fetch or a reply for it, whatever events arrive.
pub proof fn lemma_noop_no_feed_call(cmd: Command, evs: Seq<Event>)
    requires
        cmd.provide is Nothing,
    ensures
        forall|i: int|
            0 <= i < run_actions(cmd, State::Idle, evs).len() ==> !is_feed_call(
                #[trigger] run_actions(cmd, State::Idle, evs)[i],
            ),
{
    lemma_quiet_run(cmd, State::Idle, evs);
}

/// Selecting any sort tag without a wired fetch behaviour keeps the run off
/// the network: no page fetch and no reply is ever requested, and the run
/// that is driven past authentication fails with the feature-gap error.
pub proof fn lemma_unimplemented_sort_no_feed_call(cmd: Command, evs: Seq<Event>)
    requires
        !(cmd.sort is Hot),
    ensures
        forall|i: int|
            0 <= i < run_actions(cmd, State::Idle, evs).len() ==> !is_feed_call(
                #[trigger] run_actions(cmd, State::Idle, evs)[i],
            ),
        (cmd.provide matches Provide::BotCall(t) && t@.len() > 0) ==> spec_step(
            cmd,
            State::Authenticating,
            Event::AuthOk,
        ) == (State::Failed(RunError::Unimplemented), Action::Abort(RunError::Unimplemented)),
{
    lemma_quiet_run(cmd, State::Idle, evs);
}

/// A reply action with an empty target identity keeps the run off the
/// network: no page fetch and no reply is ever requested for it.
pub proof fn lemma_empty_target_no_feed_call(cmd: Command, evs: Seq<Event>)
    requires
        cmd.provide matches Provide::BotCall(t) && t@.len() == 0,
    ensures
        forall|i: int|
            0 <= i < run_actions(cmd, State::Idle, evs).len() ==> !is_feed_call(
                #[trigger] run_actions(cmd, State::Idle, evs)[i],
            ),
{
    lemma_quiet_run(cmd, State::Idle, evs);
}

/// As long as authentication has not succeeded, no feed call occurs: a run
/// whose events never include a successful authentication requests no page
/// fetch and no reply.
pub proof fn lemma_no_auth_no_feed_call(cmd: Command, evs: Seq<Event>)
    requires
        forall|i: int| 0 <= i < evs.len() ==> !(#[trigger] evs[i] is AuthOk),
    ensures
        forall|i: int|
            0 <= i < run_actions(cmd, State::Idle, evs).len() ==> !is_feed_call(
                #[trigger] run_actions(cmd, State::Idle, evs)[i],
            ),
{
    lemma_no_auth_run(cmd, State::Idle, evs);
}

/// Without a successful authentication event, a run from a quiet state
/// stays quiet and requests no feed call.
proof fn lemma_no_auth_run(cmd: Command, s: State, evs: Seq<Event>)
    requires
        quiet(s),
        forall|i: int| 0 <= i < evs.len() ==> !(#[trigger] evs[i] is AuthOk),
    ensures
        forall|i: int|
            0 <= i < run_actions(cmd, s, evs).len() ==> !is_feed_call(
                #[trigger] run_actions(cmd, s, evs)[i],
            ),
    decreases evs.len(),
{
    if evs.len() > 0 {
        let s1 = spec_step(cmd, s, evs[0]).0;
        assert(quiet(s1) && !is_feed_call(spec_step(cmd, s, evs[0]).1));
        assert(forall|i: int|
            0 <= i < evs.drop_first().len() ==> !(#[trigger] evs.drop_first()[i] is AuthOk));
        lemma_no_auth_run(cmd, s1, evs.drop_first());
        let acts = run_actions(cmd, s, evs);
        let rest = run_actions(cmd, s1, evs.drop_first());
        assert forall|i: int| 0 <= i < acts.len() implies !is_feed_call(acts[i]) by {
            if i > 0 {
                assert(acts[i] == rest[i - 1]);
            }
        }
    }
}

/// A failed run is terminal: it stays in its failed state and requests
/// nothing further, whatever events arrive.
pub proof fn lemma_failed_is_terminal(cmd: Command, e: RunError, evs: Seq<Event>)
    ensures
        run_states(cmd, State::Failed(e), evs) == State::Failed(e),
        forall|i: int|
            0 <= i < run_actions(cmd, State::Failed(e), evs).len() ==> #[trigger] run_actions(
                cmd,
                State::Failed(e),
                evs,
            )[i] == Action::Nop,
    decreases evs.len(),
{
    if evs.len() > 0 {
        assert(spec_step(cmd, State::Failed(e), evs[0]) == (State::Failed(e), Action::Nop));
        lemma_failed_is_terminal(cmd, e, evs.drop_first());
        let acts = run_actions(cmd, State::Failed(e), evs);
        let rest = run_actions(cmd, State::Failed(e), evs.drop_first());
        assert forall|i: int| 0 <= i < acts.len() implies acts[i] == Action::Nop by {
            if i > 0 {
                assert(acts[i] == rest[i - 1]);
            }
        }
    }
}

/// Under the sequential contract a failed reply stops the run: the failure
/// is reported at once, and no further reply — indeed nothing at all — is
/// requested afterwards, whatever events arrive.
pub proof fn lemma_reply_failure_stops_run(
    cmd: Command,
    items: Vec<String>,
    next: usize,
    evs: Seq<Event>,
)
    ensures
        ({
            let acts = run_actions(
                cmd,
                State::Dispatching { items, next },
                seq![Event::ReplyFailed] + evs,
            );
            &&& acts[0] == Action::Abort(RunError::Action)
            &&& forall|i: int| 1 <= i < acts.len() ==> #[trigger] acts[i] == Action::Nop
            &&& run_states(
                cmd,
                State::Dispatching { items, next },
                seq![Event::ReplyFailed] + evs,
            ) == State::Failed(RunError::Action)
        }),
{
    let s0 = State::Dispatching { items, next };
    let all = seq![Event::ReplyFailed] + evs;
    assert(all[0] == Event::ReplyFailed);
    assert(all.drop_first() =~= evs);
    assert(spec_step(cmd, s0, Event::ReplyFailed) == (
        State::Failed(RunError::Action),
        Action::Abort(RunError::Action),
    ));
    lemma_failed_is_terminal(cmd, RunError::Action, evs);
    let acts = run_actions(cmd, s0, all);
    let rest = run_actions(cmd, State::Failed(RunError::Action), evs);
    assert forall|i: int| 1 <= i < acts.len() implies acts[i] == Action::Nop by {
        assert(acts[i] == rest[i - 1]);
    }
}

/// Splitting a run: consuming `evs1 + evs2` is consuming `evs1`, then
/// consuming `evs2` from the state that left off.
pub proof fn lemma_run_append(cmd: Command, s: State, evs1: Seq<Event>, evs2: Seq<Event>)
    ensures
        run_states(cmd, s, evs1 + evs2) == run_states(cmd, run_states(cmd, s, evs1), evs2),
        run_actions(cmd, s, evs1 + evs2) == run_actions(cmd, s, evs1) + run_actions(
            cmd,
            run_states(cmd, s, evs1),
            evs2,
        ),
    decreases evs1.len(),
{
    if evs1.len() == 0 {
        assert(evs1 + evs2 =~= evs2);
        assert(run_actions(cmd, s, evs1) + run_actions(cmd, s, evs2) =~= run_actions(
            cmd,
            s,
            evs2,
        ));
    } else {
        let s1 = spec_step(cmd, s, evs1[0]).0;
        assert((evs1 + evs2)[0] == evs1[0]);
        assert((evs1 + evs2).drop_first() =~= evs1.drop_first() + evs2);
        lemma_run_append(cmd, s1, evs1.drop_first(), evs2);
        assert(run_actions(cmd, s, evs1 + evs2) =~= run_actions(cmd, s, evs1) + run_actions(
            cmd,
            run_states(cmd, s, evs1),
            evs2,
        ));
    }
}

/// The reply loop: from the dispatch state with `next` replies already
/// requested, a string of per-item successes requests exactly one reply
/// for each remaining item, in order, and then reports completion.
proof fn lemma_dispatch_loop(cmd: Command, target: String, items: Vec<String>, next: usize)
    requires
        cmd.provide == Provide::BotCall(target),
        1 <= next <= items@.len(),
    ensures
        ({
            let remaining = items@.len() - next;
            let evs = Seq::new((remaining + 1) as nat, |i: int| Event::ReplyOk);
            &&& run_states(cmd, State::Dispatching { items, next }, evs) == State::Done
            &&& run_actions(cmd, State::Dispatching { items, next }, evs) == Seq::new(
                remaining as nat,
                |i: int| Action::Reply { target, item: items@[next + i] },
            ) + seq![Action::Finish]
        }),
    decreases items@.len() - next,
{
    broadcast use vstd::std_specs::vec::axiom_spec_len;

    let remaining = items@.len() - next;
    let evs = Seq::new((remaining + 1) as nat, |i: int| Event::ReplyOk);
    let s0 = State::Dispatching { items, next };
    let goal = Seq::new(remaining as nat, |i: int| Action::Reply { target, item: items@[next + i] })
        + seq![Action::Finish];
    assert(vstd::std_specs::vec::spec_vec_len(&items) == items@.len());
    assert(evs[0] == Event::ReplyOk);
    if next == items@.len() {
        assert(spec_step(cmd, s0, Event::ReplyOk) == (State::Done, Action::Finish));
        assert(run_actions(cmd, s0, evs) == seq![Action::Finish] + run_actions(
            cmd,
            State::Done,
            evs.drop_first(),
        ));
        assert(run_states(cmd, s0, evs) == run_states(cmd, State::Done, evs.drop_first()));
        assert(evs.drop_first() =~= Seq::<Event>::empty());
        assert(run_actions(cmd, State::Done, Seq::<Event>::empty()) == Seq::<Action>::empty());
        assert(run_states(cmd, State::Done, Seq::<Event>::empty()) == State::Done);
        assert(run_actions(cmd, s0, evs) =~= goal);
    } else {
        let next1 = (next + 1) as usize;
        let s1 = State::Dispatching { items, next: next1 };
        assert(spec_step(cmd, s0, Event::ReplyOk) == (
            s1,
            Action::Reply { target, item: items@[next as int] },
        ));
        assert(run_actions(cmd, s0, evs) == seq![
            Action::Reply { target, item: items@[next as int] },
        ] + run_actions(cmd, s1, evs.drop_first()));
        assert(run_states(cmd, s0, evs) == run_states(cmd, s1, evs.drop_first()));
        lemma_dispatch_loop(cmd, target, items, next1);
        let evs1 = Seq::new((items@.len() - next1 + 1) as nat, |i: int| Event::ReplyOk);
        assert(evs.drop_first() =~= evs1);
        let rec = Seq::new(
            (remaining - 1) as nat,
            |i: int| Action::Reply { target, item: items@[next1 + i] },
        ) + seq![Action::Finish];
        assert(run_actions(cmd, s1, evs1) == rec);
        assert(run_states(cmd, s1, evs1) == State::Done);
        assert(seq![Action::Reply { target, item: items@[next as int] }] + rec =~= goal);
        assert(run_actions(cmd, s0, evs) == goal);
    }
}

/// One reply per fetched item, in order, each exactly once: a reply run
/// with a non-empty target and the wired sort that is driven to completion
/// requests exactly the authentication, one hot-page fetch, one reply per
/// fetched item in the platform's order, and then reports completion.
pub proof fn lemma_invoke_replies_each_item_once(cmd: Command, target: String, items: Vec<String>)
    requires
        cmd.provide == Provide::BotCall(target),
        target@.len() > 0,
        cmd.sort is Hot,
    ensures
        ({
            let evs = seq![Event::Start, Event::AuthOk, Event::FetchOk(items)] + Seq::new(
                items@.len(),
                |i: int| Event::ReplyOk,
            );
            &&& run_states(cmd, State::Idle, evs) == State::Done
            &&& run_actions(cmd, State::Idle, evs) == seq![
                Action::Authenticate,
                Action::FetchHot { subreddit: cmd.subreddit, n: cmd.n },
            ] + Seq::new(items@.len(), |i: int| Action::Reply { target, item: items@[i] })
                + seq![Action::Finish]
        }),
{
    let prefix = seq![Event::Start, Event::AuthOk, Event::FetchOk(items)];
    let loop_evs = Seq::new(items@.len(), |i: int| Event::ReplyOk);
    let evs = prefix + loop_evs;
    let goal = seq![
        Action::Authenticate,
        Action::FetchHot { subreddit: cmd.subreddit, n: cmd.n },
    ] + Seq::new(items@.len(), |i: int| Action::Reply { target, item: items@[i] })
        + seq![Action::Finish];
    let tail1 = prefix.drop_first();
    let tail2 = tail1.drop_first();
    let tail3 = tail2.drop_first();
    assert(prefix[0] == Event::Start);
    assert(tail1[0] == Event::AuthOk);
    assert(tail2[0] == Event::FetchOk(items));
    assert(tail3.len() == 0);
    let fetch_act = Action::FetchHot { subreddit: cmd.subreddit, n: cmd.n };
    assert(spec_step(cmd, State::Idle, Event::Start) == (
        State::Authenticating,
        Action::Authenticate,
    ));
    assert(spec_step(cmd, State::Authenticating, Event::AuthOk) == (State::Fetching, fetch_act));
    assert(run_states(cmd, State::Idle, prefix) == run_states(cmd, State::Authenticating, tail1));
    assert(run_states(cmd, State::Authenticating, tail1) == run_states(cmd, State::Fetching, tail2));
    assert(run_actions(cmd, State::Idle, prefix) == seq![Action::Authenticate] + run_actions(
        cmd,
        State::Authenticating,
        tail1,
    ));
    assert(run_actions(cmd, State::Authenticating, tail1) == seq![fetch_act] + run_actions(
        cmd,
        State::Fetching,
        tail2,
    ));
    if items@.len() == 0 {
        assert(spec_step(cmd, State::Fetching, Event::FetchOk(items)) == (
            State::Done,
            Action::Finish,
        ));
        assert(run_states(cmd, State::Fetching, tail2) == run_states(cmd, State::Done, tail3));
        assert(run_actions(cmd, State::Fetching, tail2) == seq![Action::Finish] + run_actions(
            cmd,
            State::Done,
            tail3,
        ));
        assert(run_states(cmd, State::Done, tail3) == State::Done);
        assert(run_actions(cmd, State::Done, tail3) == Seq::<Action>::empty());
        assert(evs =~= prefix);
        assert(run_actions(cmd, State::Idle, evs) =~= goal);
    } else {
        let s1 = State::Dispatching { items, next: 1 };
        assert(spec_step(cmd, State::Fetching, Event::FetchOk(items)) == (
            s1,
            Action::Reply { target, item: items@[0] },
        ));
        assert(run_states(cmd, State::Fetching, tail2) == run_states(cmd, s1, tail3));
        assert(run_actions(cmd, State::Fetching, tail2) == seq![
            Action::Reply { target, item: items@[0] },
        ] + run_actions(cmd, s1, tail3));
        assert(run_states(cmd, s1, tail3) == s1);
        assert(run_actions(cmd, s1, tail3) == Seq::<Action>::empty());
        assert(run_states(cmd, State::Idle, prefix) == s1);
        lemma_run_append(cmd, State::Idle, prefix, loop_evs);
        lemma_dispatch_loop(cmd, target, items, 1);
        let evs1 = Seq::new((items@.len() - 1 + 1) as nat, |i: int| Event::ReplyOk);
        assert(loop_evs =~= evs1);
        assert(run_states(cmd, s1, evs1) == State::Done);
        assert(run_actions(cmd, s1, evs1) == Seq::new(
            (items@.len() - 1) as nat,
            |i: int| Action::Reply { target, item: items@[1 + i] },
        ) + seq![Action::Finish]);
        assert(run_states(cmd, State::Idle, evs) == State::Done);
        assert(run_actions(cmd, State::Idle, evs) =~= goal);
    }
}

} // verus!
