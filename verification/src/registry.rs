//! The calls of all sessions: at most one per session, created by the first
//! join and wired to its handlers once.

use crate::call::{CallView, Link, VoiceCall};
use crate::error::{ParakeetError, UserError};
use crate::events::Handler;
use std::collections::HashMap;
use vstd::prelude::*;

verus! {

/// What a caller that wants a call for a session has to do.
#[derive(Clone, Copy, Debug, PartialEq, Eq, Structural)]
pub enum JoinPlan {
    /// The session has a live call: use it as it is.
    Reuse,
    /// The session has no live call: connect, then report how it went.
    Connect,
}

/// What became of a connection that was established for a session.
#[derive(Clone, Copy, Debug, PartialEq, Eq, Structural)]
pub enum JoinOutcome {
    /// The session had no call: one was stored, and its three handlers are
    /// to be registered now.
    Created,
    /// The session had a call that was disconnected: it is connected again,
    /// under the handlers it already has.
    Rejoined,
    /// The session had a live call already: that call stays, and the
    /// connection that was just established is to be discarded.
    Lost,
}

/// Whether `calls` holds a live call for `session`.
pub open spec fn has_live(calls: Map<u64, CallView>, session: u64) -> bool {
    calls.contains_key(session) && calls[session].is_live()
}

/// What a caller that wants a call for `session` has to do.
pub open spec fn join_plan(calls: Map<u64, CallView>, session: u64) -> JoinPlan {
    if has_live(calls, session) {
        JoinPlan::Reuse
    } else {
        JoinPlan::Connect
    }
}

/// What becomes of a connection that was established for `session`.
pub open spec fn join_outcome(calls: Map<u64, CallView>, session: u64) -> JoinOutcome {
    if has_live(calls, session) {
        JoinOutcome::Lost
    } else if calls.contains_key(session) {
        JoinOutcome::Rejoined
    } else {
        JoinOutcome::Created
    }
}

/// The calls after a connection to `channel` was established for `session`.
pub open spec fn after_join(calls: Map<u64, CallView>, session: u64, channel: u64) -> Map<
    u64,
    CallView,
> {
    match join_outcome(calls, session) {
        JoinOutcome::Lost => calls,
        JoinOutcome::Rejoined => calls.insert(
            session,
            CallView { link: Link::Connected { channel }, ..calls[session] },
        ),
        JoinOutcome::Created => calls.insert(
            session,
            CallView { session, link: Link::Connected { channel }, queue: Seq::empty() },
        ),
    }
}

/// The handlers that are registered after a join with this outcome: all
/// three for a call that was created, none otherwise.
pub open spec fn registered_by(outcome: JoinOutcome) -> Seq<Handler> {
    if outcome == JoinOutcome::Created {
        seq![Handler::IdleMonitor, Handler::DisconnectHandler, Handler::TrackEndHandler]
    } else {
        Seq::empty()
    }
}

/// Whether the connection of a join with this outcome is kept.
pub open spec fn keeps_connection(outcome: JoinOutcome) -> bool {
    outcome != JoinOutcome::Lost
}

/// The handlers to register after a join with this outcome.
pub fn handlers_to_register(outcome: JoinOutcome) -> (handlers: Vec<Handler>)
    ensures
        handlers@ == registered_by(outcome),
{
    let mut handlers: Vec<Handler> = Vec::new();
    match outcome {
        JoinOutcome::Created => {
            handlers.push(Handler::IdleMonitor);
            handlers.push(Handler::DisconnectHandler);
            handlers.push(Handler::TrackEndHandler);
        },
        _ => {},
    }
    handlers
}

/// The calls of all sessions, by session. Where a method changes the map, it
/// moves the map out first and back when it is done, so that the registry
/// is well formed at each step.
#[derive(Debug)]
pub struct CallRegistry {
    calls: HashMap<u64, VoiceCall>,
}

impl View for CallRegistry {
    type V = Map<u64, CallView>;

    closed spec fn view(&self) -> Map<u64, CallView> {
        Map::new(|session: u64| self.calls@.contains_key(session), |session: u64| self.calls@[session]@)
    }
}

impl CallRegistry {
    /// Every call is stored under its own session, and none is stored while
    /// it is joining.
    #[verifier::type_invariant]
    spec fn well_formed(self) -> bool {
        forall|session: u64| #[trigger]
            self.calls@.contains_key(session) ==> self.calls@[session]@.session == session
                && !(self.calls@[session]@.link is Connecting)
    }

    /// A registry without calls.
    pub fn new() -> (registry: Self)
        ensures
            registry@ == Map::<u64, CallView>::empty(),
    {
        broadcast use vstd::std_specs::hash::group_hash_axioms;

        CallRegistry { calls: HashMap::new() }
    }

    /// The live call of `session`. A session whose call is disconnected, or
    /// that never had one, has no active call.
    pub fn lookup(&self, session: u64) -> (found: Result<&VoiceCall, UserError>)
        ensures
            has_live(self@, session) ==> found is Ok && found->Ok_0@ == self@[session],
            !has_live(self@, session) ==> found == Err::<&VoiceCall, UserError>(
                UserError::NoActiveCall,
            ),
    {
        broadcast use vstd::std_specs::hash::group_hash_axioms;

        match self.calls.get(&session) {
            Some(call) => {
                if call.is_live() {
                    Ok(call)
                } else {
                    Err(UserError::NoActiveCall)
                }
            },
            None => Err(UserError::NoActiveCall),
        }
    }

    /// Whether the session has a call, live or not.
    pub fn contains(&self, session: u64) -> (known: bool)
        ensures
            known == self@.contains_key(session),
    {
        broadcast use vstd::std_specs::hash::group_hash_axioms;

        self.calls.contains_key(&session)
    }

    /// What a caller that wants a call for `session` has to do. The
    /// registry is only read: the connection is established by the caller,
    /// who then reports to [`CallRegistry::complete_join`].
    pub fn plan_join(&self, session: u64) -> (plan: JoinPlan)
        ensures
            plan == join_plan(self@, session),
    {
        match self.lookup(session) {
            Ok(_) => JoinPlan::Reuse,
            Err(_) => JoinPlan::Connect,
        }
    }

    /// Takes in the end of a join of `channel` for `session`. A failed join
    /// is an error and changes nothing. After a join that went well the
    /// session has a live call: the one it had, if that was live (the new
    /// connection has lost and is to be discarded); the one it had,
    /// connected again; or a new one with an empty queue.
    pub fn complete_join(&mut self, session: u64, channel: u64, joined: Result<(), String>) -> (done:
        Result<JoinOutcome, ParakeetError>)
        ensures
            match joined {
                Ok(_) => done == Ok::<JoinOutcome, ParakeetError>(join_outcome(old(self)@, session))
                    && final(self)@ == after_join(old(self)@, session, channel),
                Err(description) => done == Err::<JoinOutcome, ParakeetError>(
                    ParakeetError::Songbird(description),
                ) && final(self)@ == old(self)@,
            },
    {
        broadcast use vstd::std_specs::hash::group_hash_axioms;

        proof {
            use_type_invariant(&*self);
        }
        match joined {
            Err(description) => Err(ParakeetError::Songbird(description)),
            Ok(_) => {
                let mut calls: HashMap<u64, VoiceCall> = HashMap::new();
                core::mem::swap(&mut self.calls, &mut calls);
                let outcome = match calls.remove(&session) {
                    Some(mut call) => {
                        let outcome = if call.is_live() {
                            JoinOutcome::Lost
                        } else {
                            call.begin_join(channel);
                            call.finish_join(true);
                            JoinOutcome::Rejoined
                        };
                        calls.insert(session, call);
                        outcome
                    },
                    None => {
                        let mut call = VoiceCall::new(session);
                        call.begin_join(channel);
                        call.finish_join(true);
                        calls.insert(session, call);
                        JoinOutcome::Created
                    },
                };
                core::mem::swap(&mut self.calls, &mut calls);
                Ok(outcome)
            },
        }
    }

    /// Takes the call of `session` out of the registry.
    pub(crate) fn take(&mut self, session: u64) -> (call: Option<VoiceCall>)
        ensures
            final(self)@ == old(self)@.remove(session),
            call is Some == old(self)@.contains_key(session),
            call matches Some(taken) ==> taken@ == old(self)@[session] && taken@.session == session
                && !(taken@.link is Connecting),
    {
        broadcast use vstd::std_specs::hash::group_hash_axioms;

        proof {
            use_type_invariant(&*self);
        }
        let mut calls: HashMap<u64, VoiceCall> = HashMap::new();
        core::mem::swap(&mut self.calls, &mut calls);
        let call = calls.remove(&session);
        core::mem::swap(&mut self.calls, &mut calls);
        call
    }

    /// Stores `call` under its session.
    pub(crate) fn put(&mut self, call: VoiceCall)
        requires
            !(call@.link is Connecting),
        ensures
            final(self)@ == old(self)@.insert(call@.session, call@),
    {
        broadcast use vstd::std_specs::hash::group_hash_axioms;

        proof {
            use_type_invariant(&*self);
        }
        let session = call.session();
        let mut calls: HashMap<u64, VoiceCall> = HashMap::new();
        core::mem::swap(&mut self.calls, &mut calls);
        calls.insert(session, call);
        core::mem::swap(&mut self.calls, &mut calls);
    }
}

/// Two joins of one session keep one connection: after the first the
/// session has a live call, the second finds it, changes nothing and loses.
/// The handlers are registered by the join that created the call, and by no
/// other.
pub proof fn lemma_one_connection_per_session(
    calls: Map<u64, CallView>,
    session: u64,
    first_channel: u64,
    second_channel: u64,
)
    ensures
        ({
            let first = join_outcome(calls, session);
            let between = after_join(calls, session, first_channel);
            let second = join_outcome(between, session);
            &&& has_live(between, session)
            &&& second == JoinOutcome::Lost
            &&& after_join(between, session, second_channel) == between
            &&& !has_live(calls, session) ==> keeps_connection(first) && !keeps_connection(second)
            &&& registered_by(first).len() + registered_by(second).len() == (if calls.contains_key(
                session,
            ) {
                0int
            } else {
                3int
            })
        }),
{
}

/// A join of one session leaves the calls of all others as they are.
pub proof fn lemma_join_is_local(
    calls: Map<u64, CallView>,
    session: u64,
    channel: u64,
    other: u64,
)
    requires
        other != session,
    ensures
        after_join(calls, session, channel).contains_key(other) == calls.contains_key(other),
        calls.contains_key(other) ==> after_join(calls, session, channel)[other] == calls[other],
{
}

} // verus!
