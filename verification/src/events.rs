//! The three watchers of a call and what each does when it is triggered:
//! the idle monitor on its timer, the disconnect handler when the transport
//! drops, the track-end handler when the current track has finished.

use crate::call::{CallView, Link, VoiceCall};
use crate::metadata::{QueueMeta, TrackMetadata};
use crate::text::concat2;
use vstd::prelude::*;
use vstd::string::*;

verus! {

/// The seconds between two checks of the idle monitor.
pub const IDLE_CHECK_SECS: u64 = 300;

/// One member of a voice channel, as the membership resolver reports it.
#[derive(Clone, Copy, Debug, PartialEq, Eq, Structural)]
pub struct Member {
    /// Whether the member is a bot.
    pub is_bot: bool,
}

/// What the membership resolver answered for a channel.
#[derive(Debug, PartialEq)]
pub enum Lookup {
    /// The members could not be resolved: the channel was not found, a
    /// permission is missing, the resolver is out.
    Failed,
    /// The members of the channel.
    Members(Vec<Member>),
}

/// What becomes of a handler after it has acted.
#[derive(Clone, Copy, Debug, PartialEq, Eq, Structural)]
pub enum Verdict {
    /// The handler stays registered.
    Continue,
    /// The handler is removed for good.
    Cancel,
}

/// The three kinds of handler that a call has.
#[derive(Clone, Copy, Debug, PartialEq, Eq, Structural)]
pub enum Handler {
    /// Leaves a call in which nobody listens.
    IdleMonitor,
    /// Clears the queues once the transport has dropped.
    DisconnectHandler,
    /// Removes the metadata of a track that has finished.
    TrackEndHandler,
}

/// What a handler is told.
#[derive(Debug, PartialEq)]
pub enum Notification {
    /// The timer fired. With it comes what the membership resolver answered
    /// for the call's channel; for a call without a channel nothing was asked
    /// and the answer does not count.
    Tick {
        /// The resolver's answer.
        lookup: Lookup,
    },
    /// The transport has torn the connection down.
    TransportDisconnect,
    /// The current track has finished.
    TrackEnd,
}

/// What a handler did.
#[derive(Debug, PartialEq)]
pub enum Effect {
    /// Nothing.
    Nothing,
    /// The members could not be looked up; the call was left alone.
    LookupFailed,
    /// Nobody was listening: the call was left.
    Left,
    /// Both queues were cleared.
    Cleared,
    /// The metadata of the finished track was removed.
    Removed(TrackMetadata),
    /// A track finished while no metadata was queued.
    Desync,
}

/// How loud a log line is.
#[derive(Clone, Copy, Debug, PartialEq, Eq, Structural)]
pub enum LogLevel {
    /// For the developer.
    Debug,
    /// Worth knowing.
    Info,
    /// Something is wrong.
    Error,
}

/// What a handler did and what becomes of it.
#[derive(Debug, PartialEq)]
pub struct Reaction {
    /// What was done.
    pub effect: Effect,
    /// Whether the handler stays registered.
    pub verdict: Verdict,
}

/// Whether one of `members` is not a bot.
pub open spec fn has_listener(members: Seq<Member>) -> bool {
    exists|i: int| 0 <= i < members.len() && !members[i].is_bot
}

/// Whether a tick with the answer `lookup` makes the idle monitor leave
/// `call`: the call is in a channel, the members were resolved, and all of
/// them are bots.
pub open spec fn idle_leaves(call: CallView, lookup: Lookup) -> bool {
    &&& call.current_channel() is Some
    &&& lookup matches Lookup::Members(members)
    &&& !has_listener(members@)
}

/// What a tick of the idle monitor does.
pub open spec fn tick_effect(call: CallView, lookup: Lookup) -> Effect {
    if call.current_channel() is None {
        Effect::Nothing
    } else {
        match lookup {
            Lookup::Failed => Effect::LookupFailed,
            Lookup::Members(members) => if has_listener(members@) {
                Effect::Nothing
            } else {
                Effect::Left
            },
        }
    }
}

/// What the handling of a track end does with `meta` queued.
pub open spec fn track_end_effect(meta: Seq<TrackMetadata>) -> Effect {
    if meta.len() == 0 {
        Effect::Desync
    } else {
        Effect::Removed(meta[0])
    }
}

/// The call after a tick of the idle monitor.
pub open spec fn after_tick(call: CallView, lookup: Lookup) -> CallView {
    if idle_leaves(call, lookup) {
        call.left()
    } else {
        call
    }
}

/// The call after the transport reported a disconnect: nothing is queued,
/// and a call that was connected no longer is.
pub open spec fn after_disconnect(call: CallView) -> CallView {
    CallView {
        queue: Seq::empty(),
        link: if call.link is Connected {
            Link::Disconnected
        } else {
            call.link
        },
        ..call
    }
}

/// The metadata queue after a track end was handled: it has lost its
/// front, if it had one.
pub open spec fn meta_after_track_end(meta: Seq<TrackMetadata>) -> Seq<TrackMetadata> {
    if meta.len() == 0 {
        meta
    } else {
        meta.drop_first()
    }
}

/// Whether one of `members` is not a bot.
pub fn any_listener(members: &Vec<Member>) -> (found: bool)
    ensures
        found == has_listener(members@),
{
    let mut index: usize = 0;
    while index < members.len()
        invariant
            0 <= index <= members.len(),
            forall|i: int| 0 <= i < index ==> members@[i].is_bot,
        decreases members.len() - index,
    {
        if !members[index].is_bot {
            return true;
        }
        index = index + 1;
    }
    false
}

/// The channel whose members the idle monitor needs before it can act on a
/// tick. A call without a channel needs none: it is torn down already.
pub fn idle_probe(call: &VoiceCall) -> (channel: Option<u64>)
    ensures
        channel == call@.current_channel(),
{
    call.current_channel()
}

/// The idle monitor's reaction to a tick. A call without a channel is left
/// alone. A failed lookup never ends a call. Where the members were
/// resolved, the call is left if and only if none of them is a listener.
/// The monitor always stays registered.
pub fn on_idle_tick(call: &mut VoiceCall, lookup: &Lookup) -> (reaction: Reaction)
    ensures
        final(call)@ == after_tick(old(call)@, *lookup),
        reaction.verdict == Verdict::Continue,
        reaction.effect == tick_effect(old(call)@, *lookup),
        reaction.effect is Left <==> idle_leaves(old(call)@, *lookup),
{
    if call.current_channel().is_none() {
        return Reaction { effect: Effect::Nothing, verdict: Verdict::Continue };
    }
    match lookup {
        Lookup::Failed => Reaction { effect: Effect::LookupFailed, verdict: Verdict::Continue },
        Lookup::Members(members) => {
            if any_listener(members) {
                Reaction { effect: Effect::Nothing, verdict: Verdict::Continue }
            } else {
                call.leave();
                Reaction { effect: Effect::Left, verdict: Verdict::Continue }
            }
        },
    }
}

/// The disconnect handler's reaction: playback is stopped, the metadata
/// queue is cleared, and a call that was connected is so no longer. The
/// handler stays registered.
pub fn on_disconnect(call: &mut VoiceCall, meta: &mut QueueMeta) -> (reaction: Reaction)
    ensures
        final(call)@ == after_disconnect(old(call)@),
        final(meta)@ == Seq::<TrackMetadata>::empty(),
        reaction.effect == Effect::Cleared,
        reaction.verdict == Verdict::Continue,
{
    call.stop();
    if call.is_live() {
        call.leave();
    }
    meta.clear();
    Reaction { effect: Effect::Cleared, verdict: Verdict::Continue }
}

/// The track-end handler's reaction: the front of the metadata queue is
/// removed. With no metadata queued the handler reports the anomaly and
/// changes nothing. The handler touches the metadata queue only: the
/// playback queue is the transport's, which has dropped the finished track
/// itself. The handler stays registered.
pub fn on_track_end(meta: &mut QueueMeta) -> (reaction: Reaction)
    ensures
        final(meta)@ == meta_after_track_end(old(meta)@),
        reaction.verdict == Verdict::Continue,
        reaction.effect == track_end_effect(old(meta)@),
{
    match meta.pop_front() {
        None => Reaction { effect: Effect::Desync, verdict: Verdict::Continue },
        Some(track) => Reaction { effect: Effect::Removed(track), verdict: Verdict::Continue },
    }
}

impl Handler {
    /// Whether this handler is the one that `notification` is meant for.
    pub open spec fn listens_to(self, notification: Notification) -> bool {
        match self {
            Handler::IdleMonitor => notification is Tick,
            Handler::DisconnectHandler => notification is TransportDisconnect,
            Handler::TrackEndHandler => notification is TrackEnd,
        }
    }

    /// The handler that is registered for `notification`.
    pub open spec fn registered_for(notification: Notification) -> Handler {
        match notification {
            Notification::Tick { .. } => Handler::IdleMonitor,
            Notification::TransportDisconnect => Handler::DisconnectHandler,
            Notification::TrackEnd => Handler::TrackEndHandler,
        }
    }

    /// The handler that is registered for `notification`.
    pub fn for_notification(notification: &Notification) -> (handler: Handler)
        ensures
            handler == Handler::registered_for(*notification),
            handler.listens_to(*notification),
    {
        match notification {
            Notification::Tick { .. } => Handler::IdleMonitor,
            Notification::TransportDisconnect => Handler::DisconnectHandler,
            Notification::TrackEnd => Handler::TrackEndHandler,
        }
    }

    /// The call after this handler has acted on `notification`. The
    /// track-end handler leaves the call as it is.
    pub open spec fn call_after(self, call: CallView, notification: Notification) -> CallView {
        if !self.listens_to(notification) {
            call
        } else {
            match notification {
                Notification::Tick { lookup } => after_tick(call, lookup),
                Notification::TransportDisconnect => after_disconnect(call),
                Notification::TrackEnd => call,
            }
        }
    }

    /// The metadata queue after this handler has acted on `notification`.
    pub open spec fn meta_after(
        self,
        meta: Seq<TrackMetadata>,
        notification: Notification,
    ) -> Seq<TrackMetadata> {
        if !self.listens_to(notification) {
            meta
        } else {
            match notification {
                Notification::Tick { .. } => meta,
                Notification::TransportDisconnect => Seq::empty(),
                Notification::TrackEnd => meta_after_track_end(meta),
            }
        }
    }

    /// What this handler does when it is told `notification`.
    pub open spec fn effect_of(
        self,
        call: CallView,
        meta: Seq<TrackMetadata>,
        notification: Notification,
    ) -> Effect {
        if !self.listens_to(notification) {
            Effect::Nothing
        } else {
            match notification {
                Notification::Tick { lookup } => tick_effect(call, lookup),
                Notification::TransportDisconnect => Effect::Cleared,
                Notification::TrackEnd => track_end_effect(meta),
            }
        }
    }

    /// Lets the handler act on a notification. Each handler acts on its own
    /// kind of notification and ignores the others. Whatever happens, the
    /// handler stays registered.
    pub fn act(
        self,
        call: &mut VoiceCall,
        meta: &mut QueueMeta,
        notification: &Notification,
    ) -> (reaction: Reaction)
        ensures
            final(call)@ == self.call_after(old(call)@, *notification),
            final(meta)@ == self.meta_after(old(meta)@, *notification),
            reaction.verdict == Verdict::Continue,
            reaction.effect == self.effect_of(old(call)@, old(meta)@, *notification),
    {
        match (self, notification) {
            (Handler::IdleMonitor, Notification::Tick { lookup }) => on_idle_tick(call, lookup),
            (Handler::DisconnectHandler, Notification::TransportDisconnect) => on_disconnect(
                call,
                meta,
            ),
            (Handler::TrackEndHandler, Notification::TrackEnd) => on_track_end(meta),
            _ => Reaction { effect: Effect::Nothing, verdict: Verdict::Continue },
        }
    }
}

impl Effect {
    /// The level at which the effect is logged, where it is logged at all.
    pub open spec fn log_level(self) -> Option<LogLevel> {
        match self {
            Effect::Nothing => None,
            Effect::LookupFailed => Some(LogLevel::Error),
            Effect::Left => Some(LogLevel::Info),
            Effect::Cleared => Some(LogLevel::Info),
            Effect::Removed(_) => Some(LogLevel::Debug),
            Effect::Desync => Some(LogLevel::Error),
        }
    }

    /// The line that is logged for the effect.
    pub open spec fn log_text(self) -> Seq<char> {
        match self {
            Effect::Nothing => Seq::empty(),
            Effect::LookupFailed => "Could not find the members of the voice channel."@,
            Effect::Left => "Idle! Disconnecting from voice channel."@,
            Effect::Cleared => "Stopping on disconnect!"@,
            Effect::Removed(track) => "Removing metadata for "@ + (match track.title {
                Some(title) => title@,
                None => "<NO TITLE>"@,
            }),
            Effect::Desync => "Tried to remove track metadata from empty queue."@,
        }
    }

    /// The log line for the effect with its level; an effect of nothing is
    /// not logged. None of these lines is shown to a user.
    pub fn log_line(&self) -> (line: Option<(LogLevel, String)>)
        ensures
            line is Some == self.log_level() is Some,
            line matches Some(entry) ==> Some(entry.0) == self.log_level() && entry.1@
                == self.log_text(),
    {
        match self {
            Effect::Nothing => None,
            Effect::LookupFailed => Some(
                (LogLevel::Error, "Could not find the members of the voice channel.".to_owned()),
            ),
            Effect::Left => Some(
                (LogLevel::Info, "Idle! Disconnecting from voice channel.".to_owned()),
            ),
            Effect::Cleared => Some((LogLevel::Info, "Stopping on disconnect!".to_owned())),
            Effect::Removed(track) => {
                let line = match &track.title {
                    Some(title) => concat2("Removing metadata for ", title.as_str()),
                    None => concat2("Removing metadata for ", "<NO TITLE>"),
                };
                Some((LogLevel::Debug, line))
            },
            Effect::Desync => Some(
                (LogLevel::Error, "Tried to remove track metadata from empty queue.".to_owned()),
            ),
        }
    }
}

/// The idle monitor reports that it left exactly when it left.
pub proof fn lemma_left_iff_idle(call: CallView, lookup: Lookup)
    ensures
        tick_effect(call, lookup) is Left <==> idle_leaves(call, lookup),
        !idle_leaves(call, lookup) ==> after_tick(call, lookup) == call,
{
}

/// While a listener is in the channel, a tick of the idle monitor leaves the
/// call as it is.
pub proof fn lemma_listener_keeps_call(call: CallView, members: Vec<Member>)
    requires
        has_listener(members@),
    ensures
        !idle_leaves(call, Lookup::Members(members)),
        !(tick_effect(call, Lookup::Members(members)) is Left),
        after_tick(call, Lookup::Members(members)) == call,
{
}

/// A failed lookup leaves the call as it is, however often it happens; the
/// first tick after it that finds no listener leaves the call, and the call
/// is then without a channel, so that no later tick leaves it again.
pub proof fn lemma_failed_lookups_then_leave(call: CallView, members: Vec<Member>, later: Lookup)
    requires
        call.current_channel() is Some,
        !has_listener(members@),
    ensures
        !idle_leaves(call, Lookup::Failed),
        tick_effect(call, Lookup::Failed) is LookupFailed,
        after_tick(call, Lookup::Failed) == call,
        after_tick(after_tick(call, Lookup::Failed), Lookup::Failed) == call,
        idle_leaves(call, Lookup::Members(members)),
        tick_effect(call, Lookup::Members(members)) is Left,
        after_tick(call, Lookup::Members(members)).current_channel() is None,
        !idle_leaves(after_tick(call, Lookup::Members(members)), later),
{
}

/// After a disconnect was handled, nothing is queued on either side.
pub proof fn lemma_disconnect_empties(
    handler: Handler,
    call: CallView,
    meta: Seq<TrackMetadata>,
)
    requires
        handler == Handler::DisconnectHandler,
    ensures
        handler.call_after(call, Notification::TransportDisconnect).queue.len() == 0,
        handler.meta_after(meta, Notification::TransportDisconnect).len() == 0,
        !handler.call_after(call, Notification::TransportDisconnect).is_live(),
{
}

/// The track-end handler removes the front of the metadata queue and
/// nothing else: the call, its channel and its playback queue stay as they
/// were, and the metadata queue is shorter by one if it held anything.
pub proof fn lemma_track_end_touches_metadata_only(call: CallView, meta: Seq<TrackMetadata>)
    ensures
        Handler::TrackEndHandler.call_after(call, Notification::TrackEnd) == call,
        Handler::TrackEndHandler.meta_after(meta, Notification::TrackEnd) == meta_after_track_end(
            meta,
        ),
        meta.len() > 0 ==> meta_after_track_end(meta).len() == meta.len() - 1,
{
}

/// A track end that finds no metadata queued is reported as an anomaly and
/// changes nothing.
pub proof fn lemma_track_end_on_empty(call: CallView)
    ensures
        track_end_effect(Seq::empty()) is Desync,
        Handler::TrackEndHandler.call_after(call, Notification::TrackEnd) == call,
        meta_after_track_end(Seq::empty()) == Seq::<TrackMetadata>::empty(),
{
}

} // verus!
