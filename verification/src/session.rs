//! What the commands and the notifications do to one session: its call in
//! the registry and its metadata queue in the guild store.
//!
//! A command names the guild it came from, or none where it came from
//! outside a guild. A notification names the session of the call it is about.

use crate::call::{CallView, TrackHandle};
use crate::commands::{queue as queue_reply, QueueReply};
use crate::data::{metadata_of, GuildDataStore};
use crate::error::{ParakeetError, UserError};
use crate::events::{idle_leaves, Effect, Handler, Lookup, Notification, Reaction, Verdict};
use crate::metadata::{lines_text, shows, InputMetadata, TrackMetadata, MAX_LISTING_BYTES};
use crate::registry::{has_live, CallRegistry};
use crate::text::{concat3, utf8_len};
use vstd::prelude::*;
use vstd::string::*;

verus! {

/// The playback queue that `calls` holds for `session`: empty for a session
/// without a call.
pub open spec fn playback_of(calls: Map<u64, CallView>, session: u64) -> Seq<TrackHandle> {
    if calls.contains_key(session) {
        calls[session].queue
    } else {
        Seq::empty()
    }
}

/// Whether the two queues of `session` are of one length.
pub open spec fn in_step(
    calls: Map<u64, CallView>,
    guilds: Map<u64, Seq<TrackMetadata>>,
    session: u64,
) -> bool {
    playback_of(calls, session).len() == metadata_of(guilds, session).len()
}

/// The calls after `track` was queued for `session`.
pub open spec fn calls_after_enqueue(
    calls: Map<u64, CallView>,
    session: u64,
    track: TrackHandle,
) -> Map<u64, CallView> {
    calls.insert(session, calls[session].enqueued(track))
}

/// The metadata queues after `metadata` was queued for `session`.
pub open spec fn guilds_after_enqueue(
    guilds: Map<u64, Seq<TrackMetadata>>,
    session: u64,
    metadata: TrackMetadata,
) -> Map<u64, Seq<TrackMetadata>> {
    guilds.insert(session, metadata_of(guilds, session).push(metadata))
}

/// The title under which a track is named in a reply.
pub open spec fn reply_title(track: TrackMetadata) -> Seq<char> {
    match track.title {
        Some(title) => title@,
        None => "<MISSING_TITLE>"@,
    }
}

/// What a skip ends and how it is announced.
#[derive(Debug, PartialEq)]
pub struct Skip {
    /// The track to end.
    pub track: TrackHandle,
    /// The reply to the user.
    pub reply: String,
}

/// Whether a source with the metadata report `fetched` can be queued for
/// the guild `guild` now: the command came from a guild, the metadata could
/// be had, and the guild has a live call. The first of the three that fails
/// gives the error. Nothing is changed; a source for which this says yes is
/// handed to the transport and then to [`enqueue`].
pub fn plan_enqueue(
    registry: &CallRegistry,
    guild: Option<u64>,
    fetched: &Result<InputMetadata, String>,
) -> (session: Result<u64, ParakeetError>)
    ensures
        session == (match guild {
            None => Err::<u64, ParakeetError>(ParakeetError::UserError(UserError::GuildOnly)),
            Some(id) => match *fetched {
                Err(description) => Err(ParakeetError::MetadataError(description)),
                Ok(_) => if has_live(registry@, id) {
                    Ok(id)
                } else {
                    Err(ParakeetError::UserError(UserError::NoActiveCall))
                },
            },
        }),
{
    let id = match guild {
        Some(id) => id,
        None => {
            return Err(ParakeetError::UserError(UserError::GuildOnly));
        },
    };
    if let Err(description) = fetched {
        return Err(ParakeetError::MetadataError(description.clone()));
    }
    match registry.lookup(id) {
        Ok(_) => Ok(id),
        Err(error) => Err(ParakeetError::UserError(error)),
    }
}

/// Queues the source `track` for the guild `guild`, with the metadata that
/// the media resolver reported for it in `fetched`. The source goes to the
/// tail of the playback queue first, its metadata to the tail of the
/// metadata queue after it. Nothing is queued for a command from outside a
/// guild, where the metadata could not be had, or where the guild has no
/// live call; the first of the three that fails gives the error.
pub fn enqueue(
    registry: &mut CallRegistry,
    store: &mut GuildDataStore,
    guild: Option<u64>,
    track: TrackHandle,
    fetched: Result<InputMetadata, String>,
) -> (queued: Result<TrackHandle, ParakeetError>)
    ensures
        match guild {
            None => queued == Err::<TrackHandle, ParakeetError>(
                ParakeetError::UserError(UserError::GuildOnly),
            ) && final(registry)@ == old(registry)@ && final(store)@ == old(store)@,
            Some(session) => match fetched {
                Err(description) => queued == Err::<TrackHandle, ParakeetError>(
                    ParakeetError::MetadataError(description),
                ) && final(registry)@ == old(registry)@ && final(store)@ == old(store)@,
                Ok(input) => if has_live(old(registry)@, session) {
                    &&& queued == Ok::<TrackHandle, ParakeetError>(track)
                    &&& final(registry)@ == calls_after_enqueue(old(registry)@, session, track)
                    &&& final(store)@ == guilds_after_enqueue(
                        old(store)@,
                        session,
                        TrackMetadata::of_input(input),
                    )
                } else {
                    &&& queued == Err::<TrackHandle, ParakeetError>(
                        ParakeetError::UserError(UserError::NoActiveCall),
                    )
                    &&& final(registry)@ == old(registry)@
                    &&& final(store)@ == old(store)@
                },
            },
        },
{
    let session = match guild {
        Some(session) => session,
        None => {
            return Err(ParakeetError::UserError(UserError::GuildOnly));
        },
    };
    let metadata = match TrackMetadata::from_input(fetched) {
        Ok(metadata) => metadata,
        Err(error) => {
            return Err(error);
        },
    };
    if registry.lookup(session).is_err() {
        return Err(ParakeetError::UserError(UserError::NoActiveCall));
    }
    match registry.take(session) {
        Some(mut call) => {
            let handle = call.enqueue(track);
            registry.put(call);
            let data = store.get(session);
            data.queue_metadata.push_back(metadata);
            Ok(handle)
        },
        None => Err(ParakeetError::UserError(UserError::NoActiveCall)),
    }
}

/// Names the track that a skip in the guild `guild` ends and the reply that
/// announces it. The command has to come from a guild, and the guild needs
/// a live call, a current track and the metadata of that track. The queues
/// move when the transport reports the end of the track.
pub fn skip(registry: &CallRegistry, store: &mut GuildDataStore, guild: Option<u64>) -> (plan:
    Result<Skip, UserError>)
    ensures
        match guild {
            None => plan == Err::<Skip, UserError>(UserError::GuildOnly) && final(store)@ == old(store)@,
            Some(session) => if !has_live(registry@, session) {
                plan == Err::<Skip, UserError>(UserError::NoActiveCall) && final(store)@ == old(store)@
            } else if registry@[session].queue.len() == 0 {
                plan == Err::<Skip, UserError>(UserError::EmptyQueue) && final(store)@ == old(store)@
            } else {
                &&& final(store)@ == old(store)@.insert(session, metadata_of(old(store)@, session))
                &&& metadata_of(old(store)@, session).len() == 0 ==> plan == Err::<
                    Skip,
                    UserError,
                >(UserError::EmptyQueue)
                &&& metadata_of(old(store)@, session).len() > 0 ==> plan is Ok
                    && plan->Ok_0.track == registry@[session].queue[0] && plan->Ok_0.reply@
                    == "Skipping `"@ + reply_title(metadata_of(old(store)@, session)[0]) + "`"@
            },
        },
{
    let session = match guild {
        Some(session) => session,
        None => {
            return Err(UserError::GuildOnly);
        },
    };
    let call = match registry.lookup(session) {
        Ok(call) => call,
        Err(error) => {
            return Err(error);
        },
    };
    let track = match call.skip() {
        Ok(track) => track,
        Err(error) => {
            return Err(error);
        },
    };
    let data = store.get(session);
    match data.queue_metadata.front() {
        None => Err(UserError::EmptyQueue),
        Some(current) => {
            let reply = match &current.title {
                Some(title) => concat3("Skipping `", title.as_str(), "`"),
                None => concat3("Skipping `", "<MISSING_TITLE>", "`"),
            };
            Ok(Skip { track, reply })
        },
    }
}

/// Stops the guild `guild`: both queues are cleared and the call is left.
/// The command has to come from a guild, and the guild needs a live call.
/// Returns the reply to the user.
pub fn stop(registry: &mut CallRegistry, store: &mut GuildDataStore, guild: Option<u64>) -> (reply:
    Result<String, UserError>)
    ensures
        match guild {
            None => reply == Err::<String, UserError>(UserError::GuildOnly) && final(registry)@
                == old(registry)@ && final(store)@ == old(store)@,
            Some(session) => if !has_live(old(registry)@, session) {
                reply == Err::<String, UserError>(UserError::NoActiveCall) && final(registry)@
                    == old(registry)@ && final(store)@ == old(store)@
            } else {
                &&& reply is Ok
                &&& reply->Ok_0@ == "Queue deleted."@
                &&& final(registry)@ == old(registry)@.insert(
                    session,
                    old(registry)@[session].stopped().left(),
                )
                &&& final(store)@ == old(store)@.insert(session, Seq::empty())
            },
        },
{
    let session = match guild {
        Some(session) => session,
        None => {
            return Err(UserError::GuildOnly);
        },
    };
    if registry.lookup(session).is_err() {
        return Err(UserError::NoActiveCall);
    }
    match registry.take(session) {
        Some(mut call) => {
            call.stop();
            call.leave();
            registry.put(call);
            let data = store.get(session);
            data.queue_metadata.clear();
            Ok("Queue deleted.".to_owned())
        },
        None => Err(UserError::NoActiveCall),
    }
}

/// The numbered listing of what is queued for the guild `guild`. The
/// command has to come from a guild, and the guild needs a live call.
pub fn queue_display_string(
    registry: &CallRegistry,
    store: &mut GuildDataStore,
    guild: Option<u64>,
) -> (text: Result<String, UserError>)
    ensures
        match guild {
            None => text == Err::<String, UserError>(UserError::GuildOnly) && final(store)@ == old(store)@,
            Some(session) => if !has_live(registry@, session) {
                text == Err::<String, UserError>(UserError::NoActiveCall) && final(store)@ == old(store)@
            } else {
                let tracks = metadata_of(old(store)@, session);
                &&& final(store)@ == old(store)@.insert(session, tracks)
                &&& text is Ok
                &&& tracks.len() == 0 ==> text->Ok_0@ == "Empty queue!"@
                &&& tracks.len() > 0 ==> exists|count: int|
                    shows(tracks, count) && text->Ok_0@ == lines_text(tracks, count)
                &&& tracks.len() > 0 ==> utf8_len(text->Ok_0@) <= MAX_LISTING_BYTES + 1
            },
        },
{
    let session = match guild {
        Some(session) => session,
        None => {
            return Err(UserError::GuildOnly);
        },
    };
    if registry.lookup(session).is_err() {
        return Err(UserError::NoActiveCall);
    }
    let data = store.get(session);
    Ok(data.queue_metadata.display_string())
}

/// The reply that shows the queue of the guild `guild`, whose name is
/// `name`. A guild whose name is not known cannot be found; the command has
/// to come from a guild; and the guild needs a live call. The first of the
/// three that fails gives the error.
pub fn queue(
    registry: &CallRegistry,
    store: &mut GuildDataStore,
    name: Option<&str>,
    guild: Option<u64>,
) -> (reply: Result<QueueReply, UserError>)
    ensures
        name is None ==> reply == Err::<QueueReply, UserError>(UserError::NotInGuild) && final(store)@ == old(store)@,
        name is Some && guild is None ==> reply == Err::<QueueReply, UserError>(
            UserError::GuildOnly,
        ) && final(store)@ == old(store)@,
        name is Some && guild is Some && !has_live(registry@, guild->0) ==> reply == Err::<
            QueueReply,
            UserError,
        >(UserError::NoActiveCall) && final(store)@ == old(store)@,
        name is Some && guild is Some && has_live(registry@, guild->0) ==> {
            let tracks = metadata_of(old(store)@, guild->0);
            &&& final(store)@ == old(store)@.insert(guild->0, tracks)
            &&& reply is Ok
            &&& reply->Ok_0.title@ == name->0@ + " Queue"@
            &&& tracks.len() == 0 ==> reply->Ok_0.description@ == "Empty queue!"@
                && reply->Ok_0.thumbnail is None
            &&& tracks.len() > 0 ==> reply->Ok_0.thumbnail == tracks[0].thumbnail_url
                && exists|count: int|
                shows(tracks, count) && reply->Ok_0.description@ == lines_text(tracks, count)
            &&& tracks.len() > 0 ==> utf8_len(reply->Ok_0.description@) <= MAX_LISTING_BYTES + 1
        },
{
    let name = match name {
        Some(name) => name,
        None => {
            return Err(UserError::NotInGuild);
        },
    };
    let session = match guild {
        Some(session) => session,
        None => {
            return Err(UserError::GuildOnly);
        },
    };
    if registry.lookup(session).is_err() {
        return Err(UserError::NoActiveCall);
    }
    let data = store.get(session);
    Ok(queue_reply(name, &data.queue_metadata))
}

/// The call as the transport has left it when `notification` comes: with a
/// track end, the finished track is off the playback queue.
pub open spec fn reported(call: CallView, notification: Notification) -> CallView {
    if notification is TrackEnd {
        call.advanced()
    } else {
        call
    }
}

/// The calls after `notification` was taken in for `session`: the call is
/// as the transport has left it, and the handler that is registered for the
/// notification has acted. A session without a call has no handlers, so
/// nothing changes.
pub open spec fn calls_after(
    calls: Map<u64, CallView>,
    session: u64,
    notification: Notification,
) -> Map<u64, CallView> {
    if calls.contains_key(session) {
        calls.insert(
            session,
            Handler::registered_for(notification).call_after(
                reported(calls[session], notification),
                notification,
            ),
        )
    } else {
        calls
    }
}

/// The metadata queues after `notification` was taken in for `session`.
pub open spec fn guilds_after(
    calls: Map<u64, CallView>,
    guilds: Map<u64, Seq<TrackMetadata>>,
    session: u64,
    notification: Notification,
) -> Map<u64, Seq<TrackMetadata>> {
    if calls.contains_key(session) {
        guilds.insert(
            session,
            Handler::registered_for(notification).meta_after(
                metadata_of(guilds, session),
                notification,
            ),
        )
    } else {
        guilds
    }
}

/// What the handler that is registered for `notification` does when the
/// notification is taken in for `session`.
pub open spec fn effect_after(
    calls: Map<u64, CallView>,
    guilds: Map<u64, Seq<TrackMetadata>>,
    session: u64,
    notification: Notification,
) -> Effect {
    if calls.contains_key(session) {
        Handler::registered_for(notification).effect_of(
            reported(calls[session], notification),
            metadata_of(guilds, session),
            notification,
        )
    } else {
        Effect::Nothing
    }
}

/// Takes in `notification` for `session`. First the call is brought to
/// where the transport has left it: with a track end, the finished track
/// comes off the playback queue. Then the handler that is registered for
/// the notification acts. A session that never had a call has no handlers:
/// nothing happens.
pub fn notify(
    registry: &mut CallRegistry,
    store: &mut GuildDataStore,
    session: u64,
    notification: &Notification,
) -> (reaction: Reaction)
    ensures
        final(registry)@ == calls_after(old(registry)@, session, *notification),
        final(store)@ == guilds_after(old(registry)@, old(store)@, session, *notification),
        reaction.verdict == Verdict::Continue,
        reaction.effect == effect_after(old(registry)@, old(store)@, session, *notification),
        reaction.effect is Left ==> has_live(old(registry)@, session) && !has_live(
            final(registry)@,
            session,
        ),
        reaction.effect is Desync ==> metadata_of(final(store)@, session) == metadata_of(
            old(store)@,
            session,
        ),
{
    match registry.take(session) {
        None => {
            Reaction { effect: Effect::Nothing, verdict: Verdict::Continue }
        },
        Some(mut call) => {
            if let Notification::TrackEnd = notification {
                call.advance();
            }
            let handler = Handler::for_notification(notification);
            let data = store.get(session);
            let reaction = handler.act(&mut call, &mut data.queue_metadata, notification);
            registry.put(call);
            reaction
        },
    }
}

/// The queues of all sessions: the playback queue in each call, the
/// metadata queue in each guild's record.
pub struct Queues {
    /// The calls, by session.
    pub calls: Map<u64, CallView>,
    /// The metadata queues, by session.
    pub guilds: Map<u64, Seq<TrackMetadata>>,
}

/// One operation on the queues of a session.
pub enum QueueOp {
    /// A source is queued together with its metadata.
    Enqueue {
        /// The source.
        track: TrackHandle,
        /// Its metadata.
        metadata: TrackMetadata,
    },
    /// The transport reports that the current track has finished.
    TrackEnd,
}

impl Queues {
    /// Whether the two queues of `session` are of one length.
    pub open spec fn in_step(self, session: u64) -> bool {
        in_step(self.calls, self.guilds, session)
    }

    /// The queues after `op` on `session`: what [`enqueue`] and, for a track
    /// end, [`notify`] leave behind.
    pub open spec fn applied(self, session: u64, op: QueueOp) -> Queues {
        match op {
            QueueOp::Enqueue { track, metadata } => if has_live(self.calls, session) {
                Queues {
                    calls: calls_after_enqueue(self.calls, session, track),
                    guilds: guilds_after_enqueue(self.guilds, session, metadata),
                }
            } else {
                self
            },
            QueueOp::TrackEnd => Queues {
                calls: calls_after(self.calls, session, Notification::TrackEnd),
                guilds: guilds_after(self.calls, self.guilds, session, Notification::TrackEnd),
            },
        }
    }

    /// The queues after all of `ops` on `session`, in their order.
    pub open spec fn applied_all(self, session: u64, ops: Seq<QueueOp>) -> Queues
        decreases ops.len(),
    {
        if ops.len() == 0 {
            self
        } else {
            self.applied_all(session, ops.drop_last()).applied(session, ops.last())
        }
    }
}

/// One operation on a session whose queues are in step leaves them in step.
pub proof fn lemma_op_keeps_step(queues: Queues, session: u64, op: QueueOp)
    requires
        queues.in_step(session),
    ensures
        queues.applied(session, op).in_step(session),
{
}

/// Whatever is queued and whichever tracks end on a session, in whatever
/// order: if its two queues were of one length before, they are of one
/// length after every one of the operations.
pub proof fn lemma_queues_stay_in_step(queues: Queues, session: u64, ops: Seq<QueueOp>)
    requires
        queues.in_step(session),
    ensures
        queues.applied_all(session, ops).in_step(session),
        forall|done: int|
            0 <= done <= ops.len() ==> #[trigger] queues.applied_all(
                session,
                ops.take(done),
            ).in_step(session),
    decreases ops.len(),
{
    if ops.len() > 0 {
        lemma_queues_stay_in_step(queues, session, ops.drop_last());
        lemma_op_keeps_step(
            queues.applied_all(session, ops.drop_last()),
            session,
            ops.last(),
        );
    }
    assert forall|done: int| 0 <= done <= ops.len() implies #[trigger] queues.applied_all(
        session,
        ops.take(done),
    ).in_step(session) by {
        if done == ops.len() {
            assert(ops.take(done) =~= ops);
        } else {
            assert(ops.take(done) =~= ops.drop_last().take(done));
        }
    }
}

/// An operation on one session leaves the queues of every other session as
/// they are.
pub proof fn lemma_op_is_local(queues: Queues, session: u64, op: QueueOp, other: u64)
    requires
        other != session,
    ensures
        playback_of(queues.applied(session, op).calls, other) == playback_of(queues.calls, other),
        metadata_of(queues.applied(session, op).guilds, other) == metadata_of(
            queues.guilds,
            other,
        ),
{
}

/// A track end takes one track off each queue of the session: once the
/// transport has dropped the finished track and the handler has removed its
/// metadata, a session whose queues both held `n` tracks, `n` at least one,
/// holds `n - 1` in both.
pub proof fn lemma_track_end_takes_one_of_each(
    calls: Map<u64, CallView>,
    guilds: Map<u64, Seq<TrackMetadata>>,
    session: u64,
)
    requires
        calls.contains_key(session),
        playback_of(calls, session).len() > 0,
        in_step(calls, guilds, session),
    ensures
        ({
            let told = Notification::TrackEnd;
            &&& playback_of(calls_after(calls, session, told), session) == playback_of(
                calls,
                session,
            ).drop_first()
            &&& metadata_of(guilds_after(calls, guilds, session, told), session) == metadata_of(
                guilds,
                session,
            ).drop_first()
            &&& calls_after(calls, session, told)[session].link == calls[session].link
        }),
{
}

/// After a disconnect was taken in for a session, that session has nothing
/// queued on either side and no live call.
pub proof fn lemma_disconnect_clears_session(
    calls: Map<u64, CallView>,
    guilds: Map<u64, Seq<TrackMetadata>>,
    session: u64,
)
    requires
        calls.contains_key(session),
    ensures
        ({
            let told = Notification::TransportDisconnect;
            &&& playback_of(calls_after(calls, session, told), session).len() == 0
            &&& metadata_of(guilds_after(calls, guilds, session, told), session).len() == 0
            &&& !has_live(calls_after(calls, session, told), session)
        }),
{
}

/// A track end on a session whose metadata queue is empty is an anomaly
/// that leaves the metadata queue as it is; with queues in step, nothing at
/// all changes for the session.
pub proof fn lemma_track_end_without_metadata(
    calls: Map<u64, CallView>,
    guilds: Map<u64, Seq<TrackMetadata>>,
    session: u64,
)
    requires
        metadata_of(guilds, session).len() == 0,
    ensures
        ({
            let told = Notification::TrackEnd;
            &&& calls.contains_key(session) ==> effect_after(calls, guilds, session, told)
                is Desync
            &&& metadata_of(guilds_after(calls, guilds, session, told), session) == metadata_of(
                guilds,
                session,
            )
            &&& in_step(calls, guilds, session) ==> calls_after(calls, session, told) == calls
        }),
{
    if calls.contains_key(session) && in_step(calls, guilds, session) {
        assert(calls.insert(session, calls[session]) =~= calls);
    }
}

/// Once the idle monitor has left the call of a session, the session has no
/// active call: what needs one fails until the session is joined again.
pub proof fn lemma_idle_leave_ends_activity(
    calls: Map<u64, CallView>,
    session: u64,
    lookup: Lookup,
)
    requires
        has_live(calls, session),
        idle_leaves(calls[session], lookup),
    ensures
        !has_live(calls_after(calls, session, Notification::Tick { lookup }), session),
{
}

} // verus!
