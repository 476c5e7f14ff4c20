//! One voice call: the link to a voice channel and the playback queue of
//! audio sources, head first.

use crate::error::UserError;
use std::collections::VecDeque;
use vstd::prelude::*;

verus! {

/// Names one audio source that was handed to the transport.
#[derive(Clone, Copy, Debug, PartialEq, Eq, Structural)]
pub struct TrackHandle {
    /// The number under which the transport knows the source.
    pub id: u64,
}

/// Where a call stands in its life.
#[derive(Clone, Copy, Debug, PartialEq, Eq, Structural)]
pub enum CallState {
    /// No connection.
    Disconnected,
    /// A join is under way.
    Connecting,
    /// Connected, with nothing to play.
    ConnectedIdle,
    /// Connected, with a track at the head of the queue.
    ConnectedPlaying,
}

/// The connection of a call to a voice channel.
#[derive(Clone, Copy, Debug, PartialEq, Eq, Structural)]
pub enum Link {
    /// No connection.
    Disconnected,
    /// A join of `target` is under way.
    Connecting {
        /// The channel that is being joined.
        target: u64,
    },
    /// Connected to `channel`.
    Connected {
        /// The channel that the call is in.
        channel: u64,
    },
}

/// What a call is, as plain values.
pub struct CallView {
    /// The session that the call belongs to.
    pub session: u64,
    /// The connection.
    pub link: Link,
    /// The playback queue, the current track first.
    pub queue: Seq<TrackHandle>,
}

impl CallView {
    /// The channel that the call is connected to, if any.
    pub open spec fn current_channel(self) -> Option<u64> {
        match self.link {
            Link::Connected { channel } => Some(channel),
            _ => None,
        }
    }

    /// Whether the call is connected.
    pub open spec fn is_live(self) -> bool {
        self.link is Connected
    }

    /// The state of the call.
    pub open spec fn state(self) -> CallState {
        match self.link {
            Link::Disconnected => CallState::Disconnected,
            Link::Connecting { .. } => CallState::Connecting,
            Link::Connected { .. } => if self.queue.len() == 0 {
                CallState::ConnectedIdle
            } else {
                CallState::ConnectedPlaying
            },
        }
    }

    /// The track at the head of the queue, if any.
    pub open spec fn current(self) -> Option<TrackHandle> {
        if self.queue.len() > 0 {
            Some(self.queue[0])
        } else {
            None
        }
    }

    /// A call of `session` that was never connected.
    pub open spec fn fresh(session: u64) -> CallView {
        CallView { session, link: Link::Disconnected, queue: Seq::empty() }
    }

    /// The call once a join of `target` was asked for: only a disconnected
    /// call starts one.
    pub open spec fn joining(self, target: u64) -> CallView {
        if self.link is Disconnected {
            CallView { link: Link::Connecting { target }, ..self }
        } else {
            self
        }
    }

    /// The call once the join that was under way ended, well or not.
    pub open spec fn joined(self, success: bool) -> CallView {
        match self.link {
            Link::Connecting { target } => CallView {
                link: if success {
                    Link::Connected { channel: target }
                } else {
                    Link::Disconnected
                },
                ..self
            },
            _ => self,
        }
    }

    /// The call with `track` behind all others.
    pub open spec fn enqueued(self, track: TrackHandle) -> CallView {
        CallView { queue: self.queue.push(track), ..self }
    }

    /// The call once its current track ended: the queue has moved up by one.
    pub open spec fn advanced(self) -> CallView {
        if self.queue.len() > 0 {
            CallView { queue: self.queue.drop_first(), ..self }
        } else {
            self
        }
    }

    /// The call with an empty queue and its connection kept.
    pub open spec fn stopped(self) -> CallView {
        CallView { queue: Seq::empty(), ..self }
    }

    /// The call with its connection ended and its queue kept.
    pub open spec fn left(self) -> CallView {
        CallView { link: Link::Disconnected, ..self }
    }
}

/// The live voice connection and its playback queue for one session.
#[derive(Debug)]
pub struct VoiceCall {
    session: u64,
    link: Link,
    queue: VecDeque<TrackHandle>,
}

impl View for VoiceCall {
    type V = CallView;

    closed spec fn view(&self) -> CallView {
        CallView { session: self.session, link: self.link, queue: self.queue@ }
    }
}

impl VoiceCall {
    /// A call of `session`, not connected, with nothing queued.
    pub fn new(session: u64) -> (call: Self)
        ensures
            call@ == CallView::fresh(session),
    {
        VoiceCall { session, link: Link::Disconnected, queue: VecDeque::new() }
    }

    /// The session that the call belongs to.
    pub fn session(&self) -> (session: u64)
        ensures
            session == self@.session,
    {
        self.session
    }

    /// The connection of the call.
    pub fn link(&self) -> (link: Link)
        ensures
            link == self@.link,
    {
        self.link
    }

    /// The channel that the call is connected to, if any.
    pub fn current_channel(&self) -> (channel: Option<u64>)
        ensures
            channel == self@.current_channel(),
    {
        match self.link {
            Link::Connected { channel } => Some(channel),
            _ => None,
        }
    }

    /// Whether the call is connected.
    pub fn is_live(&self) -> (live: bool)
        ensures
            live == self@.is_live(),
    {
        match self.link {
            Link::Connected { .. } => true,
            _ => false,
        }
    }

    /// The state of the call.
    pub fn state(&self) -> (state: CallState)
        ensures
            state == self@.state(),
    {
        match self.link {
            Link::Disconnected => CallState::Disconnected,
            Link::Connecting { .. } => CallState::Connecting,
            Link::Connected { .. } => if self.queue.len() == 0 {
                CallState::ConnectedIdle
            } else {
                CallState::ConnectedPlaying
            },
        }
    }

    /// The number of tracks in the playback queue.
    pub fn queue_len(&self) -> (len: usize)
        ensures
            len == self@.queue.len(),
    {
        self.queue.len()
    }

    /// Starts a join of `target`. Only a disconnected call starts one; the
    /// result says whether it did.
    pub fn begin_join(&mut self, target: u64) -> (started: bool)
        ensures
            final(self)@ == old(self)@.joining(target),
            started == (old(self)@.link is Disconnected),
    {
        match self.link {
            Link::Disconnected => {
                self.link = Link::Connecting { target };
                true
            },
            _ => false,
        }
    }

    /// Ends the join that is under way: with `success` the call is connected
    /// to the channel it was joining, without it the call is disconnected. A
    /// call that was not joining stays as it is. Returns the state reached.
    pub fn finish_join(&mut self, success: bool) -> (state: CallState)
        ensures
            final(self)@ == old(self)@.joined(success),
            state == final(self)@.state(),
    {
        match self.link {
            Link::Connecting { target } => {
                if success {
                    self.link = Link::Connected { channel: target };
                } else {
                    self.link = Link::Disconnected;
                }
            },
            _ => {},
        }
        self.state()
    }

    /// Appends `track` to the tail of the playback queue and hands it back.
    pub fn enqueue(&mut self, track: TrackHandle) -> (handle: TrackHandle)
        ensures
            final(self)@ == old(self)@.enqueued(track),
            handle == track,
    {
        self.queue.push_back(track);
        track
    }

    /// The track at the head of the playback queue, if any.
    pub fn current(&self) -> (track: Option<TrackHandle>)
        ensures
            track == self@.current(),
    {
        if self.queue.len() > 0 {
            Some(self.queue[0])
        } else {
            None
        }
    }

    /// Names the track that a skip ends: the current one. An empty queue has
    /// none to skip. The queue moves up when the transport reports the end
    /// of that track, see [`VoiceCall::advance`].
    pub fn skip(&self) -> (ended: Result<TrackHandle, UserError>)
        ensures
            ended == (match self@.current() {
                Some(track) => Ok::<TrackHandle, UserError>(track),
                None => Err(UserError::EmptyQueue),
            }),
    {
        match self.current() {
            Some(track) => Ok(track),
            None => Err(UserError::EmptyQueue),
        }
    }

    /// Takes the current track off the queue once it has ended, and returns
    /// it. An empty queue stays empty.
    pub fn advance(&mut self) -> (ended: Option<TrackHandle>)
        ensures
            final(self)@ == old(self)@.advanced(),
            ended == old(self)@.current(),
    {
        let ended = self.queue.pop_front();
        ended
    }

    /// Clears the playback queue and keeps the connection.
    pub fn stop(&mut self)
        ensures
            final(self)@ == old(self)@.stopped(),
    {
        self.queue.clear();
    }

    /// Ends the connection. What is queued stays queued until the transport
    /// reports the disconnect.
    pub fn leave(&mut self)
        ensures
            final(self)@ == old(self)@.left(),
    {
        self.link = Link::Disconnected;
    }
}

} // verus!
