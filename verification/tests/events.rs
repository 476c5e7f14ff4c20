use parakeet_bot::call::{CallState, TrackHandle, VoiceCall};
use parakeet_bot::events::{
    any_listener, idle_probe, on_disconnect, on_idle_tick, on_track_end, Effect, Handler, LogLevel,
    Lookup, Member, Notification, Reaction, Verdict, IDLE_CHECK_SECS,
};
use parakeet_bot::metadata::{QueueMeta, TrackMetadata};

fn titled(title: &str) -> TrackMetadata {
    TrackMetadata {
        title: Some(title.to_string()),
        duration: None,
        channel: None,
        thumbnail_url: None,
        url: None,
    }
}

fn connected(session: u64, channel: u64) -> VoiceCall {
    let mut call = VoiceCall::new(session);
    call.begin_join(channel);
    call.finish_join(true);
    call
}

const BOT: Member = Member { is_bot: true };
const HUMAN: Member = Member { is_bot: false };

#[test]
fn idle_interval_is_five_minutes() {
    assert_eq!(IDLE_CHECK_SECS, 300);
}

#[test]
fn any_listener_finds_the_one_who_is_no_bot() {
    assert!(!any_listener(&vec![]));
    assert!(!any_listener(&vec![BOT, BOT]));
    assert!(any_listener(&vec![BOT, HUMAN]));
    assert!(any_listener(&vec![HUMAN, BOT, BOT]));
}

#[test]
fn idle_monitor_stays_while_somebody_listens() {
    let mut call = connected(1, 40);
    let reaction = on_idle_tick(&mut call, &Lookup::Members(vec![BOT, HUMAN, BOT]));
    assert_eq!(reaction, Reaction { effect: Effect::Nothing, verdict: Verdict::Continue });
    assert_eq!(call.current_channel(), Some(40));
}

#[test]
fn idle_monitor_leaves_an_empty_channel() {
    let mut call = connected(1, 40);
    let reaction = on_idle_tick(&mut call, &Lookup::Members(vec![]));
    assert_eq!(reaction, Reaction { effect: Effect::Left, verdict: Verdict::Continue });
    assert_eq!(call.state(), CallState::Disconnected);
}

#[test]
fn idle_monitor_leaves_a_channel_of_bots() {
    let mut call = connected(1, 40);
    let reaction = on_idle_tick(&mut call, &Lookup::Members(vec![BOT, BOT]));
    assert_eq!(reaction.effect, Effect::Left);
    assert_eq!(call.current_channel(), None);
}

#[test]
fn failed_lookups_never_leave_and_the_first_empty_one_leaves_once() {
    let mut call = connected(1, 40);
    let mut leaves = 0;
    for lookup in [Lookup::Failed, Lookup::Failed, Lookup::Members(vec![])] {
        let reaction = on_idle_tick(&mut call, &lookup);
        assert_eq!(reaction.verdict, Verdict::Continue);
        match reaction.effect {
            Effect::Left => leaves += 1,
            Effect::LookupFailed => assert_eq!(call.current_channel(), Some(40)),
            other => panic!("unexpected effect {other:?}"),
        }
    }
    assert_eq!(leaves, 1);
    assert_eq!(call.current_channel(), None);
}

#[test]
fn idle_monitor_ignores_a_call_without_channel() {
    let mut call = VoiceCall::new(1);
    assert_eq!(idle_probe(&call), None);
    for lookup in [Lookup::Failed, Lookup::Members(vec![]), Lookup::Members(vec![HUMAN])] {
        let reaction = on_idle_tick(&mut call, &lookup);
        assert_eq!(reaction, Reaction { effect: Effect::Nothing, verdict: Verdict::Continue });
    }
    assert_eq!(call.state(), CallState::Disconnected);
}

#[test]
fn idle_monitor_fires_again_after_leaving_without_harm() {
    let mut call = connected(1, 40);
    assert_eq!(idle_probe(&call), Some(40));
    on_idle_tick(&mut call, &Lookup::Members(vec![]));
    let again = on_idle_tick(&mut call, &Lookup::Members(vec![]));
    assert_eq!(again.effect, Effect::Nothing);
}

#[test]
fn disconnect_empties_both_queues() {
    let mut call = connected(1, 40);
    let mut meta = QueueMeta::new();
    call.enqueue(TrackHandle { id: 1 });
    call.enqueue(TrackHandle { id: 2 });
    meta.push_back(titled("a"));
    meta.push_back(titled("b"));
    let reaction = on_disconnect(&mut call, &mut meta);
    assert_eq!(reaction, Reaction { effect: Effect::Cleared, verdict: Verdict::Continue });
    assert_eq!(call.queue_len(), 0);
    assert_eq!(meta.len(), 0);
    assert_eq!(call.state(), CallState::Disconnected);
}

#[test]
fn disconnect_after_leave_is_no_error() {
    let mut call = connected(1, 40);
    let mut meta = QueueMeta::new();
    call.enqueue(TrackHandle { id: 1 });
    meta.push_back(titled("a"));
    call.leave();
    let reaction = on_disconnect(&mut call, &mut meta);
    assert_eq!(reaction.verdict, Verdict::Continue);
    assert_eq!(call.queue_len(), 0);
    assert_eq!(meta.len(), 0);
}

#[test]
fn track_end_removes_the_front_of_the_metadata() {
    let mut meta = QueueMeta::new();
    meta.push_back(titled("a"));
    meta.push_back(titled("b"));
    let reaction = on_track_end(&mut meta);
    assert_eq!(
        reaction,
        Reaction { effect: Effect::Removed(titled("a")), verdict: Verdict::Continue }
    );
    assert_eq!(meta.len(), 1);
    assert_eq!(meta.front(), Some(titled("b")));
}

#[test]
fn track_end_on_empty_metadata_changes_nothing() {
    let mut meta = QueueMeta::new();
    let reaction = on_track_end(&mut meta);
    assert_eq!(reaction, Reaction { effect: Effect::Desync, verdict: Verdict::Continue });
    assert_eq!(meta.len(), 0);
}

#[test]
fn track_end_handler_brings_the_lengths_together_again() {
    // The transport has dropped the finished track already: one track is
    // left to play, and two entries of metadata are still queued.
    let mut call = connected(1, 40);
    let mut meta = QueueMeta::new();
    call.enqueue(TrackHandle { id: 2 });
    meta.push_back(titled("a"));
    meta.push_back(titled("b"));
    let reaction = Handler::TrackEndHandler.act(&mut call, &mut meta, &Notification::TrackEnd);
    assert_eq!(reaction.effect, Effect::Removed(titled("a")));
    assert_eq!(reaction.verdict, Verdict::Continue);
    assert_eq!(meta.len(), 1);
    assert_eq!(call.queue_len(), 1);
}

#[test]
fn track_end_handler_leaves_the_call_alone() {
    for queued in [0u64, 1, 3] {
        for described in [0usize, 1, 3] {
            let mut call = connected(1, 40);
            let mut meta = QueueMeta::new();
            for id in 0..queued {
                call.enqueue(TrackHandle { id });
            }
            for _ in 0..described {
                meta.push_back(titled("t"));
            }
            Handler::TrackEndHandler.act(&mut call, &mut meta, &Notification::TrackEnd);
            assert_eq!(call.queue_len() as u64, queued);
            assert_eq!(call.current(), if queued > 0 { Some(TrackHandle { id: 0 }) } else { None });
            assert_eq!(call.current_channel(), Some(40));
            assert_eq!(call.state() == CallState::ConnectedPlaying, queued > 0);
            assert_eq!(meta.len(), described.saturating_sub(1));
        }
    }
}

#[test]
fn each_notification_has_its_handler() {
    let tick = Notification::Tick { lookup: Lookup::Failed };
    assert_eq!(Handler::for_notification(&tick), Handler::IdleMonitor);
    assert_eq!(
        Handler::for_notification(&Notification::TransportDisconnect),
        Handler::DisconnectHandler
    );
    assert_eq!(Handler::for_notification(&Notification::TrackEnd), Handler::TrackEndHandler);
}

#[test]
fn each_handler_acts_on_its_own_notification_only() {
    let handlers = [Handler::IdleMonitor, Handler::DisconnectHandler, Handler::TrackEndHandler];
    for handler in handlers {
        let notifications = [
            Notification::Tick { lookup: Lookup::Members(vec![]) },
            Notification::TransportDisconnect,
            Notification::TrackEnd,
        ];
        for (index, notification) in notifications.iter().enumerate() {
            let mut call = connected(1, 40);
            let mut meta = QueueMeta::new();
            call.enqueue(TrackHandle { id: 1 });
            meta.push_back(titled("a"));
            let reaction = handler.act(&mut call, &mut meta, notification);
            assert_eq!(reaction.verdict, Verdict::Continue);
            let own = match handler {
                Handler::IdleMonitor => index == 0,
                Handler::DisconnectHandler => index == 1,
                Handler::TrackEndHandler => index == 2,
            };
            if own {
                assert_ne!(reaction.effect, Effect::Nothing);
            } else {
                assert_eq!(reaction.effect, Effect::Nothing);
                assert_eq!(call.queue_len(), 1);
                assert_eq!(meta.len(), 1);
                assert_eq!(call.current_channel(), Some(40));
            }
        }
    }
}

#[test]
fn effects_are_logged_at_their_level() {
    assert_eq!(Effect::Nothing.log_line(), None);
    assert_eq!(
        Effect::Left.log_line(),
        Some((LogLevel::Info, "Idle! Disconnecting from voice channel.".to_string()))
    );
    assert_eq!(
        Effect::Cleared.log_line(),
        Some((LogLevel::Info, "Stopping on disconnect!".to_string()))
    );
    assert_eq!(
        Effect::Desync.log_line(),
        Some((LogLevel::Error, "Tried to remove track metadata from empty queue.".to_string()))
    );
    assert_eq!(
        Effect::LookupFailed.log_line(),
        Some((LogLevel::Error, "Could not find the members of the voice channel.".to_string()))
    );
    assert_eq!(
        Effect::Removed(titled("Song A")).log_line(),
        Some((LogLevel::Debug, "Removing metadata for Song A".to_string()))
    );
    let mut untitled = titled("");
    untitled.title = None;
    assert_eq!(
        Effect::Removed(untitled).log_line(),
        Some((LogLevel::Debug, "Removing metadata for <NO TITLE>".to_string()))
    );
}
