use parakeet_bot::call::{CallState, Link, TrackHandle, VoiceCall};
use parakeet_bot::error::UserError;

#[test]
fn a_new_call_is_disconnected() {
    let call = VoiceCall::new(7);
    assert_eq!(call.session(), 7);
    assert_eq!(call.state(), CallState::Disconnected);
    assert_eq!(call.link(), Link::Disconnected);
    assert_eq!(call.current_channel(), None);
    assert!(!call.is_live());
    assert_eq!(call.queue_len(), 0);
    assert_eq!(call.current(), None);
}

#[test]
fn a_call_goes_through_its_states() {
    let mut call = VoiceCall::new(7);
    assert!(call.begin_join(40));
    assert_eq!(call.state(), CallState::Connecting);
    assert_eq!(call.current_channel(), None);
    assert_eq!(call.finish_join(true), CallState::ConnectedIdle);
    assert_eq!(call.current_channel(), Some(40));
    call.enqueue(TrackHandle { id: 1 });
    assert_eq!(call.state(), CallState::ConnectedPlaying);
    assert_eq!(call.advance(), Some(TrackHandle { id: 1 }));
    assert_eq!(call.state(), CallState::ConnectedIdle);
    call.leave();
    assert_eq!(call.state(), CallState::Disconnected);
    assert_eq!(call.current_channel(), None);
}

#[test]
fn a_failed_join_ends_disconnected() {
    let mut call = VoiceCall::new(7);
    assert!(call.begin_join(40));
    assert_eq!(call.finish_join(false), CallState::Disconnected);
    assert_eq!(call.link(), Link::Disconnected);
}

#[test]
fn only_a_disconnected_call_starts_a_join() {
    let mut call = VoiceCall::new(7);
    call.begin_join(40);
    assert!(!call.begin_join(41));
    assert_eq!(call.link(), Link::Connecting { target: 40 });
    call.finish_join(true);
    assert!(!call.begin_join(42));
    assert_eq!(call.link(), Link::Connected { channel: 40 });
    assert_eq!(call.finish_join(false), CallState::ConnectedIdle);
    assert_eq!(call.link(), Link::Connected { channel: 40 });
}

#[test]
fn the_queue_plays_in_order() {
    let mut call = VoiceCall::new(7);
    assert_eq!(call.enqueue(TrackHandle { id: 1 }), TrackHandle { id: 1 });
    call.enqueue(TrackHandle { id: 2 });
    call.enqueue(TrackHandle { id: 3 });
    assert_eq!(call.queue_len(), 3);
    assert_eq!(call.current(), Some(TrackHandle { id: 1 }));
    assert_eq!(call.advance(), Some(TrackHandle { id: 1 }));
    assert_eq!(call.current(), Some(TrackHandle { id: 2 }));
    assert_eq!(call.advance(), Some(TrackHandle { id: 2 }));
    assert_eq!(call.advance(), Some(TrackHandle { id: 3 }));
    assert_eq!(call.advance(), None);
    assert_eq!(call.queue_len(), 0);
}

#[test]
fn skip_names_the_current_track_and_moves_nothing() {
    let mut call = VoiceCall::new(7);
    assert_eq!(call.skip(), Err(UserError::EmptyQueue));
    call.enqueue(TrackHandle { id: 5 });
    call.enqueue(TrackHandle { id: 6 });
    assert_eq!(call.skip(), Ok(TrackHandle { id: 5 }));
    assert_eq!(call.queue_len(), 2);
}

#[test]
fn stop_clears_and_stays_connected() {
    let mut call = VoiceCall::new(7);
    call.begin_join(40);
    call.finish_join(true);
    call.enqueue(TrackHandle { id: 5 });
    call.stop();
    assert_eq!(call.queue_len(), 0);
    assert_eq!(call.state(), CallState::ConnectedIdle);
    assert_eq!(call.current_channel(), Some(40));
}

#[test]
fn leave_keeps_what_is_queued() {
    let mut call = VoiceCall::new(7);
    call.begin_join(40);
    call.finish_join(true);
    call.enqueue(TrackHandle { id: 5 });
    call.leave();
    assert_eq!(call.queue_len(), 1);
    assert_eq!(call.state(), CallState::Disconnected);
}
