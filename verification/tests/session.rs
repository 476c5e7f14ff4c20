use parakeet_bot::call::{CallState, TrackHandle};
use parakeet_bot::data::GuildDataStore;
use parakeet_bot::error::{ParakeetError, UserError};
use parakeet_bot::events::{Effect, Lookup, Member, Notification, Verdict};
use parakeet_bot::metadata::InputMetadata;
use parakeet_bot::registry::{CallRegistry, JoinOutcome, JoinPlan};
use parakeet_bot::session::{
    enqueue, notify, plan_enqueue, queue, queue_display_string, skip, stop, Skip,
};

const G: u64 = 9;
const IN_G: Option<u64> = Some(G);
const IN_H: Option<u64> = Some(G + 1);

fn input(title: &str) -> Result<InputMetadata, String> {
    Ok(InputMetadata {
        title: Some(title.to_string()),
        duration: None,
        channel: None,
        thumbnail: None,
        source_url: None,
        date: None,
    })
}

fn joined() -> (CallRegistry, GuildDataStore) {
    let mut registry = CallRegistry::new();
    registry.complete_join(G, 40, Ok(())).unwrap();
    (registry, GuildDataStore::new())
}

fn lengths(registry: &CallRegistry, store: &mut GuildDataStore, session: u64) -> (usize, usize) {
    let playback = registry.lookup(session).map(|call| call.queue_len()).unwrap_or(0);
    (playback, store.get(session).queue_metadata.len())
}

fn track_end(registry: &mut CallRegistry, store: &mut GuildDataStore, session: u64) -> Effect {
    notify(registry, store, session, &Notification::TrackEnd).effect
}

#[test]
fn queues_stay_in_step_through_enqueues_and_track_ends() {
    let (mut registry, mut store) = joined();
    // true: enqueue, false: track end
    let ops = [true, true, false, true, false, false, false, true, true, true, false];
    let mut next = 0;
    let mut expected = 0usize;
    for op in ops {
        if op {
            next += 1;
            let queued = enqueue(&mut registry, &mut store, IN_G, TrackHandle { id: next }, input("t"));
            assert_eq!(queued, Ok(TrackHandle { id: next }));
            expected += 1;
        } else {
            track_end(&mut registry, &mut store, G);
            expected = expected.saturating_sub(1);
        }
        assert_eq!(lengths(&registry, &mut store, G), (expected, expected));
    }
}

#[test]
fn other_sessions_do_not_disturb_the_queues() {
    let (mut registry, mut store) = joined();
    registry.complete_join(G + 1, 50, Ok(())).unwrap();
    enqueue(&mut registry, &mut store, IN_G, TrackHandle { id: 1 }, input("a")).unwrap();
    enqueue(&mut registry, &mut store, IN_H, TrackHandle { id: 2 }, input("b")).unwrap();
    enqueue(&mut registry, &mut store, IN_H, TrackHandle { id: 3 }, input("c")).unwrap();
    track_end(&mut registry, &mut store, G + 1);
    assert_eq!(lengths(&registry, &mut store, G), (1, 1));
    assert_eq!(lengths(&registry, &mut store, G + 1), (1, 1));
    assert_eq!(queue_display_string(&registry, &mut store, IN_G).unwrap(), "1. a\n");
    assert_eq!(queue_display_string(&registry, &mut store, IN_H).unwrap(), "1. c\n");
}

#[test]
fn display_follows_enqueue_and_track_end() {
    let (mut registry, mut store) = joined();
    enqueue(&mut registry, &mut store, IN_G, TrackHandle { id: 1 }, input("Song A")).unwrap();
    enqueue(&mut registry, &mut store, IN_G, TrackHandle { id: 2 }, input("Song B")).unwrap();
    let listing = queue_display_string(&registry, &mut store, IN_G).unwrap();
    assert_eq!(listing.lines().collect::<Vec<_>>(), vec!["1. Song A", "2. Song B"]);

    let effect = track_end(&mut registry, &mut store, G);
    assert!(matches!(effect, Effect::Removed(track) if track.title.as_deref() == Some("Song A")));
    let listing = queue_display_string(&registry, &mut store, IN_G).unwrap();
    assert_eq!(listing.lines().collect::<Vec<_>>(), vec!["1. Song B"]);
    assert_eq!(registry.lookup(G).unwrap().current(), Some(TrackHandle { id: 2 }));
}

#[test]
fn idle_tick_without_listeners_ends_the_call_and_skip_then_fails() {
    let mut registry = CallRegistry::new();
    let mut store = GuildDataStore::new();
    assert_eq!(registry.plan_join(G), JoinPlan::Connect);
    assert_eq!(registry.complete_join(G, 40, Ok(())), Ok(JoinOutcome::Created));

    let tick = Notification::Tick { lookup: Lookup::Members(vec![Member { is_bot: true }]) };
    let reaction = notify(&mut registry, &mut store, G, &tick);
    assert_eq!(reaction.effect, Effect::Left);
    assert_eq!(reaction.verdict, Verdict::Continue);
    assert!(registry.contains(G));
    assert!(matches!(registry.lookup(G), Err(UserError::NoActiveCall)));

    assert_eq!(skip(&registry, &mut store, IN_G), Err(UserError::NoActiveCall));
    assert_eq!(skip(&registry, &mut store, IN_G).unwrap_err().message(), "No active call.");
}

#[test]
fn a_left_call_is_joined_again_under_its_handlers() {
    let (mut registry, mut store) = joined();
    let tick = Notification::Tick { lookup: Lookup::Members(vec![]) };
    notify(&mut registry, &mut store, G, &tick);
    assert_eq!(registry.plan_join(G), JoinPlan::Connect);
    assert_eq!(registry.complete_join(G, 41, Ok(())), Ok(JoinOutcome::Rejoined));
    let call = registry.lookup(G).unwrap();
    assert_eq!(call.current_channel(), Some(41));
    assert_eq!(call.state(), CallState::ConnectedIdle);
}

#[test]
fn disconnect_notification_clears_the_session() {
    let (mut registry, mut store) = joined();
    enqueue(&mut registry, &mut store, IN_G, TrackHandle { id: 1 }, input("a")).unwrap();
    enqueue(&mut registry, &mut store, IN_G, TrackHandle { id: 2 }, input("b")).unwrap();
    let reaction = notify(&mut registry, &mut store, G, &Notification::TransportDisconnect);
    assert_eq!(reaction.effect, Effect::Cleared);
    assert_eq!(reaction.verdict, Verdict::Continue);
    assert_eq!(store.get(G).queue_metadata.len(), 0);
    assert!(matches!(registry.lookup(G), Err(UserError::NoActiveCall)));
    // the call is still known, with nothing queued
    registry.complete_join(G, 40, Ok(())).unwrap();
    assert_eq!(registry.lookup(G).unwrap().queue_len(), 0);
}

#[test]
fn track_end_on_an_empty_session_is_an_anomaly_without_effect() {
    let (mut registry, mut store) = joined();
    let effect = track_end(&mut registry, &mut store, G);
    assert_eq!(effect, Effect::Desync);
    assert_eq!(lengths(&registry, &mut store, G), (0, 0));
    assert_eq!(registry.lookup(G).unwrap().current_channel(), Some(40));
}

#[test]
fn a_session_without_call_has_no_handlers() {
    let mut registry = CallRegistry::new();
    let mut store = GuildDataStore::new();
    let notifications = [
        Notification::Tick { lookup: Lookup::Members(vec![]) },
        Notification::TransportDisconnect,
        Notification::TrackEnd,
    ];
    for notification in &notifications {
        let reaction = notify(&mut registry, &mut store, G, notification);
        assert_eq!(reaction.effect, Effect::Nothing);
        assert_eq!(reaction.verdict, Verdict::Continue);
    }
    assert!(!store.contains(G));
    assert!(!registry.contains(G));
}

#[test]
fn enqueue_needs_metadata_and_a_live_call() {
    let (mut registry, mut store) = joined();
    let failed =
        enqueue(&mut registry, &mut store, IN_G, TrackHandle { id: 1 }, Err("no metadata".to_string()));
    assert_eq!(failed, Err(ParakeetError::MetadataError("no metadata".to_string())));
    assert_eq!(lengths(&registry, &mut store, G), (0, 0));

    let nowhere = enqueue(&mut registry, &mut store, IN_H, TrackHandle { id: 1 }, input("a"));
    assert_eq!(nowhere, Err(ParakeetError::UserError(UserError::NoActiveCall)));
    assert!(!store.contains(G + 1));
}

#[test]
fn skip_names_the_current_track() {
    let (mut registry, mut store) = joined();
    assert_eq!(skip(&registry, &mut store, IN_G), Err(UserError::EmptyQueue));
    assert_eq!(UserError::EmptyQueue.message(), "Nothing in the queue!");
    enqueue(&mut registry, &mut store, IN_G, TrackHandle { id: 11 }, input("Song A")).unwrap();
    enqueue(&mut registry, &mut store, IN_G, TrackHandle { id: 12 }, input("Song B")).unwrap();
    assert_eq!(
        skip(&registry, &mut store, IN_G),
        Ok(Skip { track: TrackHandle { id: 11 }, reply: "Skipping `Song A`".to_string() })
    );
    // nothing has moved yet
    assert_eq!(lengths(&registry, &mut store, G), (2, 2));
}

#[test]
fn skip_of_an_untitled_track() {
    let (mut registry, mut store) = joined();
    let mut untitled = input("x").unwrap();
    untitled.title = None;
    enqueue(&mut registry, &mut store, IN_G, TrackHandle { id: 1 }, Ok(untitled)).unwrap();
    assert_eq!(skip(&registry, &mut store, IN_G).unwrap().reply, "Skipping `<MISSING_TITLE>`");
}

#[test]
fn stop_clears_both_queues_and_leaves() {
    let (mut registry, mut store) = joined();
    enqueue(&mut registry, &mut store, IN_G, TrackHandle { id: 1 }, input("a")).unwrap();
    assert_eq!(stop(&mut registry, &mut store, IN_G), Ok("Queue deleted.".to_string()));
    assert_eq!(store.get(G).queue_metadata.len(), 0);
    assert!(matches!(registry.lookup(G), Err(UserError::NoActiveCall)));
    assert_eq!(stop(&mut registry, &mut store, IN_G), Err(UserError::NoActiveCall));
    registry.complete_join(G, 40, Ok(())).unwrap();
    assert_eq!(registry.lookup(G).unwrap().queue_len(), 0);
}

#[test]
fn display_needs_a_live_call() {
    let mut registry = CallRegistry::new();
    let mut store = GuildDataStore::new();
    assert_eq!(queue_display_string(&registry, &mut store, IN_G), Err(UserError::NoActiveCall));
    registry.complete_join(G, 40, Ok(())).unwrap();
    assert_eq!(queue_display_string(&registry, &mut store, IN_G), Ok("Empty queue!".to_string()));
}

#[test]
fn a_track_end_takes_one_track_off_each_queue() {
    let (mut registry, mut store) = joined();
    for id in 1..=3 {
        enqueue(&mut registry, &mut store, IN_G, TrackHandle { id }, input("t")).unwrap();
    }
    let effect = track_end(&mut registry, &mut store, G);
    assert!(matches!(effect, Effect::Removed(_)));
    assert_eq!(lengths(&registry, &mut store, G), (2, 2));
    assert_eq!(registry.lookup(G).unwrap().current(), Some(TrackHandle { id: 2 }));
    assert_eq!(registry.lookup(G).unwrap().current_channel(), Some(40));
}

#[test]
fn commands_from_outside_a_guild_change_nothing() {
    let (mut registry, mut store) = joined();
    let refused = enqueue(&mut registry, &mut store, None, TrackHandle { id: 1 }, input("a"));
    assert_eq!(refused, Err(ParakeetError::UserError(UserError::GuildOnly)));
    let refused =
        enqueue(&mut registry, &mut store, None, TrackHandle { id: 1 }, Err("x".to_string()));
    assert_eq!(refused, Err(ParakeetError::UserError(UserError::GuildOnly)));
    assert_eq!(skip(&registry, &mut store, None), Err(UserError::GuildOnly));
    assert_eq!(stop(&mut registry, &mut store, None), Err(UserError::GuildOnly));
    assert_eq!(queue_display_string(&registry, &mut store, None), Err(UserError::GuildOnly));
    assert_eq!(store.len(), 0);
    assert_eq!(registry.lookup(G).unwrap().queue_len(), 0);
    assert_eq!(registry.lookup(G).unwrap().current_channel(), Some(40));
}

#[test]
fn plan_enqueue_says_what_enqueue_will_say() {
    let (mut registry, mut store) = joined();
    assert_eq!(plan_enqueue(&registry, IN_G, &input("a")), Ok(G));
    assert_eq!(
        plan_enqueue(&registry, None, &input("a")),
        Err(ParakeetError::UserError(UserError::GuildOnly))
    );
    assert_eq!(
        plan_enqueue(&registry, None, &Err("no metadata".to_string())),
        Err(ParakeetError::UserError(UserError::GuildOnly))
    );
    assert_eq!(
        plan_enqueue(&registry, IN_G, &Err("no metadata".to_string())),
        Err(ParakeetError::MetadataError("no metadata".to_string()))
    );
    assert_eq!(
        plan_enqueue(&registry, IN_H, &Err("no metadata".to_string())),
        Err(ParakeetError::MetadataError("no metadata".to_string()))
    );
    assert_eq!(
        plan_enqueue(&registry, IN_H, &input("a")),
        Err(ParakeetError::UserError(UserError::NoActiveCall))
    );
    // planning changes nothing
    assert_eq!(lengths(&registry, &mut store, G), (0, 0));
    for (guild, fetched) in [
        (IN_G, input("a")),
        (None, input("a")),
        (IN_G, Err("no metadata".to_string())),
        (IN_H, input("a")),
    ] {
        let planned = plan_enqueue(&registry, guild, &fetched);
        let done = enqueue(&mut registry, &mut store, guild, TrackHandle { id: 5 }, fetched);
        assert_eq!(planned.is_ok(), done.is_ok());
        assert_eq!(planned.err(), done.err());
    }
}

#[test]
fn the_queue_reply_needs_name_guild_and_live_call() {
    let mut registry = CallRegistry::new();
    let mut store = GuildDataStore::new();
    assert_eq!(queue(&registry, &mut store, None, IN_G), Err(UserError::NotInGuild));
    assert_eq!(queue(&registry, &mut store, None, None), Err(UserError::NotInGuild));
    assert_eq!(queue(&registry, &mut store, Some("Aviary"), None), Err(UserError::GuildOnly));
    assert_eq!(queue(&registry, &mut store, Some("Aviary"), IN_G), Err(UserError::NoActiveCall));
    assert_eq!(store.len(), 0);

    registry.complete_join(G, 40, Ok(())).unwrap();
    let mut first = input("Song A").unwrap();
    first.thumbnail = Some("https://img/a".to_string());
    enqueue(&mut registry, &mut store, IN_G, TrackHandle { id: 1 }, Ok(first)).unwrap();
    enqueue(&mut registry, &mut store, IN_G, TrackHandle { id: 2 }, input("Song B")).unwrap();
    let reply = queue(&registry, &mut store, Some("Aviary"), IN_G).unwrap();
    assert_eq!(reply.title, "Aviary Queue");
    assert_eq!(reply.description, "1. Song A\n2. Song B\n");
    assert_eq!(reply.thumbnail, Some("https://img/a".to_string()));
}
