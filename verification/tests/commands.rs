use parakeet_bot::commands::{
    autocomplete_plan, autocomplete_query, join_author, play_reply, queue, Autocomplete, Dc, DcPlan,
    Field, PlayReply, QueueReply, AUTOCOMPLETE_DELAY_MILLIS, AUTOCOMPLETE_RESULTS,
};
use parakeet_bot::error::UserError;
use parakeet_bot::metadata::{InputMetadata, QueueMeta, TrackMetadata};
use parakeet_bot::search::Query;
use std::time::Duration;

fn field(name: &str, value: &str) -> Field {
    Field { name: name.to_string(), value: value.to_string(), inline: true }
}

#[test]
fn the_leave_command() {
    assert_eq!(Dc.name(), "dc");
    assert_eq!(Dc.description(), "I didn't want to stay here anyway!");
    assert_eq!(
        Dc.slash_command_handle(Some(3)),
        DcPlan { disconnect: Some(3), reply: "Buh bye!".to_string() }
    );
    assert_eq!(
        Dc.slash_command_handle(None),
        DcPlan { disconnect: None, reply: "Not in a server!".to_string() }
    );
}

#[test]
fn the_channel_to_join() {
    assert_eq!(join_author(Some(1), Some(Some(40))), Ok((1, 40)));
    assert_eq!(join_author(None, Some(Some(40))), Err(UserError::NotInGuild));
    assert_eq!(join_author(None, None), Err(UserError::NotInGuild));
    assert_eq!(join_author(Some(1), None), Err(UserError::NotInVoice));
    assert_eq!(join_author(Some(1), Some(None)), Err(UserError::NotInVoice));
}

#[test]
fn autocomplete_by_what_was_typed() {
    assert_eq!(AUTOCOMPLETE_RESULTS, 5);
    assert_eq!(AUTOCOMPLETE_DELAY_MILLIS, 600);
    assert_eq!(autocomplete_query(""), Autocomplete::Nothing);
    assert_eq!(autocomplete_query("lofi beats"), Autocomplete::Search);
    assert_eq!(autocomplete_query("https://www.youtube.com/watch?v=1"), Autocomplete::LinkThenSearch);
    assert_eq!(autocomplete_query("https://example.com/a.mp3"), Autocomplete::LinkThenSearch);
    assert_eq!(autocomplete_query("https://open.spotify.com/track/1"), Autocomplete::LinkThenSearch);
}

#[test]
fn autocomplete_plan_by_kind() {
    let words = Query::YoutubeSearch("x".to_string());
    assert_eq!(autocomplete_plan("x", &words), Autocomplete::Search);
    assert_eq!(autocomplete_plan("", &words), Autocomplete::Nothing);
    assert_eq!(autocomplete_plan("x", &Query::Other("x".to_string())), Autocomplete::LinkThenSearch);
    assert_eq!(autocomplete_plan("x", &Query::Unsupported), Autocomplete::LinkThenSearch);
}

#[test]
fn play_reply_with_everything_known() {
    let meta = InputMetadata {
        title: Some("Song A".to_string()),
        duration: Some(Duration::from_secs(185)),
        channel: Some("Chan".to_string()),
        thumbnail: Some("https://img".to_string()),
        source_url: Some("https://src".to_string()),
        date: Some("20240101".to_string()),
    };
    assert_eq!(
        play_reply(&meta),
        PlayReply {
            title: "Song A".to_string(),
            url: Some("https://src".to_string()),
            thumbnail: Some("https://img".to_string()),
            fields: vec![
                field("Duration", "[03m:05s]"),
                field("Date", "20240101"),
                field("Channel", "Chan"),
            ],
        }
    );
}

#[test]
fn play_reply_with_little_known() {
    let meta = InputMetadata {
        title: None,
        duration: None,
        channel: Some("Chan".to_string()),
        thumbnail: None,
        source_url: None,
        date: None,
    };
    assert_eq!(
        play_reply(&meta),
        PlayReply {
            title: "<MISSING TITLE>".to_string(),
            url: None,
            thumbnail: None,
            fields: vec![field("Channel", "Chan")],
        }
    );
}

#[test]
fn queue_reply_shows_listing_and_front_picture() {
    let mut tracks = QueueMeta::new();
    assert_eq!(
        queue("Aviary", &tracks),
        QueueReply {
            title: "Aviary Queue".to_string(),
            description: "Empty queue!".to_string(),
            thumbnail: None,
        }
    );
    tracks.push_back(TrackMetadata {
        title: Some("Song A".to_string()),
        duration: None,
        channel: None,
        thumbnail_url: Some("https://img/a".to_string()),
        url: None,
    });
    tracks.push_back(TrackMetadata {
        title: Some("Song B".to_string()),
        duration: None,
        channel: None,
        thumbnail_url: Some("https://img/b".to_string()),
        url: None,
    });
    assert_eq!(
        queue("Aviary", &tracks),
        QueueReply {
            title: "Aviary Queue".to_string(),
            description: "1. Song A\n2. Song B\n".to_string(),
            thumbnail: Some("https://img/a".to_string()),
        }
    );
}
