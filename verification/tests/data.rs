use parakeet_bot::data::{Data, GuildData, GuildDataStore, UserData};
use parakeet_bot::error::UserError;
use parakeet_bot::metadata::TrackMetadata;

fn titled(title: &str) -> TrackMetadata {
    TrackMetadata {
        title: Some(title.to_string()),
        duration: None,
        channel: None,
        thumbnail_url: None,
        url: None,
    }
}

#[test]
fn a_record_is_created_on_first_access_and_kept() {
    let mut store = GuildDataStore::new();
    assert_eq!(store.len(), 0);
    assert!(!store.contains(5));
    assert_eq!(store.get(5).queue_metadata.len(), 0);
    assert!(store.contains(5));
    assert_eq!(store.len(), 1);
    store.get(5).queue_metadata.push_back(titled("a"));
    assert_eq!(store.get(5).queue_metadata.front(), Some(titled("a")));
    assert_eq!(store.len(), 1);
    assert_eq!(store.get(6).queue_metadata.len(), 0);
    assert_eq!(store.len(), 2);
    assert_eq!(store.get(5).queue_metadata.len(), 1);
}

#[test]
fn default_records_are_empty() {
    assert_eq!(GuildData::default().queue_metadata.len(), 0);
    assert_eq!(UserData::default(), UserData {});
}

#[test]
fn guild_data_is_for_guilds_only() {
    let mut data = Data::new();
    assert!(matches!(data.guild_data(None), Err(UserError::GuildOnly)));
    assert_eq!(data.guild_data.len(), 0);
    data.guild_data(Some(3)).unwrap().queue_metadata.push_back(titled("a"));
    assert_eq!(data.guild_data(Some(3)).unwrap().queue_metadata.len(), 1);
    assert_eq!(data.guild_data.len(), 1);
}

#[test]
fn user_data_is_created_once() {
    let mut data = Data::new();
    assert_eq!(data.user_data(8), UserData {});
    assert_eq!(data.user_data(8), UserData {});
    assert_eq!(data.user_data.len(), 1);
    assert!(data.notify_list.is_empty());
}
