//! What the commands decide before and after they talk to the outside: where
//! to join, what to search, and what the replies hold.

use crate::duration::{duration_secs, duration_text, format_duration};
use crate::error::UserError;
use crate::metadata::{
    lines_text, shows, InputMetadata, QueueMeta, TrackMetadata, MAX_LISTING_BYTES,
};
use crate::search::{parsed_domain, Query, QueryKind};
use crate::text::{clone_text, concat2, utf8_len};
use vstd::prelude::*;
use vstd::string::*;

verus! {

/// The results that are offered while a request is typed.
pub const AUTOCOMPLETE_RESULTS: u8 = 5;

/// The milliseconds to wait before a typed request is looked up.
pub const AUTOCOMPLETE_DELAY_MILLIS: u64 = 600;

/// The command that makes the bot leave.
#[derive(Clone, Copy, Debug, Default, PartialEq, Eq, Structural)]
pub struct Dc;

/// What the leave command does.
#[derive(Debug, PartialEq)]
pub struct DcPlan {
    /// The guild whose call is to be left, if the command came from one.
    pub disconnect: Option<u64>,
    /// The reply to the user.
    pub reply: String,
}

impl Dc {
    /// The name of the command.
    pub fn name(&self) -> (name: &'static str)
        ensures
            name@ == "dc"@,
    {
        "dc"
    }

    /// What the command says of itself.
    pub fn description(&self) -> (description: &'static str)
        ensures
            description@ == "I didn't want to stay here anyway!"@,
    {
        "I didn't want to stay here anyway!"
    }

    /// What the command does when it is called from `guild`: outside a
    /// guild it only says so; in one, the call of the guild is left.
    pub fn slash_command_handle(&self, guild: Option<u64>) -> (plan: DcPlan)
        ensures
            plan.disconnect == guild,
            plan.reply@ == (if guild is Some {
                "Buh bye!"@
            } else {
                "Not in a server!"@
            }),
    {
        match guild {
            Some(id) => DcPlan { disconnect: Some(id), reply: "Buh bye!".to_owned() },
            None => DcPlan { disconnect: None, reply: "Not in a server!".to_owned() },
        }
    }
}

/// The guild and the voice channel to join for a user: the guild that the
/// command came from and the channel that the user's voice state names. A
/// command from outside a guild has no guild; a user without a voice state,
/// or with one that names no channel, is in no voice channel.
pub fn join_author(guild: Option<u64>, voice_state: Option<Option<u64>>) -> (target: Result<
    (u64, u64),
    UserError,
>)
    ensures
        target == (match guild {
            None => Err::<(u64, u64), UserError>(UserError::NotInGuild),
            Some(guild_id) => match voice_state {
                Some(Some(channel_id)) => Ok((guild_id, channel_id)),
                _ => Err(UserError::NotInVoice),
            },
        }),
{
    let guild_id = match guild {
        Some(guild_id) => guild_id,
        None => {
            return Err(UserError::NotInGuild);
        },
    };
    let channel_id = match voice_state {
        Some(state) => match state {
            Some(id) => id,
            None => {
                return Err(UserError::NotInVoice);
            },
        },
        None => {
            return Err(UserError::NotInVoice);
        },
    };
    Ok((guild_id, channel_id))
}

/// What is looked up while a request is typed.
#[derive(Clone, Copy, Debug, PartialEq, Eq, Structural)]
pub enum Autocomplete {
    /// Nothing was typed yet: nothing is offered.
    Nothing,
    /// The request is a link: it is looked up as one; if that fails, it is
    /// searched for like words.
    LinkThenSearch,
    /// The request is words: they are searched for.
    Search,
}

/// What is looked up for the request `input`, typed so far, given its
/// kind.
pub fn autocomplete_plan(input: &str, query: &Query) -> (plan: Autocomplete)
    ensures
        plan == (if input@.len() == 0 {
            Autocomplete::Nothing
        } else if query.kind() == QueryKind::YoutubeSearch {
            Autocomplete::Search
        } else {
            Autocomplete::LinkThenSearch
        }),
{
    if input.is_empty() {
        return Autocomplete::Nothing;
    }
    match query {
        Query::YoutubeSearch(_) => Autocomplete::Search,
        _ => Autocomplete::LinkThenSearch,
    }
}

/// What is looked up while the request `input` is typed: a text that the
/// URL parser takes is a link, any other text is words.
pub fn autocomplete_query(input: &str) -> (plan: Autocomplete)
    ensures
        plan == (if input@.len() == 0 {
            Autocomplete::Nothing
        } else if parsed_domain(input@) is None {
            Autocomplete::Search
        } else {
            Autocomplete::LinkThenSearch
        }),
{
    match Query::from_str(input) {
        Ok(query) => autocomplete_plan(input, &query),
        Err(_) => Autocomplete::Nothing,
    }
}

/// One named value of a reply.
#[derive(Debug, PartialEq)]
pub struct Field {
    /// The name.
    pub name: String,
    /// The value.
    pub value: String,
    /// Whether the field may share its row.
    pub inline: bool,
}

/// The reply to a play command.
#[derive(Debug, PartialEq)]
pub struct PlayReply {
    /// The title of the source.
    pub title: String,
    /// Where the title links to.
    pub url: Option<String>,
    /// The picture.
    pub thumbnail: Option<String>,
    /// Duration, date and channel, as far as they are known.
    pub fields: Vec<Field>,
}

/// The names and values of `fields`.
pub open spec fn fields_view(fields: Seq<Field>) -> Seq<(Seq<char>, Seq<char>, bool)> {
    Seq::new(fields.len(), |i: int| (fields[i].name@, fields[i].value@, fields[i].inline))
}

/// The fields that a reply shows for `meta`: duration, date and channel, in
/// this order, each only where it is known, all of them in one row.
pub open spec fn reply_fields(meta: InputMetadata) -> Seq<(Seq<char>, Seq<char>, bool)> {
    let duration = match meta.duration {
        Some(length) => seq![
            ("Duration"@, duration_text(duration_secs(length) as nat), true),
        ],
        None => Seq::empty(),
    };
    let date = match meta.date {
        Some(date) => seq![("Date"@, date@, true)],
        None => Seq::empty(),
    };
    let channel = match meta.channel {
        Some(channel) => seq![("Channel"@, channel@, true)],
        None => Seq::empty(),
    };
    duration + date + channel
}

/// Create a reply based on the metadata of the input.
pub fn play_reply(meta: &InputMetadata) -> (reply: PlayReply)
    ensures
        reply.title@ == (match meta.title {
            Some(title) => title@,
            None => "<MISSING TITLE>"@,
        }),
        reply.url == meta.source_url,
        reply.thumbnail == meta.thumbnail,
        fields_view(reply.fields@) == reply_fields(*meta),
{
    let title = match &meta.title {
        Some(title) => title.clone(),
        None => "<MISSING TITLE>".to_owned(),
    };
    let mut fields: Vec<Field> = Vec::new();
    if let Some(length) = &meta.duration {
        fields.push(
            Field { name: "Duration".to_owned(), value: format_duration(length), inline: true },
        );
    }
    if let Some(date) = &meta.date {
        fields.push(Field { name: "Date".to_owned(), value: date.clone(), inline: true });
    }
    if let Some(channel) = &meta.channel {
        fields.push(Field { name: "Channel".to_owned(), value: channel.clone(), inline: true });
    }
    PlayReply {
        title,
        url: clone_text(&meta.source_url),
        thumbnail: clone_text(&meta.thumbnail),
        fields,
    }
}

/// The reply to a queue command.
#[derive(Debug, PartialEq)]
pub struct QueueReply {
    /// The heading.
    pub title: String,
    /// The listing of the queue.
    pub description: String,
    /// The picture of the track at the front, if it has one.
    pub thumbnail: Option<String>,
}

/// The reply that shows the queue of the guild named `guild`: the listing
/// under the guild's name, with the picture of the track at the front.
pub fn queue(guild: &str, tracks: &QueueMeta) -> (reply: QueueReply)
    ensures
        reply.title@ == guild@ + " Queue"@,
        tracks@.len() == 0 ==> reply.description@ == "Empty queue!"@ && reply.thumbnail is None,
        tracks@.len() > 0 ==> reply.thumbnail == tracks@[0].thumbnail_url && exists|count: int|
            shows(tracks@, count) && reply.description@ == lines_text(tracks@, count),
        tracks@.len() > 0 ==> utf8_len(reply.description@) <= MAX_LISTING_BYTES + 1,
{
    let description = tracks.display_string();
    let thumbnail = match tracks.front() {
        Some(TrackMetadata { thumbnail_url: Some(url), .. }) => Some(url),
        _ => None,
    };
    QueueReply { title: concat2(guild, " Queue"), description, thumbnail }
}

} // verus!
