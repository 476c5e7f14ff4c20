//! Track metadata and the queue that keeps it, with the text that each shows.

use crate::duration::{duration_secs, duration_text, format_duration};
use crate::error::ParakeetError;
use crate::text::{
    byte_len, clone_text, decimal, lemma_line_break_is_one_byte, lemma_utf8_len_adds, push_decimal,
    utf8_len,
};
use core::time::Duration;
use std::collections::VecDeque;
use vstd::prelude::*;
use vstd::string::*;

verus! {

/// The most bytes that a listing may hold before one more entry is refused.
pub const MAX_LISTING_BYTES: usize = 4096;

/// What the media resolver reports of an audio source.
#[derive(Debug, PartialEq)]
pub struct InputMetadata {
    /// Title of the source.
    pub title: Option<String>,
    /// Length of the source.
    pub duration: Option<Duration>,
    /// The uploader's channel name.
    pub channel: Option<String>,
    /// The url to the source's thumbnail.
    pub thumbnail: Option<String>,
    /// Url to the source.
    pub source_url: Option<String>,
    /// The date of upload.
    pub date: Option<String>,
}

/// Metadata for a track in the queue.
#[derive(Debug, PartialEq)]
pub struct TrackMetadata {
    /// Title of the track.
    pub title: Option<String>,
    /// Duration of the track.
    pub duration: Option<Duration>,
    /// The source's channel name.
    pub channel: Option<String>,
    /// The url to the source's thumbnail.
    pub thumbnail_url: Option<String>,
    /// Url to source
    pub url: Option<String>,
}

impl Clone for TrackMetadata {
    fn clone(&self) -> (copy: Self)
        ensures
            copy == *self,
    {
        TrackMetadata {
            title: clone_text(&self.title),
            duration: self.duration,
            channel: clone_text(&self.channel),
            thumbnail_url: clone_text(&self.thumbnail_url),
            url: clone_text(&self.url),
        }
    }
}

impl TrackMetadata {
    /// The metadata that a resolved source gives.
    pub open spec fn of_input(input: InputMetadata) -> TrackMetadata {
        TrackMetadata {
            title: input.title,
            duration: input.duration,
            channel: input.channel,
            thumbnail_url: input.thumbnail,
            url: input.source_url,
        }
    }

    /// Takes the metadata of a track from what the media resolver answered:
    /// its report, or the description of its failure.
    pub fn from_input(fetched: Result<InputMetadata, String>) -> (track: Result<
        TrackMetadata,
        ParakeetError,
    >)
        ensures
            track == (match fetched {
                Ok(input) => Ok::<TrackMetadata, ParakeetError>(TrackMetadata::of_input(input)),
                Err(description) => Err(ParakeetError::MetadataError(description)),
            }),
    {
        match fetched {
            Ok(input) => Ok(
                TrackMetadata {
                    title: input.title,
                    duration: input.duration,
                    channel: input.channel,
                    thumbnail_url: input.thumbnail,
                    url: input.source_url,
                },
            ),
            Err(description) => Err(ParakeetError::MetadataError(description)),
        }
    }

    /// The title, or a stand-in where the track has none.
    pub open spec fn title_text(self) -> Seq<char> {
        match self.title {
            Some(title) => title@,
            None => "<MISSING TITLE>"@,
        }
    }

    /// The duration as text, empty where the track has none.
    pub open spec fn duration_part(self) -> Seq<char> {
        match self.duration {
            Some(length) => duration_text(duration_secs(length) as nat),
            None => Seq::empty(),
        }
    }

    /// Title, duration and channel with one blank between them. A track
    /// without a channel ends after its duration, one without either after
    /// its title.
    pub open spec fn body_text(self) -> Seq<char> {
        match self.channel {
            Some(channel) => self.title_text() + seq![' '] + self.duration_part() + seq![' ']
                + channel@,
            None => if self.duration is Some {
                self.title_text() + seq![' '] + self.duration_part()
            } else {
                self.title_text()
            },
        }
    }

    /// The text of the track: its body, as a link where the source's url is
    /// known.
    pub open spec fn text(self) -> Seq<char> {
        match self.url {
            Some(url) => seq!['['] + self.body_text() + seq![']', '('] + url@ + seq![')'],
            None => self.body_text(),
        }
    }

    /// Appends the body of the track to `buf`.
    fn push_body(&self, buf: &mut String)
        ensures
            final(buf)@ == old(buf)@ + self.body_text(),
    {
        match &self.title {
            Some(title) => buf.append(title.as_str()),
            None => buf.append("<MISSING TITLE>"),
        }
        match &self.channel {
            Some(channel) => {
                buf.push(' ');
                if let Some(length) = &self.duration {
                    let shown = format_duration(length);
                    buf.append(shown.as_str());
                }
                buf.push(' ');
                buf.append(channel.as_str());
            },
            None => {
                if let Some(length) = &self.duration {
                    buf.push(' ');
                    let shown = format_duration(length);
                    buf.append(shown.as_str());
                }
            },
        }
    }

    /// Appends the text of the track to `buf`.
    pub fn push_text(&self, buf: &mut String)
        ensures
            final(buf)@ == old(buf)@ + self.text(),
    {
        match &self.url {
            Some(url) => {
                buf.push('[');
                self.push_body(buf);
                buf.push(']');
                buf.push('(');
                buf.append(url.as_str());
                buf.push(')');
            },
            None => {
                self.push_body(buf);
            },
        }
    }

    /// Renders the track for display.
    pub fn render(&self) -> (text: String)
        ensures
            text@ == self.text(),
    {
        let mut text = String::new();
        self.push_text(&mut text);
        text
    }
}

/// The line of the entry at `position` (counted from one), without its line
/// break.
pub open spec fn entry_line(position: nat, track: TrackMetadata) -> Seq<char> {
    decimal(position) + seq!['.', ' '] + track.text()
}

/// The first `count` entries of `tracks`, one line each.
pub open spec fn lines_text(tracks: Seq<TrackMetadata>, count: int) -> Seq<char>
    decreases count,
{
    if count <= 0 {
        Seq::empty()
    } else {
        lines_text(tracks, count - 1) + entry_line(count as nat, tracks[count - 1]) + seq!['\n']
    }
}

/// Whether the entry at index `index` still fits behind the entries before
/// it: together they take no more than [`MAX_LISTING_BYTES`] bytes, the
/// entry's own line break not counted.
pub open spec fn entry_fits(tracks: Seq<TrackMetadata>, index: int) -> bool {
    utf8_len(lines_text(tracks, index)) + utf8_len(entry_line((index + 1) as nat, tracks[index]))
        <= MAX_LISTING_BYTES
}

/// Whether a listing of `tracks` shows exactly the first `count` entries:
/// each of them fits, and the next one, if there is one, does not.
pub open spec fn shows(tracks: Seq<TrackMetadata>, count: int) -> bool {
    &&& 0 <= count <= tracks.len()
    &&& forall|j: int| 0 <= j < count ==> entry_fits(tracks, j)
    &&& count < tracks.len() ==> !entry_fits(tracks, count)
}

/// A listing shows one number of entries and no other.
pub proof fn lemma_shows_one_count(tracks: Seq<TrackMetadata>, first: int, second: int)
    requires
        shows(tracks, first),
        shows(tracks, second),
    ensures
        first == second,
{
}

/// A listing takes no more bytes than the bound and one line break.
pub proof fn lemma_listing_is_bounded(tracks: Seq<TrackMetadata>, count: int)
    requires
        shows(tracks, count),
    ensures
        utf8_len(lines_text(tracks, count)) <= MAX_LISTING_BYTES + 1,
{
    if count > 0 {
        let before = lines_text(tracks, count - 1);
        let line = entry_line(count as nat, tracks[count - 1]);
        assert(entry_fits(tracks, count - 1));
        lemma_utf8_len_adds(before, line);
        lemma_utf8_len_adds(before + line, seq!['\n']);
        lemma_line_break_is_one_byte();
    }
}

/// Stores track metadata of the queue, the track that plays first.
#[derive(Debug)]
pub struct QueueMeta {
    inner: VecDeque<TrackMetadata>,
}

impl View for QueueMeta {
    type V = Seq<TrackMetadata>;

    closed spec fn view(&self) -> Seq<TrackMetadata> {
        self.inner@
    }
}

impl Default for QueueMeta {
    fn default() -> (queue: Self)
        ensures
            queue@ == Seq::<TrackMetadata>::empty(),
    {
        QueueMeta { inner: VecDeque::new() }
    }
}

impl QueueMeta {
    /// An empty queue.
    pub fn new() -> (queue: Self)
        ensures
            queue@ == Seq::<TrackMetadata>::empty(),
    {
        QueueMeta { inner: VecDeque::new() }
    }

    /// The number of tracks in the queue.
    pub fn len(&self) -> (len: usize)
        ensures
            len == self@.len(),
    {
        self.inner.len()
    }

    /// Whether the queue holds no track.
    pub fn is_empty(&self) -> (empty: bool)
        ensures
            empty == (self@.len() == 0),
    {
        self.inner.len() == 0
    }

    /// Clone the element at the front.
    pub fn front(&self) -> (track: Option<TrackMetadata>)
        ensures
            track == (if self@.len() > 0 {
                Some(self@[0])
            } else {
                None
            }),
    {
        if self.inner.len() > 0 {
            Some(self.inner[0].clone())
        } else {
            None
        }
    }

    /// Pop the front of the queue.
    pub fn pop_front(&mut self) -> (track: Option<TrackMetadata>)
        ensures
            old(self)@.len() == 0 ==> track is None && final(self)@ == old(self)@,
            old(self)@.len() > 0 ==> track == Some(old(self)@[0]) && final(self)@ == old(
                self,
            )@.drop_first(),
    {
        let track = self.inner.pop_front();
        track
    }

    /// Pop the back of the queue.
    pub fn pop_back(&mut self) -> (track: Option<TrackMetadata>)
        ensures
            old(self)@.len() == 0 ==> track is None && final(self)@ == old(self)@,
            old(self)@.len() > 0 ==> track == Some(old(self)@.last()) && final(self)@ == old(
                self,
            )@.drop_last(),
    {
        let track = self.inner.pop_back();
        track
    }

    /// Clear the queue.
    pub fn clear(&mut self)
        ensures
            final(self)@ == Seq::<TrackMetadata>::empty(),
    {
        self.inner.clear();
    }

    /// Add to the front of the queue.
    pub fn push_front(&mut self, meta: TrackMetadata)
        ensures
            final(self)@ == seq![meta] + old(self)@,
    {
        self.inner.push_front(meta);
    }

    /// Add to the back of the queue.
    pub fn push_back(&mut self, meta: TrackMetadata)
        ensures
            final(self)@ == old(self)@.push(meta),
    {
        self.inner.push_back(meta);
    }

    /// The numbered listing of the queue. An empty queue says so. Otherwise
    /// each track gets a line, numbered from one, in the order of play. An
    /// entry is shown while the lines before it and its own line, without
    /// its line break, take no more than [`MAX_LISTING_BYTES`] bytes
    /// together; the first entry of which that does not hold is left out
    /// with all behind it. With the line break of the last entry shown, the
    /// listing can so take one byte more than [`MAX_LISTING_BYTES`], and
    /// never more than that.
    pub fn display_string(&self) -> (text: String)
        ensures
            self@.len() == 0 ==> text@ == "Empty queue!"@,
            self@.len() > 0 ==> exists|count: int|
                shows(self@, count) && text@ == lines_text(self@, count),
            self@.len() > 0 ==> utf8_len(text@) <= MAX_LISTING_BYTES + 1,
    {
        if self.inner.len() == 0 {
            return "Empty queue!".to_owned();
        }
        let mut buffer = String::new();
        let mut index: usize = 0;
        let mut full = false;
        while index < self.inner.len() && !full
            invariant
                0 <= index <= self@.len(),
                self@ == self.inner@,
                buffer@ == lines_text(self@, index as int),
                forall|j: int| 0 <= j < index ==> entry_fits(self@, j),
                full ==> index < self@.len() && !entry_fits(self@, index as int),
            decreases self@.len() - index + (if full { 0int } else { 1int }),
        {
            let mut line = String::new();
            push_decimal(&mut line, (index + 1) as u64);
            line.push('.');
            line.push(' ');
            self.inner[index].push_text(&mut line);
            assert(line@ =~= entry_line((index + 1) as nat, self@[index as int]));
            let used = byte_len(buffer.as_str());
            let needed = byte_len(line.as_str());
            if used > MAX_LISTING_BYTES || needed > MAX_LISTING_BYTES - used {
                full = true;
            } else {
                buffer.append(line.as_str());
                buffer.push('\n');
                index = index + 1;
            }
        }
        proof {
            lemma_listing_is_bounded(self@, index as int);
        }
        buffer
    }
}

} // verus!
