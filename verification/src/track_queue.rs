//! The listing of a playback queue by the title and the address of each
//! track.

use crate::text::{decimal, push_decimal};
use vstd::prelude::*;
use vstd::string::*;

verus! {

/// What the listing shows of one track.
#[derive(Clone, Debug, PartialEq)]
pub struct Track {
    /// Title of the track.
    pub title: Option<String>,
    /// Url to the source.
    pub url: Option<String>,
}

impl Track {
    /// Whether title and address are both known.
    pub open spec fn complete(self) -> bool {
        self.title is Some && self.url is Some
    }

    /// The text of the track: its title as a link to its address.
    pub open spec fn text(self) -> Seq<char>
        recommends
            self.complete(),
    {
        seq!['['] + self.title->0@ + seq![']', '('] + self.url->0@ + seq!['\'', ')']
    }

    /// Appends the text of the track to `buf`.
    pub fn push_text(&self, buf: &mut String)
        requires
            self.complete(),
        ensures
            final(buf)@ == old(buf)@ + self.text(),
    {
        buf.push('[');
        if let Some(title) = &self.title {
            buf.append(title.as_str());
        }
        buf.push(']');
        buf.push('(');
        if let Some(url) = &self.url {
            buf.append(url.as_str());
        }
        buf.push('\'');
        buf.push(')');
    }

    /// Renders the track. Title and address have to be known.
    pub fn render(&self) -> (text: String)
        requires
            self.complete(),
        ensures
            text@ == self.text(),
    {
        let mut text = String::new();
        self.push_text(&mut text);
        text
    }
}

/// The tracks of a playback queue, the current one first.
#[derive(Clone, Debug, PartialEq)]
pub struct Queue(pub Vec<Track>);

/// The listing of the first `count` of `tracks`: a line for each, numbered
/// from one.
pub open spec fn queue_text(tracks: Seq<Track>, count: int) -> Seq<char>
    decreases count,
{
    if count <= 0 {
        Seq::empty()
    } else {
        queue_text(tracks, count - 1) + seq!['`'] + decimal(count as nat) + seq!['.', '`', ' ']
            + tracks[count - 1].text() + seq!['\n']
    }
}

impl Queue {
    /// Whether title and address of every track are known.
    pub open spec fn complete(self) -> bool {
        forall|i: int| 0 <= i < self.0@.len() ==> (#[trigger] self.0@[i]).complete()
    }

    /// Renders the queue, one numbered line for each track. Title and
    /// address of every track have to be known.
    pub fn render(&self) -> (text: String)
        requires
            self.complete(),
        ensures
            text@ == queue_text(self.0@, self.0@.len() as int),
    {
        let mut text = String::new();
        let mut index: usize = 0;
        while index < self.0.len()
            invariant
                0 <= index <= self.0@.len(),
                self.complete(),
                text@ == queue_text(self.0@, index as int),
            decreases self.0@.len() - index,
        {
            text.push('`');
            push_decimal(&mut text, (index + 1) as u64);
            text.push('.');
            text.push('`');
            text.push(' ');
            self.0[index].push_text(&mut text);
            text.push('\n');
            index = index + 1;
        }
        text
    }
}

} // verus!
