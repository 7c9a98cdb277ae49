//! The track descriptor: one playable file with what the player shows of it.

use crate::text::{clock_text, push_decimal, push_two_digits};
use vstd::prelude::*;

verus! {

/// Longest span, in whole seconds, that a duration is shown as.
pub const LONGEST_SHOWN_SECONDS: u64 = 2147483647;

/// What a tag reader found in a file. A field it could not determine is `None`.
pub struct Tags {
    pub title: Option<String>,
    pub artist: Option<String>,
    pub album: Option<String>,
    pub year: Option<i32>,
    /// Length of the recording in milliseconds.
    pub duration: Option<u64>,
}

/// The file's tags could not be read at all.
pub struct MetadataUnavailable {
    pub path: String,
}

/// The mathematical value of a track descriptor.
pub struct TrackModel {
    pub path: Seq<char>,
    pub title: Seq<char>,
    pub artist: Seq<char>,
    pub year: int,
    pub album: Seq<char>,
    /// Length in milliseconds; zero stands for an unknown length.
    pub duration: nat,
}

/// The text of a tag, or `Unknown` where the tag is missing.
pub open spec fn text_or_unknown(text: Option<String>) -> Seq<char> {
    match text {
        Some(t) => t@,
        None => "Unknown"@,
    }
}

/// The descriptor that `tags` give for the file at `path`.
pub open spec fn described(path: Seq<char>, tags: Tags) -> TrackModel {
    TrackModel {
        path,
        title: text_or_unknown(tags.title),
        artist: text_or_unknown(tags.artist),
        year: match tags.year {
            Some(y) => y as int,
            None => 0,
        },
        album: text_or_unknown(tags.album),
        duration: match tags.duration {
            Some(d) => d as nat,
            None => 0,
        },
    }
}

/// Whole seconds of a length in milliseconds, as far as they are shown.
pub open spec fn shown_seconds(millis: nat) -> nat {
    if millis / 1000 <= LONGEST_SHOWN_SECONDS {
        millis / 1000
    } else {
        LONGEST_SHOWN_SECONDS as nat
    }
}

/// One playable file. Immutable once made.
pub struct AudioFile {
    path: String,
    title: String,
    artist: String,
    year: i32,
    album: String,
    duration: u64,
}

impl View for AudioFile {
    type V = TrackModel;

    closed spec fn view(&self) -> TrackModel {
        TrackModel {
            path: self.path@,
            title: self.title@,
            artist: self.artist@,
            year: self.year as int,
            album: self.album@,
            duration: self.duration as nat,
        }
    }
}

impl Clone for AudioFile {
    fn clone(&self) -> (copy: Self)
        ensures
            copy == *self,
    {
        AudioFile {
            path: self.path.clone(),
            title: self.title.clone(),
            artist: self.artist.clone(),
            year: self.year,
            album: self.album.clone(),
            duration: self.duration,
        }
    }
}

fn or_unknown(text: Option<String>) -> (chosen: String)
    ensures
        chosen@ == text_or_unknown(text),
{
    match text {
        Some(t) => t,
        None => String::from_str("Unknown"),
    }
}

impl AudioFile {
    /// Describes the file at `path` from what a tag reader found in it.
    /// `None` stands for a file that could not be opened or parsed.
    pub fn new(path: &String, tags: Option<Tags>) -> (made: Result<AudioFile, MetadataUnavailable>)
        ensures
            tags is None <==> made is Err,
            made matches Err(e) ==> e.path@ == path@,
            made matches Ok(file) ==> file@ == described(path@, tags->0),
    {
        match tags {
            Some(found) => {
                let Tags { title, artist, album, year, duration } = found;
                Ok(
                    AudioFile {
                        path: path.clone(),
                        title: or_unknown(title),
                        artist: or_unknown(artist),
                        year: year.unwrap_or(0),
                        album: or_unknown(album),
                        duration: duration.unwrap_or(0),
                    },
                )
            },
            None => Err(MetadataUnavailable { path: path.clone() }),
        }
    }

    pub fn get_path(&self) -> (path: &String)
        ensures
            path@ == self@.path,
    {
        &self.path
    }

    pub fn get_title(&self) -> (title: &String)
        ensures
            title@ == self@.title,
    {
        &self.title
    }

    pub fn get_album(&self) -> (album: &String)
        ensures
            album@ == self@.album,
    {
        &self.album
    }

    pub fn get_artist(&self) -> (artist: &String)
        ensures
            artist@ == self@.artist,
    {
        &self.artist
    }

    /// Length in milliseconds; zero where it is unknown.
    pub fn get_raw_duration(&self) -> (millis: u64)
        ensures
            millis as nat == self@.duration,
    {
        self.duration
    }

    /// Length as minutes and seconds, `M:SS`.
    pub fn get_duration(&self) -> (text: String)
        ensures
            text@ == clock_text(shown_seconds(self@.duration)),
    {
        let whole: u64 = self.duration / 1000;
        let seconds: u64 = if whole <= LONGEST_SHOWN_SECONDS {
            whole
        } else {
            LONGEST_SHOWN_SECONDS
        };
        let mut text = String::new();
        push_decimal(&mut text, seconds / 60);
        proof {
            reveal_strlit(":");
        }
        text.append(":");
        push_two_digits(&mut text, seconds % 60);
        assert(text@ =~= clock_text(shown_seconds(self@.duration)));
        text
    }

    pub fn get_year(&self) -> (year: i32)
        ensures
            year as int == self@.year,
    {
        self.year
    }
}

} // verus!
