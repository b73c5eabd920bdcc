//! The entries of the play queue.
use vstd::prelude::*;

verus! {

/// One audio file in the queue. `duration` is its length in nanoseconds when
/// the decoder could tell it.
pub struct SongItem {
    pub path: String,
    pub title: String,
    pub format: String,
    pub duration: Option<u64>,
}

/// What a queue entry holds, with its strings as character sequences.
pub struct SongModel {
    pub path: Seq<char>,
    pub title: Seq<char>,
    pub format: Seq<char>,
    pub duration: Option<u64>,
}

impl View for SongItem {
    type V = SongModel;

    open spec fn view(&self) -> SongModel {
        SongModel {
            path: self.path@,
            title: self.title@,
            format: self.format@,
            duration: self.duration,
        }
    }
}

/// What `str::to_uppercase` returns for a string: its Unicode upper case.
pub uninterp spec fn uppercase_of(s: Seq<char>) -> Seq<char>;

/// `str::to_uppercase`: the string mapped to upper case by the Unicode rules;
/// its result is a function of the string alone, named `uppercase_of`.
#[verifier::external_body]
fn to_uppercase(s: &str) -> (up: String)
    ensures
        up@ == uppercase_of(s@),
{
    s.to_uppercase()
}

/// The title shown for a file with no name stem.
pub open spec fn unknown_title() -> Seq<char> {
    "Unknown Track"@
}

/// The format shown for a file with no extension.
pub open spec fn unknown_format() -> Seq<char> {
    "AUDIO"@
}

/// The queue entry made from a file's path, the stem and extension of its
/// name (where it has them) and the length its decoder reported.
pub open spec fn song_metadata(
    path: Seq<char>,
    stem: Option<Seq<char>>,
    extension: Option<Seq<char>>,
    duration: Option<u64>,
) -> SongModel {
    SongModel {
        path,
        title: match stem {
            Some(t) => t,
            None => unknown_title(),
        },
        format: match extension {
            Some(e) => uppercase_of(e),
            None => unknown_format(),
        },
        duration,
    }
}

/// A queue entry keeps the file's path and reported length; its title is
/// the name stem, or "Unknown Track" without one; its format is the upper
/// case of the extension, or "AUDIO" without one.
pub proof fn metadata_fields(
    path: Seq<char>,
    stem: Option<Seq<char>>,
    extension: Option<Seq<char>>,
    duration: Option<u64>,
)
    ensures
        song_metadata(path, stem, extension, duration).path == path,
        song_metadata(path, stem, extension, duration).duration == duration,
        stem is Some ==> song_metadata(path, stem, extension, duration).title == stem.unwrap(),
        stem is None ==> song_metadata(path, stem, extension, duration).title == "Unknown Track"@,
        extension is Some ==> song_metadata(path, stem, extension, duration).format == uppercase_of(
            extension.unwrap(),
        ),
        extension is None ==> song_metadata(path, stem, extension, duration).format == "AUDIO"@,
{
}

/// The view of an optional string.
pub open spec fn opt_view(s: Option<String>) -> Option<Seq<char>> {
    match s {
        Some(t) => Some(t@),
        None => None,
    }
}

/// Builds the queue entry of a file: its title is the file's name stem, or
/// "Unknown Track"; its format the upper-cased extension, or "AUDIO".
pub fn load_song_metadata(
    path: String,
    stem: Option<String>,
    extension: Option<String>,
    duration: Option<u64>,
) -> (song: SongItem)
    ensures
        song@ == song_metadata(path@, opt_view(stem), opt_view(extension), duration),
{
    let title = match stem {
        Some(t) => t,
        None => String::from_str("Unknown Track"),
    };
    let format = match extension {
        Some(e) => to_uppercase(e.as_str()),
        None => String::from_str("AUDIO"),
    };
    SongItem { path, title, format, duration }
}

} // verus!
