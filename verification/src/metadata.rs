use vstd::prelude::*;

verus! {

/// What the track list shows of an audio file: its title, its artist and
/// its length in nanoseconds.
#[derive(Debug)]
pub struct TrackInfo {
    pub title: String,
    pub artist: String,
    pub duration: u128,
}

/// The characters of an optional string.
pub open spec fn text_of(s: Option<String>) -> Option<Seq<char>> {
    match s {
        Some(t) => Some(t@),
        None => None,
    }
}

/// The title a track is shown under: the tag's title when it has one that
/// is not empty, else the file's stem; none when neither is at hand.
pub open spec fn shown_title(tag_title: Option<Seq<char>>, file_stem: Option<Seq<char>>) -> Option<Seq<char>> {
    match tag_title {
        Some(t) if t.len() > 0 => Some(t),
        _ => file_stem,
    }
}

/// Combines what was read from a file's tags with its file name.
///
/// `tag_title` and `tag_artist` are the title and artist of the file's
/// primary tag (or of its first tag), `None` where there is no such tag or
/// field; `duration` is the length the file's properties give; `file_stem`
/// is the file name without its extension, `None` where the path has none
/// or it is not valid UTF-8. A missing title or artist reads as empty; an
/// empty title is replaced by the file stem, and without a stem there is no
/// track information at all.
pub fn track_info_from_tags(
    tag_title: Option<String>,
    tag_artist: Option<String>,
    duration: u128,
    file_stem: Option<String>,
) -> (r: Option<TrackInfo>)
    ensures
        r is Some <==> shown_title(
            text_of(tag_title),
            text_of(file_stem),
        ) is Some,
        r matches Some(info) ==> {
            &&& Some(info.title@) == shown_title(
                text_of(tag_title),
                text_of(file_stem),
            )
            &&& info.artist@ == match tag_artist {
                Some(a) => a@,
                None => Seq::<char>::empty(),
            }
            &&& info.duration == duration
        },
{
    let title = match tag_title {
        Some(t) => t,
        None => String::new(),
    };
    let artist = match tag_artist {
        Some(a) => a,
        None => String::new(),
    };
    if title.as_str().is_empty() {
        match file_stem {
            Some(stem) => Some(TrackInfo { title: stem, artist, duration }),
            None => None,
        }
    } else {
        Some(TrackInfo { title, artist, duration })
    }
}

} // verus!
