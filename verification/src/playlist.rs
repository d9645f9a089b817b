use vstd::prelude::*;
use rand::Rng;
use crate::metadata::TrackInfo;
use crate::text::{
    chars_of, contains_chars, duration_text, format_dur, lowercased, occurs_in, same_text, to_lowercase,
    to_uppercase, trim, trimmed, uppercased,
};

verus! {

/// How the player picks the track that follows the current one.
#[derive(Clone, Copy, Debug, PartialEq, Eq, Structural)]
pub enum PlayMode {
    Normal,
    Shuffle,
    RepeatOne,
    RepeatAll,
}

impl PlayMode {
    /// The mode that follows `self` in the cycle
    /// Normal -> Shuffle -> RepeatOne -> RepeatAll -> Normal.
    pub open spec fn spec_next(self) -> PlayMode {
        match self {
            PlayMode::Normal => PlayMode::Shuffle,
            PlayMode::Shuffle => PlayMode::RepeatOne,
            PlayMode::RepeatOne => PlayMode::RepeatAll,
            PlayMode::RepeatAll => PlayMode::Normal,
        }
    }

    /// Returns the next play mode in the cycle.
    pub fn next(self) -> (r: PlayMode)
        ensures
            r == self.spec_next(),
    {
        match self {
            PlayMode::Normal => PlayMode::Shuffle,
            PlayMode::Shuffle => PlayMode::RepeatOne,
            PlayMode::RepeatOne => PlayMode::RepeatAll,
            PlayMode::RepeatAll => PlayMode::Normal,
        }
    }
}

/// Cycling through the play modes comes back to the start after exactly
/// four steps, and visits four different modes on the way.
pub proof fn lemma_play_mode_cycle(m: PlayMode)
    ensures
        m.spec_next().spec_next().spec_next().spec_next() == m,
        m.spec_next() != m,
        m.spec_next().spec_next() != m,
        m.spec_next().spec_next().spec_next() != m,
{
}

/// The outcome of a "next" or "previous" request: the track that becomes
/// selected, and the track that is to be played (if any).
#[derive(Clone, Copy, Debug, PartialEq, Eq, Structural)]
pub struct Navigation {
    pub selected: Option<usize>,
    pub play: Option<usize>,
}

/// The outcome that selects `sel` and plays it when `play` is set and a
/// track is selected.
pub open spec fn nav(sel: Option<usize>, play: bool) -> Navigation {
    Navigation { selected: sel, play: if play { sel } else { None } }
}

/// Where "next" leads from `selected` in a list of `len` tracks in mode
/// `mode`; `pick` is the track drawn at random in shuffle mode.
pub open spec fn next_step(mode: PlayMode, selected: Option<usize>, len: nat, pick: usize) -> Navigation {
    if len == 0 {
        nav(selected, false)
    } else {
        match mode {
            PlayMode::Normal => match selected {
                Some(i) => if i + 1 < len {
                    nav(Some((i + 1) as usize), true)
                } else {
                    nav(selected, false)
                },
                None => nav(selected, false),
            },
            PlayMode::Shuffle => nav(Some(pick), true),
            PlayMode::RepeatOne => nav(selected, true),
            PlayMode::RepeatAll => match selected {
                Some(i) => if i + 1 < len {
                    nav(Some((i + 1) as usize), true)
                } else {
                    nav(Some(0), true)
                },
                None => nav(Some(0), true),
            },
        }
    }
}

/// Where "previous" leads from `selected` in a list of `len` tracks in mode
/// `mode`; `pick` is the track drawn at random in shuffle mode.
pub open spec fn prev_step(mode: PlayMode, selected: Option<usize>, len: nat, pick: usize) -> Navigation {
    if len == 0 {
        nav(selected, false)
    } else {
        match mode {
            PlayMode::Normal => match selected {
                Some(i) => if i > 0 {
                    nav(Some((i - 1) as usize), true)
                } else {
                    nav(Some(0), true)
                },
                None => nav(selected, false),
            },
            PlayMode::Shuffle => nav(Some(pick), true),
            PlayMode::RepeatOne => nav(selected, true),
            PlayMode::RepeatAll => match selected {
                Some(i) => if i > 0 {
                    nav(Some((i - 1) as usize), true)
                } else {
                    nav(Some((len - 1) as usize), true)
                },
                None => nav(Some((len - 1) as usize), true),
            },
        }
    }
}

/// Decides what "next" does: in normal mode it moves to the following
/// track and stops at the last one; in shuffle mode it goes to `pick`; in
/// repeat-one mode it replays the selected track; in repeat-all mode it
/// wraps from the last track to the first. Nothing happens in an empty list.
pub fn next_navigation(mode: PlayMode, selected: Option<usize>, len: usize, pick: usize) -> (r: Navigation)
    ensures
        r == next_step(mode, selected, len as nat, pick),
{
    if len == 0 {
        return Navigation { selected, play: None };
    }
    match mode {
        PlayMode::Normal => match selected {
            Some(i) => {
                if i < len - 1 {
                    Navigation { selected: Some(i + 1), play: Some(i + 1) }
                } else {
                    Navigation { selected, play: None }
                }
            },
            None => Navigation { selected, play: None },
        },
        PlayMode::Shuffle => Navigation { selected: Some(pick), play: Some(pick) },
        PlayMode::RepeatOne => Navigation { selected, play: selected },
        PlayMode::RepeatAll => {
            let n = match selected {
                Some(i) => if i < len - 1 {
                    i + 1
                } else {
                    0
                },
                None => 0,
            };
            Navigation { selected: Some(n), play: Some(n) }
        },
    }
}

/// Decides what "previous" does: in normal mode it moves to the preceding
/// track and stays on the first one; in shuffle mode it goes to `pick`; in
/// repeat-one mode it replays the selected track; in repeat-all mode it
/// wraps from the first track to the last. Nothing happens in an empty list.
pub fn prev_navigation(mode: PlayMode, selected: Option<usize>, len: usize, pick: usize) -> (r: Navigation)
    ensures
        r == prev_step(mode, selected, len as nat, pick),
{
    if len == 0 {
        return Navigation { selected, play: None };
    }
    match mode {
        PlayMode::Normal => match selected {
            Some(i) => {
                let p = if i > 0 {
                    i - 1
                } else {
                    0
                };
                Navigation { selected: Some(p), play: Some(p) }
            },
            None => Navigation { selected, play: None },
        },
        PlayMode::Shuffle => Navigation { selected: Some(pick), play: Some(pick) },
        PlayMode::RepeatOne => Navigation { selected, play: selected },
        PlayMode::RepeatAll => {
            let p = match selected {
                Some(i) => if i > 0 {
                    i - 1
                } else {
                    len - 1
                },
                None => len - 1,
            };
            Navigation { selected: Some(p), play: Some(p) }
        },
    }
}

/// A selection that is either empty or names a track of a list of `len`.
pub open spec fn in_range(selected: Option<usize>, len: nat) -> bool {
    match selected {
        Some(i) => i < len,
        None => true,
    }
}

/// Navigation keeps the selection inside the track list: from a selection
/// that lies inside it, and with a random pick that does, "next" and
/// "previous" select and play only tracks of the list.
pub proof fn lemma_navigation_stays_in_range(mode: PlayMode, selected: Option<usize>, len: nat, pick: usize)
    requires
        in_range(selected, len),
        pick < len,
    ensures
        in_range(next_step(mode, selected, len, pick).selected, len),
        in_range(next_step(mode, selected, len, pick).play, len),
        in_range(prev_step(mode, selected, len, pick).selected, len),
        in_range(prev_step(mode, selected, len, pick).play, len),
{
}

/// Navigation only ever plays the track it selects.
pub proof fn lemma_navigation_plays_selection(mode: PlayMode, selected: Option<usize>, len: nat, pick: usize)
    ensures
        next_step(mode, selected, len, pick).play is Some ==> next_step(mode, selected, len, pick).play
            == next_step(mode, selected, len, pick).selected,
        prev_step(mode, selected, len, pick).play is Some ==> prev_step(mode, selected, len, pick).play
            == prev_step(mode, selected, len, pick).selected,
{
}

/// In repeat-all mode "previous" undoes "next" and "next" undoes
/// "previous", for every track of a non-empty list.
pub proof fn lemma_repeat_all_round_trip(i: usize, len: nat, pick: usize)
    requires
        i < len,
        len <= usize::MAX,
    ensures
        prev_step(PlayMode::RepeatAll, next_step(PlayMode::RepeatAll, Some(i), len, pick).selected, len, pick).selected
            == Some(i),
        next_step(PlayMode::RepeatAll, prev_step(PlayMode::RepeatAll, Some(i), len, pick).selected, len, pick).selected
            == Some(i),
{
}

/// In normal mode "previous" undoes "next" wherever "next" moves, and
/// "next" undoes "previous" wherever "previous" moves.
pub proof fn lemma_normal_round_trip(i: usize, len: nat, pick: usize)
    requires
        i < len,
        len <= usize::MAX,
    ensures
        i + 1 < len ==> prev_step(PlayMode::Normal, next_step(PlayMode::Normal, Some(i), len, pick).selected, len, pick).selected
            == Some(i),
        i > 0 ==> next_step(PlayMode::Normal, prev_step(PlayMode::Normal, Some(i), len, pick).selected, len, pick).selected
            == Some(i),
{
}

/// One line of the track list.
pub struct TrackEntry<P> {
    pub path: P,
    pub title: String,
    pub artist: String,
    /// `duration` as `"MM:SS"`.
    pub duration_display: String,
    /// The track's length in nanoseconds.
    pub duration: u128,
    /// The file extension in upper case, `"???"` where there is none.
    pub format: String,
}

/// The format label of a file with extension `ext`.
pub open spec fn format_label(ext: Option<Seq<char>>) -> Seq<char> {
    match ext {
        Some(e) => uppercased(e),
        None => "???"@,
    }
}

impl<P> TrackEntry<P> {
    /// Builds the list entry of the file at `path` from its track
    /// information (`None` where none could be read), its file stem (lossily
    /// decoded, empty where there is none) and its extension (`None` where
    /// there is none or it is not valid UTF-8). Without track information
    /// the title is the stem, the artist is empty and the length is zero.
    pub fn from_scan(path: P, info: Option<TrackInfo>, file_stem: String, extension: Option<String>) -> (r: TrackEntry<P>)
        ensures
            r.path == path,
            r.title@ == match info {
                Some(i) => i.title@,
                None => file_stem@,
            },
            r.artist@ == match info {
                Some(i) => i.artist@,
                None => Seq::<char>::empty(),
            },
            r.duration == match info {
                Some(i) => i.duration,
                None => 0u128,
            },
            r.duration_display@ == duration_text(r.duration as nat),
            r.format@ == format_label(crate::metadata::text_of(extension)),
    {
        let format = match extension {
            Some(e) => to_uppercase(e.as_str()),
            None => String::from_str("???"),
        };
        match info {
            Some(i) => {
                let display = format_dur(i.duration);
                TrackEntry {
                    path,
                    title: i.title,
                    artist: i.artist,
                    duration_display: display,
                    duration: i.duration,
                    format,
                }
            },
            None => TrackEntry {
                path,
                title: file_stem,
                artist: String::new(),
                duration_display: format_dur(0),
                duration: 0,
                format,
            },
        }
    }
}

/// A track is listed for the search text `q` (already trimmed and in lower
/// case) when `q` occurs in its title or its artist, both taken in lower
/// case. The empty search text lists every track.
pub open spec fn listed<P>(t: TrackEntry<P>, q: Seq<char>) -> bool {
    occurs_in(lowercased(t.title@), q) || occurs_in(lowercased(t.artist@), q)
}

/// The search text that the query `query` stands for.
pub open spec fn search_text(query: Seq<char>) -> Seq<char> {
    lowercased(trimmed(query))
}

/// The search looks for the whole query: once trimmed and lower-cased, the
/// query (inner spaces and all) must occur in a track's lower-cased title or
/// lower-cased artist for the track to be listed. A query of several words
/// thus lists only tracks holding those words in that order, as one run.
pub proof fn lemma_search_uses_whole_query<P>(t: TrackEntry<P>, query: Seq<char>)
    ensures
        search_text(query) == lowercased(trimmed(query)),
        listed(t, search_text(query)) <==> (exists|i: int|
            0 <= i && i + lowercased(trimmed(query)).len() <= lowercased(t.title@).len()
                && #[trigger] lowercased(t.title@).subrange(i, i + lowercased(trimmed(query)).len())
                == lowercased(trimmed(query))) || (exists|i: int|
            0 <= i && i + lowercased(trimmed(query)).len() <= lowercased(t.artist@).len()
                && #[trigger] lowercased(t.artist@).subrange(i, i + lowercased(trimmed(query)).len())
                == lowercased(trimmed(query))),
{
}

/// The tracks of the player, the selected one, the play mode and the
/// search text of the track list.
pub struct Playlist<P> {
    pub tracks: Vec<TrackEntry<P>>,
    pub selected_index: Option<usize>,
    pub play_mode: PlayMode,
    pub search_query: String,
}

/// Calls `rand::thread_rng().gen_range(0..len)`, which draws an index below
/// `len` at random (and panics on an empty range, which `requires` rules
/// out). Which index comes out is left unsaid.
#[verifier::external_body]
fn random_index(len: usize) -> (r: usize)
    requires
        len > 0,
    ensures
        r < len,
{
    rand::thread_rng().gen_range(0..len)
}

impl<P> Playlist<P> {
    /// An empty list, nothing selected, normal mode, no search text.
    pub fn new() -> (r: Playlist<P>)
        ensures
            r.tracks@.len() == 0,
            r.selected_index is None,
            r.play_mode == PlayMode::Normal,
            r.search_query@.len() == 0,
    {
        Playlist {
            tracks: Vec::new(),
            selected_index: None,
            play_mode: PlayMode::Normal,
            search_query: String::new(),
        }
    }

    /// The indices of the tracks that the search text lists, in the order
    /// of the track list: all of them for a blank search text, else those
    /// whose title or artist contains the trimmed search text, ignoring case.
    pub fn filtered_indices(&self) -> (r: Vec<usize>)
        ensures
            forall|a: int, b: int| 0 <= a < b < r@.len() ==> r@[a] < r@[b],
            forall|k: int| 0 <= k < r@.len() ==> #[trigger] r@[k] < self.tracks@.len(),
            forall|k: int|
                0 <= k < r@.len() ==> listed(
                    #[trigger] self.tracks@[r@[k] as int],
                    search_text(self.search_query@),
                ),
            forall|t: int|
                0 <= t < self.tracks@.len() && listed(
                    #[trigger] self.tracks@[t],
                    search_text(self.search_query@),
                ) ==> r@.contains(t as usize),
            trimmed(self.search_query@).len() == 0 ==> r@ == Seq::new(
                self.tracks@.len(),
                |k: int| k as usize,
            ),
    {
        let q = to_lowercase(trim(self.search_query.as_str()));
        let qc = chars_of(q.as_str());
        assert(trimmed(self.search_query@).len() == 0 ==> qc@.len() == 0);
        let n = self.tracks.len();
        let mut r: Vec<usize> = Vec::new();
        let mut i: usize = 0;
        while i < n
            invariant
                n == self.tracks@.len(),
                i <= n,
                qc@ == search_text(self.search_query@),
                trimmed(self.search_query@).len() == 0 ==> qc@.len() == 0,
                qc@.len() == 0 ==> r@ == Seq::new(i as nat, |k: int| k as usize),
                forall|a: int, b: int| 0 <= a < b < r@.len() ==> r@[a] < r@[b],
                forall|k: int| 0 <= k < r@.len() ==> #[trigger] r@[k] < i,
                forall|k: int|
                    0 <= k < r@.len() ==> listed(
                        #[trigger] self.tracks@[r@[k] as int],
                        qc@,
                    ),
                forall|t: int|
                    0 <= t < i && listed(#[trigger] self.tracks@[t], qc@) ==> r@.contains(t as usize),
            decreases n - i,
        {
            let hit = if qc.len() == 0 {
                proof {
                    let hay = lowercased(self.tracks@[i as int].title@);
                    assert(hay.subrange(0, 0 + qc@.len() as int) =~= qc@);
                }
                true
            } else {
                let title = chars_of(to_lowercase(self.tracks[i].title.as_str()).as_str());
                assert(title@ == lowercased(self.tracks@[i as int].title@));
                if contains_chars(&title, &qc) {
                    true
                } else {
                    let artist = chars_of(to_lowercase(self.tracks[i].artist.as_str()).as_str());
                    assert(artist@ == lowercased(self.tracks@[i as int].artist@));
                    contains_chars(&artist, &qc)
                }
            };
            assert(hit == listed(self.tracks@[i as int], qc@));
            if hit {
                let ghost old_r = r@;
                r.push(i);
                proof {
                    assert forall|k: int| 0 <= k < r@.len() implies listed(
                        #[trigger] self.tracks@[r@[k] as int],
                        qc@,
                    ) by {
                        if k < old_r.len() {
                            assert(r@[k] == old_r[k]);
                            assert(listed(self.tracks@[old_r[k] as int], qc@));
                        } else {
                            assert(r@[k] == i);
                        }
                    }
                    assert forall|a: int, b: int| 0 <= a < b < r@.len() implies r@[a] < r@[b] by {
                        if b < old_r.len() {
                            assert(r@[a] == old_r[a] && r@[b] == old_r[b]);
                        } else {
                            assert(r@[a] == old_r[a]);
                        }
                    }
                    assert forall|t: int|
                        0 <= t < i + 1 && listed(#[trigger] self.tracks@[t], qc@) implies r@.contains(t as usize) by {
                        if t < i {
                            let k = choose|k: int| 0 <= k < old_r.len() && old_r[k] == t as usize;
                            assert(r@[k] == t as usize);
                        } else {
                            assert(r@[old_r.len() as int] == i);
                        }
                    }
                }
            }
            i = i + 1;
        }
        r
    }

    /// Moves to the next track as the play mode says and returns the track
    /// to play, if any: see `next_navigation`. In shuffle mode the track is
    /// drawn at random from the whole list.
    pub fn play_next(&mut self) -> (r: Option<usize>)
        ensures
            final(self).tracks == old(self).tracks,
            final(self).play_mode == old(self).play_mode,
            final(self).search_query == old(self).search_query,
            exists|pick: usize|
                (old(self).tracks@.len() == 0 || pick < old(self).tracks@.len()) && #[trigger] next_step(
                    old(self).play_mode,
                    old(self).selected_index,
                    old(self).tracks@.len(),
                    pick,
                ) == (Navigation { selected: final(self).selected_index, play: r }),
    {
        let len = self.tracks.len();
        let pick = if len > 0 && self.play_mode == PlayMode::Shuffle {
            random_index(len)
        } else {
            0
        };
        let nav = next_navigation(self.play_mode, self.selected_index, len, pick);
        self.selected_index = nav.selected;
        nav.play
    }

    /// Moves to the previous track as the play mode says and returns the
    /// track to play, if any: see `prev_navigation`. In shuffle mode the
    /// track is drawn at random from the whole list.
    pub fn play_prev(&mut self) -> (r: Option<usize>)
        ensures
            final(self).tracks == old(self).tracks,
            final(self).play_mode == old(self).play_mode,
            final(self).search_query == old(self).search_query,
            exists|pick: usize|
                (old(self).tracks@.len() == 0 || pick < old(self).tracks@.len()) && #[trigger] prev_step(
                    old(self).play_mode,
                    old(self).selected_index,
                    old(self).tracks@.len(),
                    pick,
                ) == (Navigation { selected: final(self).selected_index, play: r }),
    {
        let len = self.tracks.len();
        let pick = if len > 0 && self.play_mode == PlayMode::Shuffle {
            random_index(len)
        } else {
            0
        };
        let nav = prev_navigation(self.play_mode, self.selected_index, len, pick);
        self.selected_index = nav.selected;
        nav.play
    }

    /// Switches to the next play mode.
    pub fn cycle_play_mode(&mut self)
        ensures
            final(self).play_mode == old(self).play_mode.spec_next(),
            final(self).tracks == old(self).tracks,
            final(self).selected_index == old(self).selected_index,
            final(self).search_query == old(self).search_query,
    {
        self.play_mode = self.play_mode.next();
    }
}

/// A colour, as red, green and blue intensities.
#[derive(Clone, Copy, Debug, PartialEq, Eq, Structural)]
pub struct Rgb {
    pub r: u8,
    pub g: u8,
    pub b: u8,
}

/// The colour of the format badge of a file whose extension, in lower
/// case, is `ext`.
pub open spec fn badge_color(ext: Seq<char>) -> Rgb {
    if ext == "mp3"@ {
        Rgb { r: 180, g: 120, b: 60 }
    } else if ext == "flac"@ {
        Rgb { r: 120, g: 180, b: 100 }
    } else if ext == "wav"@ {
        Rgb { r: 100, g: 140, b: 200 }
    } else if ext == "aac"@ || ext == "m4a"@ {
        Rgb { r: 160, g: 100, b: 180 }
    } else {
        Rgb { r: 100, g: 100, b: 120 }
    }
}

/// The colour of the format badge for the lower-case extension `ext`:
/// one each for MP3, FLAC and WAV, one shared by AAC and M4A, and a grey
/// for every other format.
pub fn fmt_color(ext: &str) -> (c: Rgb)
    ensures
        c == badge_color(ext@),
{
    if same_text(ext, "mp3") {
        Rgb { r: 180, g: 120, b: 60 }
    } else if same_text(ext, "flac") {
        Rgb { r: 120, g: 180, b: 100 }
    } else if same_text(ext, "wav") {
        Rgb { r: 100, g: 140, b: 200 }
    } else if same_text(ext, "aac") || same_text(ext, "m4a") {
        Rgb { r: 160, g: 100, b: 180 }
    } else {
        Rgb { r: 100, g: 100, b: 120 }
    }
}

/// The selection after the "up" key: the row above the selected one,
/// staying on the first row; the first row when nothing is selected.
pub open spec fn row_above(selected: Option<usize>) -> Option<usize> {
    match selected {
        Some(i) => Some(if i > 0 { (i - 1) as usize } else { 0 }),
        None => Some(0),
    }
}

/// The selection after the "down" key in a list of `len` tracks: the row
/// below the selected one, staying on the last row; the first row when
/// nothing is selected; no change in an empty list.
pub open spec fn row_below(selected: Option<usize>, len: nat) -> Option<usize> {
    if len == 0 {
        selected
    } else {
        match selected {
            Some(i) => Some(if i + 1 <= len - 1 { (i + 1) as usize } else { (len - 1) as usize }),
            None => Some(0),
        }
    }
}

/// The "down" key never leads past the last track, and the "up" key never
/// above the first; both lead to a track of a non-empty list.
pub proof fn lemma_rows_stay_in_list(selected: Option<usize>, len: nat)
    requires
        len > 0,
        len <= usize::MAX,
    ensures
        row_below(selected, len) matches Some(i) && i < len,
        row_above(selected) matches Some(i) && (in_range(selected, len) ==> i < len),
{
}

impl<P> Playlist<P> {
    /// Moves the selection one row up (the "up" key).
    pub fn select_up(&mut self)
        ensures
            final(self).selected_index == row_above(old(self).selected_index),
            final(self).tracks == old(self).tracks,
            final(self).play_mode == old(self).play_mode,
            final(self).search_query == old(self).search_query,
    {
        self.selected_index = match self.selected_index {
            Some(i) => Some(if i > 0 { i - 1 } else { 0 }),
            None => Some(0),
        };
    }

    /// Moves the selection one row down (the "down" key).
    pub fn select_down(&mut self)
        requires
            old(self).selected_index != Some(usize::MAX),
        ensures
            final(self).selected_index == row_below(old(self).selected_index, old(self).tracks@.len()),
            final(self).tracks == old(self).tracks,
            final(self).play_mode == old(self).play_mode,
            final(self).search_query == old(self).search_query,
    {
        let len = self.tracks.len();
        if len > 0 {
            let last = len - 1;
            self.selected_index = match self.selected_index {
                Some(i) => Some(if i + 1 <= last { i + 1 } else { last }),
                None => Some(0),
            };
        }
    }
}

} // verus!
