use synthplayer::metadata::TrackInfo;
use synthplayer::playlist::{
    fmt_color, next_navigation, prev_navigation, Navigation, PlayMode, Playlist, Rgb, TrackEntry,
};

fn entry(title: &str, artist: &str) -> TrackEntry<String> {
    TrackEntry::from_scan(
        format!("/music/{}.mp3", title),
        Some(TrackInfo { title: title.to_string(), artist: artist.to_string(), duration: 0 }),
        title.to_string(),
        Some("mp3".to_string()),
    )
}

fn playlist(n: usize) -> Playlist<String> {
    let mut p = Playlist::new();
    for i in 0..n {
        p.tracks.push(entry(&format!("song{}", i), "someone"));
    }
    p
}

const MODES: [PlayMode; 4] = [PlayMode::Normal, PlayMode::Shuffle, PlayMode::RepeatOne, PlayMode::RepeatAll];

#[test]
fn play_mode_cycles_with_period_four() {
    assert_eq!(PlayMode::Normal.next(), PlayMode::Shuffle);
    assert_eq!(PlayMode::Shuffle.next(), PlayMode::RepeatOne);
    assert_eq!(PlayMode::RepeatOne.next(), PlayMode::RepeatAll);
    assert_eq!(PlayMode::RepeatAll.next(), PlayMode::Normal);
    for m in MODES {
        assert_eq!(m.next().next().next().next(), m);
        assert_ne!(m.next(), m);
    }
}

#[test]
fn next_in_normal_mode_moves_and_stops_at_the_end() {
    assert_eq!(next_navigation(PlayMode::Normal, Some(2), 5, 0), Navigation { selected: Some(3), play: Some(3) });
    assert_eq!(next_navigation(PlayMode::Normal, Some(4), 5, 0), Navigation { selected: Some(4), play: None });
    assert_eq!(next_navigation(PlayMode::Normal, None, 5, 0), Navigation { selected: None, play: None });
}

#[test]
fn next_in_other_modes() {
    assert_eq!(next_navigation(PlayMode::Shuffle, Some(1), 5, 3), Navigation { selected: Some(3), play: Some(3) });
    assert_eq!(next_navigation(PlayMode::RepeatOne, Some(1), 5, 3), Navigation { selected: Some(1), play: Some(1) });
    assert_eq!(next_navigation(PlayMode::RepeatOne, None, 5, 3), Navigation { selected: None, play: None });
    assert_eq!(next_navigation(PlayMode::RepeatAll, Some(4), 5, 3), Navigation { selected: Some(0), play: Some(0) });
    assert_eq!(next_navigation(PlayMode::RepeatAll, Some(2), 5, 3), Navigation { selected: Some(3), play: Some(3) });
    assert_eq!(next_navigation(PlayMode::RepeatAll, None, 5, 3), Navigation { selected: Some(0), play: Some(0) });
}

#[test]
fn navigation_in_an_empty_list_does_nothing() {
    for m in MODES {
        assert_eq!(next_navigation(m, Some(2), 0, 0), Navigation { selected: Some(2), play: None });
        assert_eq!(prev_navigation(m, None, 0, 0), Navigation { selected: None, play: None });
    }
}

#[test]
fn prev_in_each_mode() {
    assert_eq!(prev_navigation(PlayMode::Normal, Some(2), 5, 0), Navigation { selected: Some(1), play: Some(1) });
    assert_eq!(prev_navigation(PlayMode::Normal, Some(0), 5, 0), Navigation { selected: Some(0), play: Some(0) });
    assert_eq!(prev_navigation(PlayMode::Normal, None, 5, 0), Navigation { selected: None, play: None });
    assert_eq!(prev_navigation(PlayMode::Shuffle, Some(0), 5, 4), Navigation { selected: Some(4), play: Some(4) });
    assert_eq!(prev_navigation(PlayMode::RepeatOne, Some(2), 5, 4), Navigation { selected: Some(2), play: Some(2) });
    assert_eq!(prev_navigation(PlayMode::RepeatAll, Some(0), 5, 1), Navigation { selected: Some(4), play: Some(4) });
    assert_eq!(prev_navigation(PlayMode::RepeatAll, None, 5, 1), Navigation { selected: Some(4), play: Some(4) });
    assert_eq!(prev_navigation(PlayMode::RepeatAll, Some(3), 5, 1), Navigation { selected: Some(2), play: Some(2) });
}

#[test]
fn repeat_all_next_and_prev_undo_each_other() {
    for i in 0..5 {
        let n = next_navigation(PlayMode::RepeatAll, Some(i), 5, 0).selected;
        assert_eq!(prev_navigation(PlayMode::RepeatAll, n, 5, 0).selected, Some(i));
        let p = prev_navigation(PlayMode::RepeatAll, Some(i), 5, 0).selected;
        assert_eq!(next_navigation(PlayMode::RepeatAll, p, 5, 0).selected, Some(i));
    }
}

#[test]
fn navigation_stays_in_the_list_and_plays_the_selection() {
    for m in MODES {
        for sel in [None, Some(0), Some(3), Some(6)] {
            for pick in 0..7 {
                for nav in [next_navigation(m, sel, 7, pick), prev_navigation(m, sel, 7, pick)] {
                    if let Some(s) = nav.selected {
                        assert!(s < 7);
                    }
                    if nav.play.is_some() {
                        assert_eq!(nav.play, nav.selected);
                    }
                }
            }
        }
    }
}

#[test]
fn shuffle_draws_a_track_of_the_list() {
    let mut p = playlist(3);
    p.play_mode = PlayMode::Shuffle;
    for _ in 0..100 {
        let r = p.play_next();
        assert!(r.unwrap() < 3);
        assert_eq!(r, p.selected_index);
        let r = p.play_prev();
        assert!(r.unwrap() < 3);
        assert_eq!(r, p.selected_index);
    }
    // A list of one track can only ever give that track.
    let mut one = playlist(1);
    one.play_mode = PlayMode::Shuffle;
    assert_eq!(one.play_next(), Some(0));
}

#[test]
fn playlist_next_and_prev_update_the_selection() {
    let mut p = playlist(3);
    assert_eq!(p.play_next(), None);
    p.selected_index = Some(0);
    assert_eq!(p.play_next(), Some(1));
    assert_eq!(p.play_next(), Some(2));
    assert_eq!(p.play_next(), None);
    assert_eq!(p.selected_index, Some(2));
    assert_eq!(p.play_prev(), Some(1));
    p.cycle_play_mode();
    p.cycle_play_mode();
    p.cycle_play_mode();
    assert_eq!(p.play_mode, PlayMode::RepeatAll);
    assert_eq!(p.play_next(), Some(2));
    assert_eq!(p.play_next(), Some(0));
    assert_eq!(p.play_prev(), Some(2));
}

#[test]
fn blank_search_lists_every_track() {
    let mut p = playlist(4);
    assert_eq!(p.filtered_indices(), vec![0, 1, 2, 3]);
    p.search_query = "   ".to_string();
    assert_eq!(p.filtered_indices(), vec![0, 1, 2, 3]);
    p.search_query = "\t\u{3000} ".to_string();
    assert_eq!(p.filtered_indices(), vec![0, 1, 2, 3]);
}

#[test]
fn search_matches_title_or_artist_ignoring_case_and_spaces() {
    let mut p: Playlist<String> = Playlist::new();
    p.tracks.push(entry("Beat It", "Michael Jackson"));
    p.tracks.push(entry("Billie Jean", "Michael Jackson"));
    p.tracks.push(entry("Heartbeat", "Someone Else"));
    p.tracks.push(entry("Yesterday", "The Beatles"));
    p.search_query = "  BEAT ".to_string();
    assert_eq!(p.filtered_indices(), vec![0, 2, 3]);
    p.search_query = "jackson".to_string();
    assert_eq!(p.filtered_indices(), vec![0, 1]);
    p.search_query = "nothing like this".to_string();
    assert_eq!(p.filtered_indices(), Vec::<usize>::new());
    p.search_query = "ÉTÉ".to_string();
    p.tracks.push(entry("été indien", "Joe Dassin"));
    assert_eq!(p.filtered_indices(), vec![4]);
}

#[test]
fn arrow_keys_move_the_selection_within_the_list() {
    let mut p = playlist(3);
    p.select_up();
    assert_eq!(p.selected_index, Some(0));
    p.select_up();
    assert_eq!(p.selected_index, Some(0));
    p.selected_index = None;
    p.select_down();
    assert_eq!(p.selected_index, Some(0));
    p.select_down();
    p.select_down();
    assert_eq!(p.selected_index, Some(2));
    p.select_down();
    assert_eq!(p.selected_index, Some(2));
    p.select_up();
    assert_eq!(p.selected_index, Some(1));
    let mut empty: Playlist<String> = Playlist::new();
    empty.select_down();
    assert_eq!(empty.selected_index, None);
    empty.select_up();
    assert_eq!(empty.selected_index, Some(0));
}

#[test]
fn format_badges_have_their_colours() {
    assert_eq!(fmt_color("mp3"), Rgb { r: 180, g: 120, b: 60 });
    assert_eq!(fmt_color("flac"), Rgb { r: 120, g: 180, b: 100 });
    assert_eq!(fmt_color("wav"), Rgb { r: 100, g: 140, b: 200 });
    assert_eq!(fmt_color("aac"), Rgb { r: 160, g: 100, b: 180 });
    assert_eq!(fmt_color("m4a"), Rgb { r: 160, g: 100, b: 180 });
    assert_eq!(fmt_color("ogg"), Rgb { r: 100, g: 100, b: 120 });
    assert_eq!(fmt_color("MP3"), Rgb { r: 100, g: 100, b: 120 });
    assert_eq!(fmt_color(""), Rgb { r: 100, g: 100, b: 120 });
}

#[test]
fn track_entries_from_a_scan() {
    let e = TrackEntry::from_scan(
        "a/b.flac".to_string(),
        Some(TrackInfo { title: "T".to_string(), artist: "A".to_string(), duration: 125_400_000_000 }),
        "b".to_string(),
        Some("flac".to_string()),
    );
    assert_eq!(e.title, "T");
    assert_eq!(e.artist, "A");
    assert_eq!(e.duration, 125_400_000_000);
    assert_eq!(e.duration_display, "02:05");
    assert_eq!(e.format, "FLAC");
    assert_eq!(e.path, "a/b.flac");

    let e = TrackEntry::from_scan("a/noext".to_string(), None, "noext".to_string(), None);
    assert_eq!(e.title, "noext");
    assert_eq!(e.artist, "");
    assert_eq!(e.duration, 0);
    assert_eq!(e.duration_display, "00:00");
    assert_eq!(e.format, "???");
}
