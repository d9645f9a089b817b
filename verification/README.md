# synthplayer

The logic of a small local music player, verified with Verus.

- `src/playlist.rs`: play modes, "next"/"previous" navigation in each mode,
  the track list entries, the search filter, the arrow-key selection and the
  format badge colours.
- `src/player.rs`: the playback bookkeeping of the audio player (position,
  pause and resume, seeking, stopping) as a state that the audio output
  driver feeds with the time and the output's answers.
- `src/analyzer.rs`: the rolling sample window of the spectrum analyzer and
  the FFT window size.
- `src/metadata.rs`: track information from a file's tags and name.
- `src/scanner.rs`: which file extensions count as music.
- `src/shortcuts.rs`: the keyboard shortcuts.
- `src/text.rs`: durations as `MM:SS`, status lines, trimming, text search
  helpers.

`app/` holds the desktop program around the library: the egui window, audio
output through rodio, tag reading through lofty, the FFT through rustfft and
the directory walk through walkdir.
