use vstd::prelude::*;

verus! {

/// The longest span of time a `std::time::Duration` can hold, in
/// nanoseconds: `u64::MAX` seconds and 999 999 999 nanoseconds.
pub const MAX_DURATION_NANOS: u128 = 18446744073709551615999999999u128;

/// `a + b`, held at the longest duration (as `Duration::saturating_add`).
pub open spec fn saturating_add(a: nat, b: nat) -> nat {
    if a + b <= MAX_DURATION_NANOS {
        a + b
    } else {
        MAX_DURATION_NANOS as nat
    }
}

/// `a - b`, held at zero (as `Duration::saturating_sub`, and as the time
/// elapsed since an instant that lies ahead).
pub open spec fn saturating_sub(a: nat, b: nat) -> nat {
    if a >= b {
        (a - b) as nat
    } else {
        0
    }
}

/// The smaller of two spans.
pub open spec fn min_nat(a: nat, b: nat) -> nat {
    if a <= b {
        a
    } else {
        b
    }
}

/// What the player knows of its playback. Spans and instants are in
/// nanoseconds; instants count from a fixed point of a monotonic clock.
pub struct PlayerView<P> {
    /// The file being played; `None` when the player is stopped (there
    /// is then no audio output either).
    pub current_path: Option<P>,
    /// The length of the current file.
    pub current_duration: nat,
    pub paused: bool,
    /// When playback last started or resumed; `None` while paused or stopped.
    pub play_start: Option<nat>,
    /// The position reached before `play_start`.
    pub elapsed_before_pause: nat,
}

impl<P> PlayerView<P> {
    /// The playback position at instant `now`.
    pub open spec fn position_at(self, now: nat) -> nat {
        match self.play_start {
            Some(start) => self.elapsed_before_pause + saturating_sub(now, start),
            None => self.elapsed_before_pause,
        }
    }

    /// The position at `now` is a span that a `Duration` can hold (adding
    /// the time since the start would overflow otherwise).
    pub open spec fn position_defined(self, now: nat) -> bool {
        self.position_at(now) <= MAX_DURATION_NANOS
    }

    /// Only a loaded file can be paused or be running: pausing, resuming and
    /// seeking leave a stopped player as it is.
    pub open spec fn consistent(self) -> bool {
        &&& self.paused ==> self.current_path is Some
        &&& self.play_start is Some ==> self.current_path is Some
    }

    /// Where seeking forward by `delta` from the position at `now` leads:
    /// that position plus `delta` (held at the longest duration), and not
    /// past the end of the file where its length is known (not zero).
    pub open spec fn forward_target(self, delta: nat, now: nat) -> nat {
        let ahead = saturating_add(self.position_at(now), delta);
        if self.current_duration == 0 {
            ahead
        } else {
            min_nat(ahead, self.current_duration)
        }
    }

    /// What the play/pause control does: pause a file that is playing,
    /// resume a paused one, and otherwise play the selected track.
    pub open spec fn toggle_action_of(self) -> Transport {
        if self.current_path is Some && !self.paused {
            Transport::Pause
        } else if self.paused {
            Transport::Resume
        } else {
            Transport::PlaySelected
        }
    }

    /// The state of a stopped player.
    pub open spec fn stopped() -> PlayerView<P> {
        PlayerView {
            current_path: None,
            current_duration: 0,
            paused: false,
            play_start: None,
            elapsed_before_pause: 0,
        }
    }

    /// The state after starting to play `path` of length `duration` at `now`.
    pub open spec fn started(path: P, duration: nat, now: nat) -> PlayerView<P> {
        PlayerView {
            current_path: Some(path),
            current_duration: duration,
            paused: false,
            play_start: Some(now),
            elapsed_before_pause: 0,
        }
    }

    /// The state after a pause at `now`: nothing changes while stopped.
    pub open spec fn paused_at(self, now: nat) -> PlayerView<P> {
        if self.current_path is Some {
            PlayerView {
                paused: true,
                elapsed_before_pause: self.position_at(now),
                play_start: None,
                ..self
            }
        } else {
            self
        }
    }

    /// The state after resuming at `now`: nothing changes while stopped.
    pub open spec fn resumed_at(self, now: nat) -> PlayerView<P> {
        if self.current_path is Some {
            PlayerView { paused: false, play_start: Some(now), ..self }
        } else {
            self
        }
    }

    /// The state after a seek to `pos` at `now` that the audio output
    /// accepted (`accepted`) or not: only an accepted seek of a loaded file
    /// moves the position.
    pub open spec fn sought_at(self, pos: nat, accepted: bool, now: nat) -> PlayerView<P> {
        if self.current_path is Some && accepted {
            PlayerView { elapsed_before_pause: pos, play_start: Some(now), ..self }
        } else {
            self
        }
    }
}

/// What the play/pause control does.
#[derive(Clone, Copy, Debug, PartialEq, Eq, Structural)]
pub enum Transport {
    Pause,
    Resume,
    PlaySelected,
}

/// The playback bookkeeping of the audio player: which file plays, whether
/// it is paused, and where playback stands. The audio output itself is
/// driven by the caller, which reports the time and the output's answers.
pub struct AudioPlayer<P> {
    current_path: Option<P>,
    current_duration: u128,
    paused: bool,
    play_start: Option<u128>,
    elapsed_before_pause: u128,
}

impl<P> View for AudioPlayer<P> {
    type V = PlayerView<P>;

    closed spec fn view(&self) -> PlayerView<P> {
        PlayerView {
            current_path: self.current_path,
            current_duration: self.current_duration as nat,
            paused: self.paused,
            play_start: match self.play_start {
                Some(s) => Some(s as nat),
                None => None,
            },
            elapsed_before_pause: self.elapsed_before_pause as nat,
        }
    }
}

impl<P> AudioPlayer<P> {
    #[verifier::type_invariant]
    spec fn well_formed(self) -> bool {
        &&& self.current_duration <= MAX_DURATION_NANOS
        &&& self.elapsed_before_pause <= MAX_DURATION_NANOS
        &&& self@.consistent()
    }

    /// A stopped player.
    pub fn new() -> (r: AudioPlayer<P>)
        ensures
            r@ == PlayerView::<P>::stopped(),
    {
        AudioPlayer {
            current_path: None,
            current_duration: 0,
            paused: false,
            play_start: None,
            elapsed_before_pause: 0,
        }
    }

    /// Records that `path` started to play at `now`. Its length is the one
    /// the decoder reports, else `known_duration`, else zero.
    pub fn play(&mut self, path: P, decoded_duration: Option<u128>, known_duration: Option<u128>, now: u128)
        requires
            decoded_duration matches Some(d) ==> d <= MAX_DURATION_NANOS,
            known_duration matches Some(d) ==> d <= MAX_DURATION_NANOS,
        ensures
            final(self)@ == PlayerView::<P>::started(
                path,
                match decoded_duration {
                    Some(d) => d as nat,
                    None => match known_duration {
                        Some(d) => d as nat,
                        None => 0,
                    },
                },
                now as nat,
            ),
    {
        let duration = match decoded_duration {
            Some(d) => d,
            None => match known_duration {
                Some(d) => d,
                None => 0,
            },
        };
        *self = AudioPlayer {
            current_path: Some(path),
            current_duration: duration,
            paused: false,
            play_start: Some(now),
            elapsed_before_pause: 0,
        };
    }

    /// Records a pause at `now`; returns whether a file was loaded (the
    /// audio output is then to be paused).
    pub fn pause(&mut self, now: u128) -> (r: bool)
        requires
            old(self)@.position_defined(now as nat),
        ensures
            r == old(self)@.current_path is Some,
            final(self)@ == old(self)@.paused_at(now as nat),
    {
        proof {
            use_type_invariant(&*self);
        }
        if self.current_path.is_some() {
            let pos = self.position(now);
            self.paused = true;
            self.elapsed_before_pause = pos;
            self.play_start = None;
            true
        } else {
            false
        }
    }

    /// Records that playback resumed at `now`; returns whether a file was
    /// loaded (the audio output is then to be resumed).
    pub fn resume(&mut self, now: u128) -> (r: bool)
        ensures
            r == old(self)@.current_path is Some,
            final(self)@ == old(self)@.resumed_at(now as nat),
    {
        proof {
            use_type_invariant(&*self);
        }
        if self.current_path.is_some() {
            self.paused = false;
            self.play_start = Some(now);
            true
        } else {
            false
        }
    }

    /// Records that playback stopped and the file was unloaded.
    pub fn stop(&mut self)
        ensures
            final(self)@ == PlayerView::<P>::stopped(),
    {
        *self = AudioPlayer {
            current_path: None,
            current_duration: 0,
            paused: false,
            play_start: None,
            elapsed_before_pause: 0,
        };
    }

    /// Records a seek to `pos` at `now`; `accepted` is whether the audio
    /// output carried it out. Only an accepted seek of a loaded file moves
    /// the position.
    pub fn seek(&mut self, pos: u128, accepted: bool, now: u128)
        requires
            pos <= MAX_DURATION_NANOS,
        ensures
            final(self)@ == old(self)@.sought_at(pos as nat, accepted, now as nat),
    {
        proof {
            use_type_invariant(&*self);
        }
        if self.current_path.is_some() && accepted {
            self.elapsed_before_pause = pos;
            self.play_start = Some(now);
        }
    }

    /// Where seeking forward by `delta` from the position at `now` leads:
    /// that position plus `delta` (held at the longest duration), and not
    /// past the end of the current file where its length is known.
    pub fn seek_forward_target(&self, delta: u128, now: u128) -> (r: u128)
        requires
            self@.position_defined(now as nat),
            delta <= MAX_DURATION_NANOS,
        ensures
            r == self@.forward_target(delta as nat, now as nat),
    {
        proof {
            use_type_invariant(self);
        }
        let pos = self.position(now);
        let total = self.current_duration;
        let target = if pos <= MAX_DURATION_NANOS - delta {
            pos + delta
        } else {
            MAX_DURATION_NANOS
        };
        if total == 0 || target <= total {
            target
        } else {
            total
        }
    }

    /// Where seeking backward by `delta` from the position at `now` leads:
    /// that position minus `delta`, held at zero.
    pub fn seek_backward_target(&self, delta: u128, now: u128) -> (r: u128)
        requires
            self@.position_defined(now as nat),
        ensures
            r == saturating_sub(self@.position_at(now as nat), delta as nat),
    {
        let pos = self.position(now);
        if pos >= delta {
            pos - delta
        } else {
            0
        }
    }

    /// The playback position at `now`.
    pub fn position(&self, now: u128) -> (r: u128)
        requires
            self@.position_defined(now as nat),
        ensures
            r == self@.position_at(now as nat),
    {
        match self.play_start {
            Some(start) => {
                let since = if now >= start {
                    now - start
                } else {
                    0
                };
                self.elapsed_before_pause + since
            },
            None => self.elapsed_before_pause,
        }
    }

    /// The playback position at `now`, or `None` where it is longer than
    /// the longest duration (adding the time since the start overflows).
    pub fn try_position(&self, now: u128) -> (r: Option<u128>)
        ensures
            r == (if self@.position_defined(now as nat) {
                Some(self@.position_at(now as nat) as u128)
            } else {
                None::<u128>
            }),
    {
        match self.play_start {
            Some(start) => {
                let since = if now >= start {
                    now - start
                } else {
                    0
                };
                if self.elapsed_before_pause <= MAX_DURATION_NANOS && since <= MAX_DURATION_NANOS
                    - self.elapsed_before_pause {
                    Some(self.elapsed_before_pause + since)
                } else {
                    None
                }
            },
            None => if self.elapsed_before_pause <= MAX_DURATION_NANOS {
                Some(self.elapsed_before_pause)
            } else {
                None
            },
        }
    }

    pub fn is_paused(&self) -> (r: bool)
        ensures
            r == self@.paused,
            self@.consistent(),
    {
        proof {
            use_type_invariant(self);
        }
        self.paused
    }

    pub fn current_path(&self) -> (r: Option<&P>)
        ensures
            r == match self@.current_path {
                Some(p) => Some(&p),
                None => None::<&P>,
            },
    {
        self.current_path.as_ref()
    }

    pub fn current_duration(&self) -> (r: u128)
        ensures
            r == self@.current_duration,
    {
        self.current_duration
    }

    /// What the play/pause control does: pause a file that is playing,
    /// resume a paused one, and otherwise play the selected track.
    pub fn toggle_action(&self) -> (r: Transport)
        ensures
            r == self@.toggle_action_of(),
            self@.consistent(),
    {
        proof {
            use_type_invariant(self);
        }
        if self.current_path.is_some() && !self.paused {
            Transport::Pause
        } else if self.paused {
            Transport::Resume
        } else {
            Transport::PlaySelected
        }
    }

    /// Whether to move on to the next track: the audio output has played
    /// out (`finished`) while a file is loaded.
    pub fn should_advance(&self, finished: bool) -> (r: bool)
        ensures
            r == (finished && self@.current_path is Some),
    {
        finished && self.current_path.is_some()
    }
}

/// A pause freezes the position: after pausing at `now`, the position at
/// every later (or earlier) instant is the one reached at `now`.
pub proof fn lemma_pause_freezes_position<P>(s: PlayerView<P>, now: nat, later: nat)
    requires
        s.current_path is Some,
    ensures
        s.paused_at(now).position_at(later) == s.position_at(now),
        s.paused_at(now).paused,
{
}

/// Resuming continues from where the pause left off: after a pause at `t0`
/// and a resume at `t1`, the position at any `t >= t1` is the position at
/// `t0` plus the time since `t1`.
pub proof fn lemma_resume_continues<P>(s: PlayerView<P>, t0: nat, t1: nat, t: nat)
    requires
        s.current_path is Some,
        t1 <= t,
    ensures
        s.paused_at(t0).resumed_at(t1).position_at(t) == s.position_at(t0) + (t - t1),
        !s.paused_at(t0).resumed_at(t1).paused,
{
}

/// Stopping forgets the file and rewinds: the position is zero at every
/// instant, whatever the state before.
pub proof fn lemma_stop_rewinds<P>(now: nat)
    ensures
        PlayerView::<P>::stopped().position_at(now) == 0,
        PlayerView::<P>::stopped().current_path is None,
        !PlayerView::<P>::stopped().paused,
{
}

/// An accepted seek of a loaded file puts the position where it was asked
/// to go, at the instant of the seek; playback then runs on from there.
pub proof fn lemma_seek_lands<P>(s: PlayerView<P>, pos: nat, now: nat, t: nat)
    requires
        s.current_path is Some,
        now <= t,
    ensures
        s.sought_at(pos, true, now).position_at(now) == pos,
        s.sought_at(pos, true, now).position_at(t) == pos + (t - now),
{
}

/// While a file plays, the position never goes backward as time goes on.
pub proof fn lemma_position_monotone<P>(s: PlayerView<P>, t1: nat, t2: nat)
    requires
        t1 <= t2,
    ensures
        s.position_at(t1) <= s.position_at(t2),
{
}

/// Seeking forward never passes the end of a file of known length, and on
/// a file of unknown length (zero) moves ahead by `delta` (held at the
/// longest duration); seeking backward never passes the current position
/// nor goes below zero.
pub proof fn lemma_seek_targets_bounded<P>(s: PlayerView<P>, delta: nat, now: nat)
    ensures
        s.current_duration > 0 ==> s.forward_target(delta, now) <= s.current_duration,
        0 < s.current_duration <= MAX_DURATION_NANOS && s.position_at(now) + delta <= s.current_duration
            ==> s.forward_target(
            delta,
            now,
        ) == s.position_at(now) + delta,
        s.current_duration == 0 ==> s.forward_target(delta, now) == saturating_add(s.position_at(now), delta),
        saturating_sub(s.position_at(now), delta) <= s.position_at(now),
{
}

/// Every transition keeps the player consistent: only a loaded file is
/// ever paused or running.
pub proof fn lemma_transitions_keep_consistent<P>(s: PlayerView<P>, path: P, d: nat, pos: nat, ok: bool, now: nat)
    requires
        s.consistent(),
    ensures
        PlayerView::<P>::stopped().consistent(),
        PlayerView::<P>::started(path, d, now).consistent(),
        s.paused_at(now).consistent(),
        s.resumed_at(now).consistent(),
        s.sought_at(pos, ok, now).consistent(),
{
}

/// The play/pause control resumes a paused file, and resuming runs the
/// position on from the span recorded at the pause.
pub proof fn lemma_toggle_resumes_paused<P>(s: PlayerView<P>, now: nat, t: nat)
    requires
        s.consistent(),
        s.paused,
        now <= t,
    ensures
        s.toggle_action_of() == Transport::Resume,
        s.current_path is Some,
        !s.resumed_at(now).paused,
        s.resumed_at(now).position_at(t) == s.elapsed_before_pause + (t - now),
{
}

} // verus!
