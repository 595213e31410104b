//! The controller as a mathematical value, and its transitions as functions.

use vstd::prelude::*;
use vstd::arithmetic::div_mod::{
    lemma_mod_add_multiples_vanish,
    lemma_mod_self_0,
    lemma_small_mod,
};
use crate::state::{PlaybackModel, TICK_NANOS};
use crate::text::decimal;
use crate::track::TrackModel;

verus! {

/// What a `Player` stands for in contracts: the tracks in order, the index of
/// the current one, and the playback state.
pub struct PlayerModel {
    pub tracks: Seq<TrackModel>,
    pub current: nat,
    pub state: PlaybackModel,
}

impl PlayerModel {
    /// The playlist is not empty, the cursor points into it, and every track
    /// is well formed.
    pub open spec fn wf(self) -> bool {
        &&& self.tracks.len() > 0
        &&& self.current < self.tracks.len()
        &&& forall|i: int| 0 <= i < self.tracks.len() ==> (#[trigger] self.tracks[i]).wf()
    }

    /// A stopped player on the first of `tracks`.
    pub open spec fn initial(tracks: Seq<TrackModel>) -> PlayerModel {
        PlayerModel { tracks, current: 0, state: PlaybackModel::Stopped }
    }

    pub open spec fn current_track(self) -> TrackModel {
        self.tracks[self.current as int]
    }

    /// Position of the current track.
    pub open spec fn position(self) -> nat {
        self.current_track().position
    }

    /// Duration of the current track.
    pub open spec fn duration(self) -> nat {
        self.current_track().duration
    }

    /// The same player with `track` in place of the current track.
    pub open spec fn with_current_track(self, track: TrackModel) -> PlayerModel {
        PlayerModel { tracks: self.tracks.update(self.current as int, track), ..self }
    }

    /// Moves the cursor to the following track, from the last one to the first.
    /// Positions and playback state stay as they are.
    pub open spec fn next(self) -> PlayerModel {
        PlayerModel { current: (self.current + 1) % self.tracks.len(), ..self }
    }

    /// Moves the cursor to the preceding track, from the first one to the last.
    /// Positions and playback state stay as they are.
    pub open spec fn previous(self) -> PlayerModel {
        PlayerModel {
            current: ((self.current + self.tracks.len() - 1) % (self.tracks.len() as int)) as nat,
            ..self
        }
    }

    /// Playing becomes paused; stopped and paused become playing with an
    /// unprimed cadence.
    pub open spec fn play_pause(self) -> PlayerModel {
        match self.state {
            PlaybackModel::Playing(_) => PlayerModel { state: PlaybackModel::Paused, ..self },
            _ => PlayerModel { state: PlaybackModel::Playing(None), ..self },
        }
    }

    /// Nothing when stopped; otherwise the current track is rewound and the
    /// player is stopped.
    pub open spec fn stop(self) -> PlayerModel {
        match self.state {
            PlaybackModel::Stopped => self,
            _ => PlayerModel {
                state: PlaybackModel::Stopped,
                ..self.with_current_track(self.current_track().rewound())
            },
        }
    }

    /// One second of playback: the current track moves one second on, or, at
    /// its end, is rewound and gives way to the following track.
    pub open spec fn step(self) -> PlayerModel {
        if self.current_track().at_end() {
            self.with_current_track(self.current_track().rewound()).next()
        } else {
            self.with_current_track(self.current_track().stepped())
        }
    }

    /// Whether a poll at `now` finds a tick due.
    pub open spec fn is_due(self, now: nat) -> bool {
        self.state.is_due(now)
    }

    /// A poll at `now`. Unless playing, nothing. With an unprimed cadence, the
    /// anchor is set one second past `now` and nothing else changes. Before
    /// the anchor, nothing. From the anchor on, one `step` and the anchor
    /// moves on by one second, however late the poll is.
    pub open spec fn advance(self, now: nat) -> PlayerModel {
        match self.state {
            PlaybackModel::Playing(None) => PlayerModel {
                state: PlaybackModel::Playing(Some(now + TICK_NANOS as nat)),
                ..self
            },
            PlaybackModel::Playing(Some(due)) => if now < due {
                self
            } else {
                PlayerModel {
                    state: PlaybackModel::Playing(Some(due + TICK_NANOS as nat)),
                    ..self.step()
                }
            },
            _ => self,
        }
    }

    /// False only when stopped.
    pub open spec fn is_enabled(self) -> bool {
        !(self.state is Stopped)
    }

    /// The line that says what the player is doing.
    pub open spec fn status_title(self) -> Seq<char> {
        match self.state {
            PlaybackModel::Stopped => "Stopped — press Play"@,
            PlaybackModel::Paused => "Paused: "@ + self.current_track().title,
            PlaybackModel::Playing(_) => "Playing: "@ + self.current_track().title,
        }
    }

    /// What the play/pause button would do next.
    pub open spec fn play_pause_button_label(self) -> Seq<char> {
        if self.state is Playing {
            "Pause"@
        } else {
            "Play"@
        }
    }

    /// The length of the current track as shown beside its position; empty
    /// when stopped.
    pub open spec fn position_label(self) -> Seq<char> {
        if self.state is Stopped {
            Seq::empty()
        } else {
            "/ "@ + decimal(self.duration()) + " sec"@
        }
    }
}

/// The index after `current` on a round of `len` places is the following one,
/// or 0 after the last.
pub proof fn lemma_next_index(current: nat, len: nat)
    requires
        current < len,
    ensures
        current + 1 < len ==> (current + 1) % len == current + 1,
        current + 1 == len ==> (current + 1) % len == 0,
        (current + 1) % len < len,
{
    if current + 1 < len {
        lemma_small_mod(current + 1, len);
    } else {
        lemma_mod_self_0(len as int);
    }
}

/// The index before `current` on a round of `len` places is the preceding
/// one, or the last before 0.
pub proof fn lemma_previous_index(current: nat, len: nat)
    requires
        current < len,
    ensures
        current > 0 ==> (current + len - 1) % (len as int) == current - 1,
        current == 0 ==> (current + len - 1) % (len as int) == len - 1,
        0 <= (current + len - 1) % (len as int) < len,
{
    if current > 0 {
        lemma_mod_add_multiples_vanish(current - 1, len as int);
        lemma_small_mod((current - 1) as nat, len);
    } else {
        lemma_small_mod((len - 1) as nat, len);
    }
}

} // verus!
