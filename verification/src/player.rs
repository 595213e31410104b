//! The controller: a playlist, a cursor and a playback state.

use vstd::prelude::*;
use crate::model::{lemma_next_index, lemma_previous_index, PlayerModel};
use crate::state::{PlaybackModel, PlaybackState, TICK_NANOS};
use crate::text::decimal_string;
use crate::track::{Track, TrackModel};

verus! {

/// Why a list of titles and durations is no playlist.
#[derive(Clone, Copy, Debug, PartialEq, Eq)]
pub enum InvalidPlaylist {
    /// The list has no entry.
    Empty,
    /// The entry at this index is the first whose duration is 0.
    ZeroDuration(usize),
}

/// The tracks that `entries` describe, each at position 0.
pub open spec fn fresh_tracks(entries: Seq<(&str, u32)>) -> Seq<TrackModel> {
    Seq::new(entries.len(), |i: int| TrackModel::fresh(entries[i].0@, entries[i].1 as nat))
}

/// The models of `tracks`, in order.
pub open spec fn track_models(tracks: Seq<Track>) -> Seq<TrackModel> {
    Seq::new(tracks.len(), |i: int| tracks[i]@)
}

/// Rewinds the track at `index` and leaves the others alone.
fn rewind_at(tracks: &mut Vec<Track>, index: usize)
    requires
        index < old(tracks)@.len(),
    ensures
        track_models(final(tracks)@) == track_models(old(tracks)@).update(
            index as int,
            track_models(old(tracks)@)[index as int].rewound(),
        ),
    no_unwind
{
    tracks[index].rewind();
    assert(track_models(tracks@) =~= track_models(old(tracks)@).update(
        index as int,
        track_models(old(tracks)@)[index as int].rewound(),
    ));
}

/// Moves the track at `index` one second on and leaves the others alone.
fn step_at(tracks: &mut Vec<Track>, index: usize)
    requires
        index < old(tracks)@.len(),
        !track_models(old(tracks)@)[index as int].at_end(),
    ensures
        track_models(final(tracks)@) == track_models(old(tracks)@).update(
            index as int,
            track_models(old(tracks)@)[index as int].stepped(),
        ),
    no_unwind
{
    tracks[index].step();
    assert(track_models(tracks@) =~= track_models(old(tracks)@).update(
        index as int,
        track_models(old(tracks)@)[index as int].stepped(),
    ));
}

/// A playback controller over one playlist.
pub struct Player {
    state: PlaybackState,
    playlist: Vec<Track>,
    current_track: usize,
}

impl View for Player {
    type V = PlayerModel;

    closed spec fn view(&self) -> PlayerModel {
        PlayerModel {
            tracks: track_models(self.playlist@),
            current: self.current_track as nat,
            state: self.state@,
        }
    }
}

impl Player {
    #[verifier::type_invariant]
    pub open spec fn inv(self) -> bool {
        self@.wf()
    }

    /// A stopped player on the first entry of `playlist`, every track at
    /// position 0.
    ///
    /// This is the only place where a playlist is validated: it must have an
    /// entry, and no entry may have a duration of 0.
    pub fn new(playlist: &[(&str, u32)]) -> (result: Result<Player, InvalidPlaylist>)
        ensures
            match result {
                Ok(player) => {
                    &&& playlist@.len() > 0
                    &&& forall|i: int| 0 <= i < playlist@.len() ==> (#[trigger] playlist@[i]).1 > 0
                    &&& player@ == PlayerModel::initial(fresh_tracks(playlist@))
                    &&& player@.wf()
                },
                Err(InvalidPlaylist::Empty) => playlist@.len() == 0,
                Err(InvalidPlaylist::ZeroDuration(at)) => {
                    &&& at < playlist@.len()
                    &&& playlist@[at as int].1 == 0
                    &&& forall|i: int| 0 <= i < at ==> (#[trigger] playlist@[i]).1 > 0
                },
            },
    {
        broadcast use vstd::string::to_string_from_display_ensures_for_str;

        let n = playlist.len();
        if n == 0 {
            return Err(InvalidPlaylist::Empty);
        }
        let mut tracks: Vec<Track> = Vec::new();
        let mut i: usize = 0;
        while i < n
            invariant
                n == playlist@.len(),
                i <= n,
                tracks@.len() == i,
                forall|j: int| 0 <= j < i ==> (#[trigger] playlist@[j]).1 > 0,
                forall|j: int|
                    0 <= j < i ==> (#[trigger] tracks@[j])@ == TrackModel::fresh(
                        playlist@[j].0@,
                        playlist@[j].1 as nat,
                    ),
            decreases n - i,
        {
            let (title, duration) = playlist[i];
            if duration == 0 {
                return Err(InvalidPlaylist::ZeroDuration(i));
            }
            tracks.push(Track::new(title.to_string(), duration));
            i += 1;
        }
        let player = Player { state: PlaybackState::Stopped, playlist: tracks, current_track: 0 };
        assert(player@.tracks =~= fresh_tracks(playlist@));
        Ok(player)
    }

    /// The playback state.
    pub fn state(&self) -> (state: PlaybackState)
        ensures
            state@ == self@.state,
    {
        self.state
    }

    /// Index of the current track.
    pub fn current_index(&self) -> (index: usize)
        ensures
            index == self@.current,
            index < self@.tracks.len(),
    {
        proof {
            use_type_invariant(self);
        }
        self.current_track
    }

    /// The tracks in playlist order, each with its own position.
    pub fn playlist(&self) -> (tracks: &[Track])
        ensures
            track_models(tracks@) == self@.tracks,
    {
        self.playlist.as_slice()
    }

    /// The track under the cursor.
    pub fn current_track(&self) -> (track: &Track)
        ensures
            track@ == self@.current_track(),
    {
        proof {
            use_type_invariant(self);
        }
        &self.playlist[self.current_track]
    }

    /// Duration of the current track, in seconds.
    pub fn current_duration(&self) -> (duration: u32)
        ensures
            duration == self@.duration(),
            duration > 0,
    {
        self.current_track().duration()
    }

    /// Position of the current track, in seconds.
    pub fn current_position(&self) -> (position: u32)
        ensures
            position == self@.position(),
            position <= self@.duration(),
    {
        self.current_track().position()
    }

    /// Whether the position display is live: false only when stopped.
    pub fn is_enabled(&self) -> (enabled: bool)
        ensures
            enabled == self@.is_enabled(),
            enabled <==> !(self@.state is Stopped),
    {
        match self.state {
            PlaybackState::Stopped => false,
            _ => true,
        }
    }

    /// The line that says what the player is doing: that it is stopped, or
    /// the title of the track that is paused or playing.
    pub fn status_title(&self) -> (title: String)
        ensures
            title@ == self@.status_title(),
    {
        match self.state {
            PlaybackState::Stopped => String::from_str("Stopped — press Play"),
            PlaybackState::Paused => {
                let mut title = String::from_str("Paused: ");
                title.append(self.current_track().title());
                title
            },
            PlaybackState::Playing(_) => {
                let mut title = String::from_str("Playing: ");
                title.append(self.current_track().title());
                title
            },
        }
    }

    /// What the play/pause button would do next: "Pause" when playing,
    /// "Play" otherwise.
    pub fn play_pause_button_label(&self) -> (label: &'static str)
        ensures
            label@ == self@.play_pause_button_label(),
    {
        match self.state {
            PlaybackState::Playing(_) => "Pause",
            _ => "Play",
        }
    }

    /// The length of the current track as shown beside its position, such as
    /// "/ 45 sec"; empty when stopped.
    pub fn position_label(&self) -> (label: String)
        ensures
            label@ == self@.position_label(),
            self@.state is Stopped ==> label@.len() == 0,
    {
        match self.state {
            PlaybackState::Stopped => String::new(),
            _ => {
                let mut label = String::from_str("/ ");
                label.append(decimal_string(self.current_duration()).as_str());
                label.append(" sec");
                label
            },
        }
    }

    /// Makes the following track current, going from the last one back to the
    /// first. No position and no playback state changes.
    pub fn next(&mut self)
        ensures
            final(self)@ == old(self)@.next(),
            final(self)@.current == (old(self)@.current + 1) % old(self)@.tracks.len(),
            old(self)@.current + 1 < old(self)@.tracks.len() ==> final(self)@.current == old(
                self,
            )@.current + 1,
            old(self)@.current + 1 == old(self)@.tracks.len() ==> final(self)@.current == 0,
            final(self)@.tracks == old(self)@.tracks,
            final(self)@.state == old(self)@.state,
    {
        proof {
            use_type_invariant(&*self);
            lemma_next_index(self.current_track as nat, self.playlist@.len());
        }
        let len = self.playlist.len();
        self.current_track = (self.current_track + 1) % len;
    }

    /// Makes the preceding track current, going from the first one back to
    /// the last. No position and no playback state changes.
    pub fn previous(&mut self)
        ensures
            final(self)@ == old(self)@.previous(),
            final(self)@.current == (old(self)@.current + old(self)@.tracks.len() - 1) % (old(
                self,
            )@.tracks.len() as int),
            old(self)@.current > 0 ==> final(self)@.current == old(self)@.current - 1,
            old(self)@.current == 0 ==> final(self)@.current == old(self)@.tracks.len() - 1,
            final(self)@.tracks == old(self)@.tracks,
            final(self)@.state == old(self)@.state,
    {
        proof {
            use_type_invariant(&*self);
            lemma_previous_index(self.current_track as nat, self.playlist@.len());
        }
        let len = self.playlist.len();
        self.current_track = if self.current_track == 0 {
            len - 1
        } else {
            self.current_track - 1
        };
    }

    /// Enters `Playing` with an unprimed cadence.
    fn play(&mut self)
        ensures
            final(self)@ == (PlayerModel { state: PlaybackModel::Playing(None), ..old(self)@ }),
    {
        proof {
            use_type_invariant(&*self);
        }
        self.state = PlaybackState::Playing(None);
    }

    /// Enters `Paused`.
    fn pause(&mut self)
        ensures
            final(self)@ == (PlayerModel { state: PlaybackModel::Paused, ..old(self)@ }),
    {
        proof {
            use_type_invariant(&*self);
        }
        self.state = PlaybackState::Paused;
    }

    /// The play/pause button: pauses when playing; otherwise starts playing
    /// with an unprimed cadence. The playlist and the cursor stay as they are.
    pub fn play_pause(&mut self)
        ensures
            final(self)@ == old(self)@.play_pause(),
            old(self)@.state is Playing ==> final(self)@.state is Paused,
            !(old(self)@.state is Playing) ==> final(self)@.state == PlaybackModel::Playing(None),
            final(self)@.tracks == old(self)@.tracks,
            final(self)@.current == old(self)@.current,
    {
        match self.state {
            PlaybackState::Playing(_) => self.pause(),
            _ => self.play(),
        }
    }

    /// The stop button: when stopped, nothing happens; otherwise the current
    /// track goes back to position 0 and the player is stopped. Other tracks
    /// and the cursor stay as they are.
    pub fn stop(&mut self)
        ensures
            final(self)@ == old(self)@.stop(),
            old(self)@.state is Stopped ==> final(self)@ == old(self)@,
            !(old(self)@.state is Stopped) ==> {
                &&& final(self)@.state is Stopped
                &&& final(self)@.position() == 0
                &&& final(self)@.tracks == old(self)@.tracks.update(
                    old(self)@.current as int,
                    old(self)@.current_track().rewound(),
                )
            },
            final(self)@.current == old(self)@.current,
    {
        proof {
            use_type_invariant(&*self);
        }
        match self.state {
            PlaybackState::Stopped => {},
            _ => {
                let index = self.current_track;
                rewind_at(&mut self.playlist, index);
                self.state = PlaybackState::Stopped;
                assert(self@.tracks =~= old(self)@.tracks.update(
                    index as int,
                    old(self)@.current_track().rewound(),
                ));
            },
        }
    }

    /// One second of playback on the current track.
    fn step(&mut self)
        ensures
            final(self)@ == old(self)@.step(),
    {
        proof {
            use_type_invariant(&*self);
        }
        let index = self.current_track;
        if self.playlist[index].at_end() {
            rewind_at(&mut self.playlist, index);
            assert(self@.tracks =~= old(self)@.tracks.update(
                index as int,
                old(self)@.current_track().rewound(),
            ));
            self.next();
        } else {
            step_at(&mut self.playlist, index);
            assert(self@.tracks =~= old(self)@.tracks.update(
                index as int,
                old(self)@.current_track().stepped(),
            ));
        }
    }

    /// Polls the player with the current time `now`, in nanoseconds.
    ///
    /// Unless playing, nothing happens. The first poll after playback starts
    /// only primes the cadence: the anchor is set one second past `now`. A
    /// poll before the anchor does nothing. A poll at or after the anchor
    /// plays exactly one second, however late it comes: the current track
    /// moves one second on, or, at its end, goes back to 0 and hands over to
    /// the following track; the anchor moves on by one second.
    ///
    /// Returns whether a second was played. The caller should then arrange to
    /// poll again in about a second, so that playback goes on while nothing
    /// else makes it poll.
    pub fn advance(&mut self, now: u64) -> (ticked: bool)
        ensures
            final(self)@ == old(self)@.advance(now as nat),
            ticked == old(self)@.is_due(now as nat),
            // Not playing: nothing.
            !(old(self)@.state is Playing) ==> final(self)@ == old(self)@,
            // Unprimed: the anchor is set and nothing else.
            old(self)@.state == PlaybackModel::Playing(None) ==> final(self)@ == (PlayerModel {
                state: PlaybackModel::Playing(Some((now + TICK_NANOS) as nat)),
                ..old(self)@
            }),
            // Before the anchor: nothing.
            old(self)@.state is Playing && !ticked && old(self)@.state.anchor() is Some
                ==> final(self)@ == old(self)@,
            !ticked ==> final(self)@.tracks == old(self)@.tracks && final(self)@.current == old(
                self,
            )@.current,
            // A tick moves the anchor on by one second, whatever `now` is.
            ticked ==> final(self)@.state == PlaybackModel::Playing(
                Some((old(self)@.state.anchor().unwrap() + TICK_NANOS) as nat),
            ),
            // A tick short of the end of the track adds exactly one second.
            ticked && old(self)@.position() < old(self)@.duration() ==> {
                &&& final(self)@.current == old(self)@.current
                &&& final(self)@.position() == old(self)@.position() + 1
                &&& final(self)@.tracks == old(self)@.tracks.update(
                    old(self)@.current as int,
                    old(self)@.current_track().stepped(),
                )
            },
            // A tick at the end of the track rewinds it and moves to the
            // following track, from the last one to the first.
            ticked && old(self)@.position() == old(self)@.duration() ==> {
                &&& final(self)@.current == (old(self)@.current + 1) % old(self)@.tracks.len()
                &&& old(self)@.current + 1 < old(self)@.tracks.len() ==> final(self)@.current
                    == old(self)@.current + 1
                &&& old(self)@.current + 1 == old(self)@.tracks.len() ==> final(self)@.current
                    == 0
                &&& final(self)@.tracks[old(self)@.current as int].position == 0
                &&& final(self)@.tracks == old(self)@.tracks.update(
                    old(self)@.current as int,
                    old(self)@.current_track().rewound(),
                )
            },
    {
        proof {
            use_type_invariant(&*self);
            lemma_next_index(self.current_track as nat, self.playlist@.len());
        }
        match self.state {
            PlaybackState::Playing(None) => {
                self.state = PlaybackState::Playing(Some(now as u128 + TICK_NANOS as u128));
                false
            },
            PlaybackState::Playing(Some(due)) => {
                if (now as u128) < due {
                    false
                } else {
                    self.step();
                    self.state = PlaybackState::Playing(Some(due + TICK_NANOS as u128));
                    true
                }
            },
            _ => false,
        }
    }
}

} // verus!
