//! One entry of a playlist.

use vstd::prelude::*;

verus! {

/// What a [`Track`] stands for in contracts: its title and two counts of seconds.
pub struct TrackModel {
    pub title: Seq<char>,
    pub duration: nat,
    pub position: nat,
}

impl TrackModel {
    /// A track lasts at least one second and its position never passes its end.
    pub open spec fn wf(self) -> bool {
        0 < self.duration && self.position <= self.duration
    }

    /// A track that has not been played yet.
    pub open spec fn fresh(title: Seq<char>, duration: nat) -> TrackModel {
        TrackModel { title, duration, position: 0 }
    }

    /// The same track, back at its start.
    pub open spec fn rewound(self) -> TrackModel {
        TrackModel { position: 0, ..self }
    }

    /// The same track, one second further on.
    pub open spec fn stepped(self) -> TrackModel {
        TrackModel { position: self.position + 1, ..self }
    }

    /// Whether the position has reached the end, so that one more second would pass it.
    pub open spec fn at_end(self) -> bool {
        self.position + 1 > self.duration
    }
}

/// A titled track with its length and its own playback position, both in seconds.
///
/// The position belongs to the track, not to the player: it stays where it is
/// while another track is current.
pub struct Track {
    title: String,
    duration: u32,
    position: u32,
}

impl View for Track {
    type V = TrackModel;

    closed spec fn view(&self) -> TrackModel {
        TrackModel {
            title: self.title@,
            duration: self.duration as nat,
            position: self.position as nat,
        }
    }
}

impl Track {
    #[verifier::type_invariant]
    pub open spec fn inv(self) -> bool {
        self@.wf()
    }

    /// A track at position 0.
    pub(crate) fn new(title: String, duration: u32) -> (track: Track)
        requires
            duration > 0,
        ensures
            track@ == TrackModel::fresh(title@, duration as nat),
    {
        Track { title, duration, position: 0 }
    }

    /// Puts the position back to 0.
    pub(crate) fn rewind(&mut self)
        ensures
            final(self)@ == old(self)@.rewound(),
        no_unwind
    {
        proof {
            use_type_invariant(&*self);
        }
        self.position = 0;
    }

    /// Moves the position one second on.
    pub(crate) fn step(&mut self)
        requires
            !old(self)@.at_end(),
        ensures
            final(self)@ == old(self)@.stepped(),
        no_unwind
    {
        proof {
            use_type_invariant(&*self);
        }
        self.position = self.position + 1;
    }

    pub fn title(&self) -> (title: &str)
        ensures
            title@ == self@.title,
    {
        self.title.as_str()
    }

    /// Length in seconds; never 0.
    pub fn duration(&self) -> (duration: u32)
        ensures
            duration == self@.duration,
            duration > 0,
    {
        proof {
            use_type_invariant(self);
        }
        self.duration
    }

    /// Seconds played so far; never more than the duration.
    pub fn position(&self) -> (position: u32)
        ensures
            position == self@.position,
            position <= self@.duration,
    {
        proof {
            use_type_invariant(self);
        }
        self.position
    }

    /// Whether one more second would pass the end of the track.
    pub fn at_end(&self) -> (at_end: bool)
        ensures
            at_end == self@.at_end(),
    {
        proof {
            use_type_invariant(self);
        }
        self.position >= self.duration
    }
}

} // verus!
