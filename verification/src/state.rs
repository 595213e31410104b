//! The three playback states and the cadence of the playing one.

use vstd::prelude::*;

verus! {

/// Nanoseconds between two ticks of playback: one second.
pub const TICK_NANOS: u64 = 1_000_000_000;

/// What a [`PlaybackState`] stands for in contracts. Instants are unbounded here.
pub enum PlaybackModel {
    Stopped,
    Paused,
    /// Playing, with the instant at which the next tick falls due once the
    /// cadence is primed.
    Playing(Option<nat>),
}

impl PlaybackModel {
    /// The instant at which the next tick falls due, if playing and primed.
    pub open spec fn anchor(self) -> Option<nat> {
        match self {
            PlaybackModel::Playing(anchor) => anchor,
            _ => None,
        }
    }

    /// Whether a poll at `now` finds a tick due.
    pub open spec fn is_due(self, now: nat) -> bool {
        self matches PlaybackModel::Playing(Some(due)) && now >= due
    }
}

/// Whether the player is stopped, paused or playing.
///
/// Time is counted in nanoseconds on a clock of the caller's choosing. A
/// freshly entered `Playing` carries `None`: the cadence is not primed yet.
/// The first poll primes it with the instant one second later, and each tick
/// moves that instant on by exactly one second. The instant is held in 128
/// bits so that one second past any 64-bit `now` is always exact.
#[derive(Clone, Copy, Debug, PartialEq, Eq)]
pub enum PlaybackState {
    Stopped,
    Paused,
    Playing(Option<u128>),
}

impl View for PlaybackState {
    type V = PlaybackModel;

    open spec fn view(&self) -> PlaybackModel {
        match *self {
            PlaybackState::Stopped => PlaybackModel::Stopped,
            PlaybackState::Paused => PlaybackModel::Paused,
            PlaybackState::Playing(None) => PlaybackModel::Playing(None),
            PlaybackState::Playing(Some(due)) => PlaybackModel::Playing(Some(due as nat)),
        }
    }
}

} // verus!
