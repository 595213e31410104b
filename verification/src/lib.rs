//! Playback controller for a single playlist.
//!
//! A [`Player`] owns an ordered, non-empty list of [`Track`]s, a cursor into
//! it and a [`PlaybackState`]. A user interface polls [`Player::advance`] with
//! the current time once per redraw, reads the accessors to paint itself and
//! forwards button presses to [`Player::play_pause`], [`Player::stop`],
//! [`Player::next`] and [`Player::previous`]. No call can fail or panic: in
//! every state every operation either acts or does nothing.
//!
//! Time is a count of nanoseconds on a clock of the caller's choosing. While
//! playing, the player moves the current track on by one second per poll that
//! finds a second elapsed, and at the end of a track goes on to the following
//! one, from the last track back to the first.
//!
//! The contract of every executable function says what it does to
//! [`PlayerModel`], a purely mathematical description of the controller. The
//! module `laws` proves the properties of that model that callers rely on.

pub mod track;
pub mod state;
pub mod text;
pub mod model;
pub mod player;
pub mod laws;

pub use crate::model::PlayerModel;
pub use crate::player::{InvalidPlaylist, Player};
pub use crate::state::{PlaybackState, TICK_NANOS};
pub use crate::track::Track;
