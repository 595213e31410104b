//! Properties of the controller, proved of its model.
//!
//! Every executable function of `Player` ensures that the player's view
//! afterwards is the matching function of `PlayerModel` applied to its view
//! before, so what is proved here of the model holds of every player.

use vstd::prelude::*;
use vstd::arithmetic::div_mod::{
    lemma_add_mod_noop_right,
    lemma_mod_add_multiples_vanish,
    lemma_small_mod,
};
use crate::model::{lemma_next_index, lemma_previous_index, PlayerModel};
use crate::state::{PlaybackModel, TICK_NANOS};

verus! {

/// One call on a player.
pub enum Operation {
    PlayPause,
    Stop,
    Next,
    Previous,
    /// A poll at the given instant.
    Advance(nat),
}

impl PlayerModel {
    /// The player after `op`.
    pub open spec fn apply(self, op: Operation) -> PlayerModel {
        match op {
            Operation::PlayPause => self.play_pause(),
            Operation::Stop => self.stop(),
            Operation::Next => self.next(),
            Operation::Previous => self.previous(),
            Operation::Advance(now) => self.advance(now),
        }
    }

    /// The player after `ops`, applied in order.
    pub open spec fn run(self, ops: Seq<Operation>) -> PlayerModel
        decreases ops.len(),
    {
        if ops.len() == 0 {
            self
        } else {
            self.run(ops.drop_last()).apply(ops.last())
        }
    }

    /// The player after `n` calls of `next`.
    pub open spec fn next_times(self, n: nat) -> PlayerModel
        decreases n,
    {
        if n == 0 {
            self
        } else {
            self.next_times((n - 1) as nat).next()
        }
    }
}

/// `n` calls of `next` move the cursor `n` places round the playlist and
/// change nothing else.
pub proof fn lemma_next_times(player: PlayerModel, n: nat)
    requires
        player.wf(),
    ensures
        player.next_times(n) == (PlayerModel {
            current: (player.current + n) % player.tracks.len(),
            ..player
        }),
    decreases n,
{
    let len = player.tracks.len() as int;
    if n == 0 {
        lemma_small_mod(player.current, len as nat);
    } else {
        lemma_next_times(player, (n - 1) as nat);
        lemma_add_mod_noop_right(1, player.current + n - 1, len);
    }
}

/// On a playlist of N tracks, N calls of `next` bring the player back to
/// where it was.
pub proof fn lemma_next_cycles(player: PlayerModel)
    requires
        player.wf(),
    ensures
        player.next_times(player.tracks.len()) == player,
        player.next_times(player.tracks.len()).current == player.current,
{
    let len = player.tracks.len();
    lemma_next_times(player, len);
    lemma_mod_add_multiples_vanish(player.current as int, len as int);
    lemma_small_mod(player.current, len);
}

/// `previous` undoes `next`, and `next` undoes `previous`.
pub proof fn lemma_previous_inverts_next(player: PlayerModel)
    requires
        player.wf(),
    ensures
        player.next().previous() == player,
        player.previous().next() == player,
{
    let len = player.tracks.len();
    lemma_next_index(player.current, len);
    lemma_previous_index(player.next().current, len);
    lemma_previous_index(player.current, len);
    lemma_next_index(player.previous().current, len);
}

/// No operation breaks the player: afterwards the playlist still has the same
/// number of tracks with the same titles and durations, the cursor points into
/// it, and no track's position is past its duration.
pub proof fn lemma_apply_preserves_wf(player: PlayerModel, op: Operation)
    requires
        player.wf(),
    ensures
        player.apply(op).wf(),
        player.apply(op).tracks.len() == player.tracks.len(),
        forall|i: int|
            0 <= i < player.tracks.len() ==> {
                &&& (#[trigger] player.apply(op).tracks[i]).title == player.tracks[i].title
                &&& player.apply(op).tracks[i].duration == player.tracks[i].duration
            },
{
}

/// Whatever was called on a player, and in whatever order, the position of
/// every track, the current one among them, lies between 0 and that track's
/// duration.
pub proof fn lemma_position_stays_in_range(player: PlayerModel, ops: Seq<Operation>)
    requires
        player.wf(),
    ensures
        player.run(ops).wf(),
        0 <= player.run(ops).position() <= player.run(ops).duration(),
        forall|i: int|
            0 <= i < player.run(ops).tracks.len() ==> 0 <= (#[trigger] player.run(
                ops,
            ).tracks[i]).position <= player.run(ops).tracks[i].duration,
    decreases ops.len(),
{
    if ops.len() > 0 {
        lemma_position_stays_in_range(player, ops.drop_last());
        lemma_apply_preserves_wf(player.run(ops.drop_last()), ops.last());
    }
}

/// From stopped, the play/pause button starts playback with an unprimed
/// cadence, and the first poll after it does nothing but prime the cadence
/// one second past the time of the poll: no second is played.
pub proof fn lemma_first_poll_only_primes(player: PlayerModel, now: nat)
    requires
        player.wf(),
        player.state is Stopped,
    ensures
        player.play_pause() == (PlayerModel { state: PlaybackModel::Playing(None), ..player }),
        !player.play_pause().is_due(now),
        player.play_pause().advance(now) == (PlayerModel {
            state: PlaybackModel::Playing(Some(now + TICK_NANOS as nat)),
            ..player
        }),
{
}

/// A poll that finds a tick due, on a track that has not reached its end,
/// adds exactly one second to the position of that track and leaves the cursor
/// and the other tracks alone, however long after the anchor it comes.
pub proof fn lemma_due_poll_adds_one_second(player: PlayerModel, now: nat)
    requires
        player.wf(),
        player.is_due(now),
        player.position() < player.duration(),
    ensures
        player.advance(now).position() == player.position() + 1,
        player.advance(now).current == player.current,
        player.advance(now).tracks == player.tracks.update(
            player.current as int,
            player.current_track().stepped(),
        ),
        player.advance(now).state == PlaybackModel::Playing(
            Some(player.state.anchor().unwrap() + TICK_NANOS as nat),
        ),
{
}

/// A poll that finds a tick due plays one second and no more, however late
/// it comes: any two such polls leave the player in the same state.
pub proof fn lemma_late_poll_plays_one_second(player: PlayerModel, now: nat, later: nat)
    requires
        player.wf(),
        player.is_due(now),
        now <= later,
    ensures
        player.is_due(later),
        player.advance(later) == player.advance(now),
        player.advance(now).tracks == player.step().tracks,
        player.advance(now).current == player.step().current,
{
}

/// A poll that finds a tick due, on a track that has reached its end, puts
/// that track back to position 0 and moves the cursor to the following track,
/// from the last track to the first.
pub proof fn lemma_track_end_hands_over(player: PlayerModel, now: nat)
    requires
        player.wf(),
        player.is_due(now),
        player.position() == player.duration(),
    ensures
        player.advance(now).tracks[player.current as int].position == 0,
        player.advance(now).tracks == player.tracks.update(
            player.current as int,
            player.current_track().rewound(),
        ),
        player.advance(now).current == (player.current + 1) % player.tracks.len(),
        player.current + 1 < player.tracks.len() ==> player.advance(now).current
            == player.current + 1,
        player.current + 1 == player.tracks.len() ==> player.advance(now).current == 0,
{
    lemma_next_index(player.current, player.tracks.len());
}

/// Stopping a stopped player changes nothing. Stopping a playing or paused
/// player puts the current track back to position 0 and stops it; the cursor
/// and the other tracks stay as they are.
pub proof fn lemma_stop_rewinds_unless_stopped(player: PlayerModel)
    requires
        player.wf(),
    ensures
        player.state is Stopped ==> player.stop() == player,
        !(player.state is Stopped) ==> {
            &&& player.stop().state is Stopped
            &&& player.stop().position() == 0
            &&& player.stop().current == player.current
            &&& player.stop().tracks == player.tracks.update(
                player.current as int,
                player.current_track().rewound(),
            )
        },
        player.stop().stop() == player.stop(),
{
}

/// Two polls less than a second apart play at most one second between them,
/// provided the cadence is not more than a second behind the later poll.
/// (A cadence that lags further is caught up one second per poll.)
pub proof fn lemma_rapid_polls_tick_at_most_once(player: PlayerModel, first: nat, second: nat)
    requires
        player.wf(),
        first <= second < first + TICK_NANOS,
        player.state matches PlaybackModel::Playing(Some(due)) ==> second < due + TICK_NANOS,
    ensures
        !(player.is_due(first) && player.advance(first).is_due(second)),
        ({
            let after = player.advance(first).advance(second);
            ||| after.tracks == player.tracks && after.current == player.current
            ||| after.tracks == player.step().tracks && after.current == player.step().current
        }),
{
}

} // verus!
