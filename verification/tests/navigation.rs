use music_player::{PlaybackState, Player, TICK_NANOS};

#[test]
fn next_moves_to_the_following_track() {
    let mut player = Player::new(&[("A", 3), ("B", 2), ("C", 1)]).unwrap();
    player.next();
    assert_eq!(player.current_index(), 1);
    assert_eq!(player.current_track().title(), "B");
    player.next();
    assert_eq!(player.current_index(), 2);
}

#[test]
fn next_wraps_from_the_last_track_to_the_first() {
    let mut player = Player::new(&[("A", 3), ("B", 2), ("C", 1)]).unwrap();
    player.next();
    player.next();
    player.next();
    assert_eq!(player.current_index(), 0);
}

#[test]
fn previous_wraps_from_the_first_track_to_the_last() {
    let mut player = Player::new(&[("A", 3), ("B", 2), ("C", 1)]).unwrap();
    player.previous();
    assert_eq!(player.current_index(), 2);
    player.previous();
    assert_eq!(player.current_index(), 1);
    player.previous();
    assert_eq!(player.current_index(), 0);
}

#[test]
fn next_n_times_returns_to_the_start() {
    for len in 1..=7usize {
        let entries: Vec<(&str, u32)> = (0..len).map(|_| ("track", 10)).collect();
        for start in 0..len {
            let mut player = Player::new(&entries).unwrap();
            for _ in 0..start {
                player.next();
            }
            assert_eq!(player.current_index(), start);
            for _ in 0..len {
                player.next();
            }
            assert_eq!(player.current_index(), start);
        }
    }
}

#[test]
fn previous_undoes_next() {
    let mut player = Player::new(&[("A", 3), ("B", 2), ("C", 1)]).unwrap();
    for start in 0..3 {
        assert_eq!(player.current_index(), start);
        player.next();
        player.previous();
        assert_eq!(player.current_index(), start);
        player.previous();
        player.next();
        assert_eq!(player.current_index(), start);
        player.next();
    }
}

#[test]
fn on_a_single_track_navigation_stays_put() {
    let mut player = Player::new(&[("Solo", 5)]).unwrap();
    player.next();
    assert_eq!(player.current_index(), 0);
    player.previous();
    assert_eq!(player.current_index(), 0);
}

#[test]
fn navigation_keeps_the_playback_state() {
    let mut player = Player::new(&[("A", 3), ("B", 2)]).unwrap();
    player.next();
    assert_eq!(player.state(), PlaybackState::Stopped);
    player.play_pause();
    player.advance(500);
    let primed = PlaybackState::Playing(Some(500 + TICK_NANOS as u128));
    assert_eq!(player.state(), primed);
    player.next();
    assert_eq!(player.state(), primed);
    player.previous();
    assert_eq!(player.state(), primed);
    player.play_pause();
    player.next();
    assert_eq!(player.state(), PlaybackState::Paused);
}

#[test]
fn navigation_leaves_every_position_alone() {
    let mut player = Player::new(&[("A", 5), ("B", 5)]).unwrap();
    player.play_pause();
    player.advance(0);
    player.advance(TICK_NANOS);
    player.advance(2 * TICK_NANOS);
    assert_eq!(player.current_position(), 2);
    player.next();
    assert_eq!(player.current_index(), 1);
    assert_eq!(player.current_position(), 0);
    assert_eq!(player.playlist()[0].position(), 2);
    player.previous();
    assert_eq!(player.current_position(), 2);
    assert_eq!(player.playlist()[1].position(), 0);
}

#[test]
fn ticks_after_next_act_on_the_new_track() {
    let mut player = Player::new(&[("A", 5), ("B", 5)]).unwrap();
    player.play_pause();
    player.advance(0);
    player.advance(TICK_NANOS);
    player.next();
    assert!(player.advance(2 * TICK_NANOS));
    assert_eq!(player.current_index(), 1);
    assert_eq!(player.current_position(), 1);
    assert_eq!(player.playlist()[0].position(), 1);
}
