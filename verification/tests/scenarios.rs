use music_player::{PlaybackState, Player, TICK_NANOS};

#[test]
fn two_tracks_play_through_the_first_into_the_second() {
    let t0: u64 = 42 * TICK_NANOS + 17;
    let mut player = Player::new(&[("A", 3), ("B", 2)]).unwrap();
    assert_eq!(player.state(), PlaybackState::Stopped);
    assert_eq!(player.current_index(), 0);

    player.play_pause();
    assert_eq!(player.state(), PlaybackState::Playing(None));

    assert!(!player.advance(t0));
    assert_eq!(player.state(), PlaybackState::Playing(Some(t0 as u128 + TICK_NANOS as u128)));
    assert_eq!(player.current_position(), 0);

    assert!(player.advance(t0 + TICK_NANOS));
    assert_eq!(player.current_position(), 1);

    assert!(player.advance(t0 + 2 * TICK_NANOS));
    assert_eq!(player.current_position(), 2);

    assert!(player.advance(t0 + 3 * TICK_NANOS));
    assert_eq!(player.current_position(), 3);
    assert_eq!(player.current_index(), 0);

    assert!(player.advance(t0 + 4 * TICK_NANOS));
    assert_eq!(player.current_index(), 1);
    assert_eq!(player.current_track().title(), "B");
    assert_eq!(player.current_position(), 0);
    assert_eq!(player.playlist()[0].position(), 0);
}

#[test]
fn the_whole_playlist_plays_round() {
    let mut player = Player::new(&[("A", 3), ("B", 2)]).unwrap();
    player.play_pause();
    player.advance(0);
    let mut seen: Vec<(usize, u32)> = Vec::new();
    for second in 1..=8u64 {
        assert!(player.advance(second * TICK_NANOS));
        seen.push((player.current_index(), player.current_position()));
    }
    assert_eq!(
        seen,
        vec![(0, 1), (0, 2), (0, 3), (1, 0), (1, 1), (1, 2), (0, 0), (0, 1)]
    );
}

#[test]
fn a_session_of_button_presses() {
    let mut player = Player::new(&[("Track 1", 45), ("Track 2", 65)]).unwrap();
    assert_eq!(player.status_title(), "Stopped — press Play");
    assert_eq!(player.play_pause_button_label(), "Play");
    assert_eq!(player.position_label(), "");

    player.play_pause();
    player.advance(1_000);
    player.advance(1_000 + TICK_NANOS);
    assert_eq!(player.status_title(), "Playing: Track 1");
    assert_eq!(player.play_pause_button_label(), "Pause");
    assert_eq!(player.position_label(), "/ 45 sec");
    assert_eq!(player.current_position(), 1);

    player.next();
    assert_eq!(player.status_title(), "Playing: Track 2");
    assert_eq!(player.position_label(), "/ 65 sec");

    player.play_pause();
    assert_eq!(player.status_title(), "Paused: Track 2");
    assert_eq!(player.play_pause_button_label(), "Play");

    player.stop();
    assert_eq!(player.status_title(), "Stopped — press Play");
    assert_eq!(player.position_label(), "");
    assert!(!player.is_enabled());
}
