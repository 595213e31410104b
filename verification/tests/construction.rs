use music_player::{InvalidPlaylist, PlaybackState, Player};

#[test]
fn new_player_is_stopped_on_the_first_track() {
    let player = Player::new(&[("Track 1", 45), ("Track 2", 65), ("Track 3", 195)]).unwrap();
    assert_eq!(player.state(), PlaybackState::Stopped);
    assert_eq!(player.current_index(), 0);
    assert_eq!(player.current_track().title(), "Track 1");
    assert_eq!(player.current_duration(), 45);
    assert_eq!(player.current_position(), 0);
}

#[test]
fn new_player_keeps_titles_and_durations_in_order() {
    let player = Player::new(&[("Track 1", 45), ("Track 2", 65), ("Track 3", 195)]).unwrap();
    let tracks = player.playlist();
    assert_eq!(tracks.len(), 3);
    assert_eq!(tracks[0].title(), "Track 1");
    assert_eq!(tracks[1].title(), "Track 2");
    assert_eq!(tracks[2].title(), "Track 3");
    assert_eq!(tracks[0].duration(), 45);
    assert_eq!(tracks[1].duration(), 65);
    assert_eq!(tracks[2].duration(), 195);
    assert!(tracks.iter().all(|track| track.position() == 0));
}

#[test]
fn new_accepts_a_single_track_of_one_second() {
    let player = Player::new(&[("Solo", 1)]).unwrap();
    assert_eq!(player.playlist().len(), 1);
    assert_eq!(player.current_duration(), 1);
}

#[test]
fn new_accepts_the_longest_duration() {
    let player = Player::new(&[("Endless", u32::MAX)]).unwrap();
    assert_eq!(player.current_duration(), u32::MAX);
}

#[test]
fn new_rejects_an_empty_playlist() {
    assert_eq!(Player::new(&[]).err(), Some(InvalidPlaylist::Empty));
}

#[test]
fn new_rejects_a_zero_duration() {
    assert_eq!(Player::new(&[("A", 0)]).err(), Some(InvalidPlaylist::ZeroDuration(0)));
    assert_eq!(
        Player::new(&[("A", 3), ("B", 2), ("C", 0)]).err(),
        Some(InvalidPlaylist::ZeroDuration(2))
    );
}

#[test]
fn new_reports_the_first_zero_duration() {
    assert_eq!(
        Player::new(&[("A", 3), ("B", 0), ("C", 5), ("D", 0)]).err(),
        Some(InvalidPlaylist::ZeroDuration(1))
    );
}
