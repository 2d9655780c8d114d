use muzui::players::{find_active, PlaybackStatus, PlayerState};

fn player(status: PlaybackStatus, has_track: bool) -> PlayerState {
    PlayerState { status: Some(status), has_track: Some(has_track) }
}

#[test]
fn the_first_playing_player_wins() {
    assert_eq!(
        find_active(&vec![
            player(PlaybackStatus::Paused, true),
            player(PlaybackStatus::Playing, false),
            player(PlaybackStatus::Playing, true),
        ]),
        Some(1)
    );
}

#[test]
fn then_the_first_paused_then_with_a_track_then_any() {
    assert_eq!(
        find_active(&vec![
            player(PlaybackStatus::Stopped, false),
            player(PlaybackStatus::Stopped, true),
            player(PlaybackStatus::Paused, false),
            player(PlaybackStatus::Paused, true),
        ]),
        Some(2)
    );
    assert_eq!(
        find_active(&vec![
            player(PlaybackStatus::Stopped, false),
            player(PlaybackStatus::Stopped, true),
            player(PlaybackStatus::Stopped, true),
        ]),
        Some(1)
    );
    assert_eq!(
        find_active(&vec![
            player(PlaybackStatus::Stopped, false),
            player(PlaybackStatus::Stopped, false),
        ]),
        Some(0)
    );
    assert_eq!(find_active(&Vec::new()), None);
    // A second paused player counts like any other.
    assert_eq!(
        find_active(&vec![
            player(PlaybackStatus::Paused, false),
            player(PlaybackStatus::Paused, true),
        ]),
        Some(0)
    );
}

#[test]
fn a_player_without_an_answer_ends_the_search() {
    let silent = PlayerState { status: None, has_track: Some(true) };
    assert_eq!(find_active(&vec![player(PlaybackStatus::Paused, true), silent]), None);
    // Not where the search is over before it.
    assert_eq!(find_active(&vec![player(PlaybackStatus::Playing, true), silent]), Some(0));
    let trackless = PlayerState { status: Some(PlaybackStatus::Stopped), has_track: None };
    assert_eq!(find_active(&vec![trackless]), None);
    // A paused first player is not asked for its track.
    let paused = PlayerState { status: Some(PlaybackStatus::Paused), has_track: None };
    assert_eq!(find_active(&vec![paused]), Some(0));
    // Nor is any player once one with a track is known.
    assert_eq!(find_active(&vec![player(PlaybackStatus::Stopped, true), trackless]), Some(0));
}
