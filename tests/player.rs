use kanta::control::{ControlEvent, OutputCommand, PlaybackStatus, SeekDirection};
use kanta::player::Player;
use kanta::track::Track;

fn track(path: &str, duration_ms: u64) -> Track {
    Track::new(path.to_string(), None, None, None, None, duration_ms)
}

fn two_track_player() -> Player {
    let mut p = Player::new();
    p.add_to_playlist(track("a.flac", 10_000));
    p.add_to_playlist(track("b.flac", 20_000));
    p
}

#[test]
fn add_then_next_scenario() {
    let mut p = Player::new();
    assert_eq!(p.playlist_index(), None);

    let cmds = p.add_to_playlist(track("a.flac", 10_000));
    assert_eq!(p.playlist_index(), Some(0));
    assert_eq!(
        cmds,
        vec![
            OutputCommand::Discard,
            OutputCommand::Load(0),
            OutputCommand::PublishMetadata(0),
            OutputCommand::PublishStatus,
        ]
    );
    assert_eq!(p.status(), PlaybackStatus::Playing);

    let cmds = p.add_to_playlist(track("b.flac", 20_000));
    assert_eq!(p.playlist_index(), Some(0));
    assert!(cmds.is_empty());

    let cmds = p.jump_to_next_track();
    assert_eq!(p.playlist_index(), Some(1));
    assert_eq!(
        cmds,
        vec![
            OutputCommand::Discard,
            OutputCommand::Load(1),
            OutputCommand::PublishMetadata(1),
            OutputCommand::PublishStatus,
        ]
    );
    assert_eq!(p.current_track().unwrap().path(), "b.flac");

    let cmds = p.jump_to_next_track();
    assert_eq!(p.playlist_index(), Some(1));
    assert!(cmds.is_empty());
}

#[test]
fn tick_at_last_track_goes_idle() {
    let mut p = two_track_player();
    p.jump_to_next_track();
    assert_eq!(p.playlist_index(), Some(1));
    assert_eq!(p.status(), PlaybackStatus::Playing);

    let cmds = p.tick(true);
    assert_eq!(p.playlist_index(), Some(1));
    assert_eq!(p.status(), PlaybackStatus::Idle);
    assert_eq!(cmds, vec![OutputCommand::PublishStatus]);

    // Further ticks on the silent output change nothing.
    let cmds = p.tick(true);
    assert_eq!(p.playlist_index(), Some(1));
    assert!(cmds.is_empty());
}

#[test]
fn set_position_half_of_ten_seconds_seeks_to_five() {
    let mut p = Player::new();
    p.add_to_playlist(track("a.flac", 10_000));
    let cmds = p.set_normalized_position(500_000);
    assert_eq!(
        cmds,
        vec![OutputCommand::Seek(5_000), OutputCommand::PublishStatus]
    );
    assert_eq!(p.playlist_index(), Some(0));
    assert_eq!(p.status(), PlaybackStatus::Playing);
}

#[test]
fn set_position_without_track_does_nothing() {
    let mut p = Player::new();
    assert!(p.set_position(3_000).is_empty());
    assert!(p.set_normalized_position(500_000).is_empty());
}

#[test]
fn set_position_absolute() {
    let mut p = two_track_player();
    assert_eq!(
        p.set_position(3_000),
        vec![OutputCommand::Seek(3_000), OutputCommand::PublishStatus]
    );
}

#[test]
fn next_at_last_index_keeps_cursor() {
    let mut p = Player::new();
    p.add_to_playlist(track("a.flac", 1));
    assert_eq!(p.playlist_index(), Some(0));
    assert!(p.jump_to_next_track().is_empty());
    assert_eq!(p.playlist_index(), Some(0));
}

#[test]
fn next_on_empty_playlist_does_nothing() {
    let mut p = Player::new();
    assert!(p.jump_to_next_track().is_empty());
    assert_eq!(p.playlist_index(), None);
}

#[test]
fn previous_at_first_index_keeps_cursor() {
    let mut p = two_track_player();
    assert!(p.jump_to_previous_track().is_empty());
    assert_eq!(p.playlist_index(), Some(0));
}

#[test]
fn previous_steps_back_and_swaps() {
    let mut p = two_track_player();
    p.jump_to_next_track();
    let cmds = p.jump_to_previous_track();
    assert_eq!(p.playlist_index(), Some(0));
    assert_eq!(cmds[1], OutputCommand::Load(0));
}

#[test]
fn previous_without_current_track_does_nothing() {
    let mut p = Player::new();
    let mut tracks = Vec::new();
    tracks.push(track("a.flac", 1));
    p.load_m3u8_playlist(tracks);
    assert!(p.jump_to_previous_track().is_empty());
    assert_eq!(p.playlist_index(), None);
}

#[test]
fn jump_out_of_range_is_ignored() {
    let mut p = two_track_player();
    assert!(p.jump_to_track_at(2).is_empty());
    assert!(p.jump_to_track_at(usize::MAX).is_empty());
    assert_eq!(p.playlist_index(), Some(0));
}

#[test]
fn jump_in_range_swaps() {
    let mut p = two_track_player();
    let cmds = p.jump_to_track_at(1);
    assert_eq!(p.playlist_index(), Some(1));
    assert_eq!(cmds[1], OutputCommand::Load(1));
    // Jumping to the current track changes nothing.
    assert!(p.jump_to_track_at(1).is_empty());
}

#[test]
fn clear_empties_playlist_and_output() {
    let mut p = two_track_player();
    let cmds = p.clear_playlist();
    assert_eq!(p.playlist_index(), None);
    assert!(p.playlist().is_empty());
    assert_eq!(p.status(), PlaybackStatus::Idle);
    assert_eq!(
        cmds,
        vec![OutputCommand::Discard, OutputCommand::PublishStatus]
    );
    assert!(p.current_track().is_none());
}

#[test]
fn clear_on_empty_player() {
    let mut p = Player::new();
    p.clear_playlist();
    assert_eq!(p.playlist_index(), None);
    assert_eq!(p.status(), PlaybackStatus::Idle);
}

#[test]
fn load_replaces_playlist() {
    let mut p = two_track_player();
    let mut tracks = Vec::new();
    tracks.push(track("c.flac", 1));
    tracks.push(track("d.flac", 2));
    tracks.push(track("e.flac", 3));
    let cmds = p.load_m3u8_playlist(tracks);
    assert_eq!(p.playlist().len(), 3);
    assert_eq!(p.playlist()[2].path(), "e.flac");
    assert_eq!(p.playlist_index(), None);
    assert_eq!(p.status(), PlaybackStatus::Idle);
    assert_eq!(
        cmds,
        vec![OutputCommand::Discard, OutputCommand::PublishStatus]
    );
}

#[test]
fn export_lists_paths() {
    let p = two_track_player();
    assert_eq!(p.export_m3u8_playlist(), "a.flac\nb.flac");
    assert_eq!(Player::new().export_m3u8_playlist(), "");
}

#[test]
fn play_without_track_changes_nothing() {
    let mut p = Player::new();
    p.pause();
    assert!(p.is_paused());
    assert!(p.play().is_empty());
    assert!(p.is_paused());
}

#[test]
fn pause_and_play_toggle_status() {
    let mut p = two_track_player();
    assert!(!p.is_paused());
    assert_eq!(
        p.pause(),
        vec![OutputCommand::Pause, OutputCommand::PublishStatus]
    );
    assert_eq!(p.status(), PlaybackStatus::Paused);
    assert_eq!(
        p.play(),
        vec![OutputCommand::Play, OutputCommand::PublishStatus]
    );
    assert_eq!(p.status(), PlaybackStatus::Playing);
}

#[test]
fn swap_keeps_pause() {
    let mut p = two_track_player();
    p.pause();
    p.jump_to_next_track();
    assert!(p.is_paused());
    assert_eq!(p.status(), PlaybackStatus::Paused);
}

#[test]
fn tick_advances_when_output_runs_dry() {
    let mut p = two_track_player();
    let cmds = p.tick(true);
    assert_eq!(p.playlist_index(), Some(1));
    assert_eq!(cmds[1], OutputCommand::Load(1));
    assert_eq!(p.status(), PlaybackStatus::Playing);
}

#[test]
fn tick_with_busy_output_does_nothing() {
    let mut p = two_track_player();
    assert!(p.tick(false).is_empty());
    assert_eq!(p.playlist_index(), Some(0));
    assert_eq!(p.status(), PlaybackStatus::Playing);
}

#[test]
fn tick_without_current_track_does_not_start() {
    let mut p = Player::new();
    let mut tracks = Vec::new();
    tracks.push(track("a.flac", 1));
    p.load_m3u8_playlist(tracks);
    assert!(p.tick(true).is_empty());
    assert_eq!(p.playlist_index(), None);
}

#[test]
fn events_drive_the_player() {
    let mut p = two_track_player();
    assert_eq!(
        p.handle_event(ControlEvent::Pause, 0),
        vec![OutputCommand::Pause, OutputCommand::PublishStatus]
    );
    assert!(p.is_paused());
    p.handle_event(ControlEvent::Play, 0);
    assert!(!p.is_paused());
    p.handle_event(ControlEvent::Next, 0);
    assert_eq!(p.playlist_index(), Some(1));
    p.handle_event(ControlEvent::Previous, 0);
    assert_eq!(p.playlist_index(), Some(0));
    assert_eq!(
        p.handle_event(ControlEvent::SetPosition(1_234), 0),
        vec![OutputCommand::Seek(1_234), OutputCommand::PublishStatus]
    );
}

#[test]
fn relative_seek_events() {
    let mut p = two_track_player();
    assert_eq!(
        p.handle_event(ControlEvent::Seek(SeekDirection::Forward), 2_000)[0],
        OutputCommand::Seek(12_000)
    );
    assert_eq!(
        p.handle_event(ControlEvent::Seek(SeekDirection::Backward), 2_000)[0],
        OutputCommand::Seek(0)
    );
    assert_eq!(
        p.handle_event(ControlEvent::SeekBy(SeekDirection::Forward, 500), 2_000)[0],
        OutputCommand::Seek(2_500)
    );
    assert_eq!(
        p.handle_event(ControlEvent::SeekBy(SeekDirection::Backward, 500), 2_000)[0],
        OutputCommand::Seek(1_500)
    );
}

#[test]
fn normalized_position_of_current_track() {
    let mut p = Player::new();
    assert_eq!(p.normalized_position(1_000), None);
    p.add_to_playlist(track("a.flac", 10_000));
    assert_eq!(p.normalized_position(2_500), Some(250_000));
    assert_eq!(p.normalized_position(20_000), Some(1_000_000));
    let mut q = Player::new();
    q.add_to_playlist(track("silent.flac", 0));
    assert_eq!(q.normalized_position(5), None);
}
