use rustify::app::{Action, App};
use rustify::events::{Command, Key, KeyBindings};
use rustify::playback::{PlaybackError, PlaybackState, PlaybackStatus, SinkRequest};
use rustify::scanner::WalkEntry;

fn file(path: &str) -> WalkEntry {
    WalkEntry::Found { path: path.to_string(), is_file: true }
}

fn with_songs(paths: &[&str]) -> App<u32> {
    let mut app: App<u32> = App::new();
    let entries: Vec<WalkEntry> = paths.iter().map(|p| file(p)).collect();
    app.scan_for_songs(&entries, &vec!["mp3".to_string()]);
    app
}

#[test]
fn new_app_is_empty_and_idle() {
    let app: App<u32> = App::new();
    assert!(!app.exit);
    assert!(app.music_files.is_empty());
    assert_eq!(app.selection.cursor, None);
    assert_eq!(app.playback, PlaybackState::Idle);
}

#[test]
fn default_app_is_a_new_app() {
    let app: App<u32> = App::default();
    assert!(!app.exit);
    assert!(app.music_files.is_empty());
    assert_eq!(app.selection.cursor, None);
    assert_eq!(app.playback, PlaybackState::Idle);
}

#[test]
fn play_command_opens_the_selected_song() {
    let mut app = with_songs(&["a.mp3", "b.mp3"]);
    app.move_selection_down();
    assert_eq!(app.apply_command(Command::Play), Action::Open { path: "b.mp3".to_string() });
    assert_eq!(app.playback, PlaybackState::Idle);
    assert_eq!(app.playback_opened(Ok(11)), Ok(()));
    assert_eq!(app.playback, PlaybackState::Playing(11));
}

#[test]
fn play_command_is_refused_while_a_sink_is_active() {
    let mut app = with_songs(&["a.mp3"]);
    assert_eq!(app.play_song(), Action::Open { path: "a.mp3".to_string() });
    app.playback_opened(Ok(1)).unwrap();
    assert_eq!(app.apply_command(Command::Play), Action::Refused(PlaybackError::AlreadyPlaying));
    assert_eq!(app.playback_opened(Ok(2)), Err(PlaybackError::AlreadyPlaying));
    assert_eq!(app.playback, PlaybackState::Playing(1));
    assert_eq!(app.apply_command(Command::TogglePause), Action::Pause);
    assert_eq!(app.apply_command(Command::Play), Action::Refused(PlaybackError::AlreadyPlaying));
    assert_eq!(app.playback, PlaybackState::Paused(1));
    assert_eq!(app.stop(), Some(1));
    assert_eq!(app.apply_command(Command::Play), Action::Open { path: "a.mp3".to_string() });
}

#[test]
fn play_command_without_songs_does_nothing() {
    let mut app: App<u32> = App::new();
    assert_eq!(app.apply_command(Command::Play), Action::Nothing);
    assert_eq!(app.playback, PlaybackState::Idle);
}

#[test]
fn failed_open_leaves_the_app_idle() {
    let mut app = with_songs(&["a.mp3"]);
    assert_eq!(app.playback_opened(Err(PlaybackError::Decode)), Err(PlaybackError::Decode));
    assert_eq!(app.playback.status(), PlaybackStatus::Idle);
    assert_eq!(
        app.playback_opened(Err(PlaybackError::OutputDevice)),
        Err(PlaybackError::OutputDevice)
    );
    assert_eq!(app.playback.status(), PlaybackStatus::Idle);
}

#[test]
fn toggle_command_pauses_and_resumes() {
    let mut app = with_songs(&["a.mp3"]);
    assert_eq!(app.apply_command(Command::TogglePause), Action::Nothing);
    app.playback_opened(Ok(4)).unwrap();
    assert_eq!(app.apply_command(Command::TogglePause), Action::Pause);
    assert_eq!(app.playback, PlaybackState::Paused(4));
    assert_eq!(app.apply_command(Command::TogglePause), Action::Resume);
    assert_eq!(app.playback, PlaybackState::Playing(4));
    assert_eq!(app.pause_song(), SinkRequest::Pause);
}

#[test]
fn quit_command_sets_exit_and_nothing_else() {
    let mut app = with_songs(&["a.mp3", "b.mp3"]);
    app.move_selection_down();
    app.playback_opened(Ok(8)).unwrap();
    assert_eq!(app.apply_command(Command::Quit), Action::Exit);
    assert!(app.exit);
    assert_eq!(app.playback, PlaybackState::Playing(8));
    assert_eq!(app.music_files, vec!["a.mp3".to_string(), "b.mp3".to_string()]);
    assert_eq!(app.selection.cursor, Some(1));
    assert_eq!(app.stop(), Some(8));
    assert_eq!(app.playback, PlaybackState::Idle);
    let mut paused = with_songs(&["a.mp3"]);
    paused.playback_opened(Ok(3)).unwrap();
    paused.pause_song();
    assert_eq!(paused.apply_command(Command::Quit), Action::Exit);
    assert_eq!(paused.playback, PlaybackState::Paused(3));
    let mut idle: App<u32> = App::new();
    assert_eq!(idle.apply_command(Command::Quit), Action::Exit);
    assert!(idle.exit);
    assert_eq!(idle.stop(), None);
}

#[test]
fn ended_sink_makes_playback_idle() {
    let mut app = with_songs(&["a.mp3"]);
    assert_eq!(app.playback_finished(true), None);
    assert_eq!(app.playback, PlaybackState::Idle);
    app.playback_opened(Ok(5)).unwrap();
    assert_eq!(app.playback_finished(false), None);
    assert_eq!(app.playback, PlaybackState::Playing(5));
    assert_eq!(app.playback_finished(true), Some(5));
    assert_eq!(app.playback, PlaybackState::Idle);
    assert_eq!(app.apply_command(Command::Play), Action::Open { path: "a.mp3".to_string() });
    app.playback_opened(Ok(6)).unwrap();
    app.pause_song();
    assert_eq!(app.playback_finished(true), Some(6));
    assert_eq!(app.playback, PlaybackState::Idle);
    assert_eq!(app.selection.cursor, Some(0));
    assert!(!app.exit);
}

#[test]
fn rescan_command_asks_for_a_scan() {
    let mut app = with_songs(&["a.mp3", "b.mp3"]);
    app.move_selection_down();
    assert_eq!(app.apply_command(Command::Rescan), Action::Scan);
    assert_eq!(app.music_files.len(), 2);
    assert_eq!(app.selection.cursor, Some(1));
    assert!(!app.exit);
}

#[test]
fn move_commands_move_the_cursor() {
    let mut app = with_songs(&["a.mp3", "b.mp3", "c.mp3"]);
    assert_eq!(app.apply_command(Command::MoveDown), Action::Nothing);
    assert_eq!(app.selection.cursor, Some(1));
    assert_eq!(app.apply_command(Command::MoveUp), Action::Nothing);
    assert_eq!(app.selection.cursor, Some(0));
    assert_eq!(app.apply_command(Command::MoveUp), Action::Nothing);
    assert_eq!(app.selection.cursor, Some(0));
}

#[test]
fn keys_are_dispatched_through_the_bindings() {
    let keys = KeyBindings::default_keys();
    let mut app = with_songs(&["a.mp3", "b.mp3"]);
    assert_eq!(app.handle_key(&keys, Key::Down), Action::Nothing);
    assert_eq!(app.selection.cursor, Some(1));
    assert_eq!(app.handle_key(&keys, Key::Char('z')), Action::Nothing);
    assert_eq!(app.handle_key(&keys, Key::Other), Action::Nothing);
    assert_eq!(app.selection.cursor, Some(1));
    assert_eq!(app.handle_key(&keys, Key::Char('p')), Action::Open { path: "b.mp3".to_string() });
    assert_eq!(app.handle_key(&keys, Key::Char('t')), Action::Scan);
    assert_eq!(app.handle_key(&keys, Key::Char('[')), Action::Nothing);
    assert!(!app.exit);
    app.playback_opened(Ok(2)).unwrap();
    assert_eq!(app.handle_key(&keys, Key::Char('q')), Action::Exit);
    assert!(app.exit);
    assert_eq!(app.playback, PlaybackState::Playing(2));
    assert_eq!(app.music_files.len(), 2);
    assert_eq!(app.selection.cursor, Some(1));
}
