use rustify::app::App;
use rustify::config::Color;
use rustify::events::{Command, Key, KeyBindings};
use rustify::playback::PlaybackStatus;
use rustify::render::{
    draw, draw_controls, draw_layout, draw_music_library, draw_outer_block, draw_player,
    ControlLine, Direction,
};
use rustify::scanner::WalkEntry;

fn file(path: &str) -> WalkEntry {
    WalkEntry::Found { path: path.to_string(), is_file: true }
}

#[test]
fn frame_of_an_empty_app() {
    let app: App<u32> = App::new();
    let model = draw(&app, &KeyBindings::default_keys());
    assert_eq!(model.title, " Rustify ");
    assert_eq!(model.title_color, Color::Cyan);
    assert_eq!(model.library.highlight_color, Color::Yellow);
    assert_eq!(model.player.bar_color, Color::LightBlue);
    assert_eq!(model.library.title, "Music Library");
    assert!(model.library.items.is_empty());
    assert_eq!(model.library.selected, None);
    assert_eq!(model.library.highlight_symbol, "> ");
    assert_eq!(model.status, PlaybackStatus::Idle);
    assert_eq!(model.controls.title, "Controls");
    assert_eq!(model.player.title, "Music Player");
}

#[test]
fn frame_shows_songs_and_selection() {
    let mut app: App<u32> = App::new();
    app.scan_for_songs(&vec![file("a.mp3"), file("b.mp3")], &vec!["mp3".to_string()]);
    app.move_selection_down();
    app.playback_opened(Ok(1)).unwrap();
    let before = format!("{:?}", app);
    let model = draw(&app, &KeyBindings::default_keys());
    assert_eq!(model.library.items, vec!["a.mp3".to_string(), "b.mp3".to_string()]);
    assert_eq!(model.library.selected, Some(1));
    assert_eq!(model.status, PlaybackStatus::Playing);
    assert_eq!(format!("{:?}", app), before);
    assert_eq!(draw_music_library(&app), model.library);
}

#[test]
fn layout_divides_the_screen() {
    let (rows, columns) = draw_layout();
    assert_eq!(rows.direction, Direction::Vertical);
    assert_eq!(rows.margin, 1);
    assert_eq!((rows.first_percent, rows.second_percent), (80, 20));
    assert_eq!(columns.direction, Direction::Horizontal);
    assert_eq!(columns.margin, 0);
    assert_eq!((columns.first_percent, columns.second_percent), (40, 60));
    assert_eq!(draw_outer_block(), (" Rustify ".to_string(), Color::Cyan));
}

#[test]
fn chart_has_four_bars() {
    let panel = draw_player();
    let bars: Vec<(String, u64)> = panel.bars.iter().map(|b| (b.label.clone(), b.value)).collect();
    assert_eq!(
        bars,
        vec![
            ("Song 1".to_string(), 7),
            ("Song 2".to_string(), 5),
            ("Song 3".to_string(), 10),
            ("Song 4".to_string(), 3),
        ]
    );
    assert_eq!(panel.bar_width, 8);
    assert_eq!(panel.bar_gap, 2);
}

#[test]
fn controls_list_every_binding() {
    let keys = KeyBindings::default_keys();
    let panel = draw_controls(&keys);
    assert_eq!(
        panel.lines,
        vec![
            ControlLine { command: Command::Quit, key: Key::Char('q'), color: Color::Red },
            ControlLine { command: Command::Rescan, key: Key::Char('t'), color: Color::Yellow },
            ControlLine { command: Command::Play, key: Key::Char('p'), color: Color::Green },
            ControlLine { command: Command::TogglePause, key: Key::Char('['), color: Color::Green },
            ControlLine { command: Command::MoveUp, key: Key::Up, color: Color::Yellow },
            ControlLine { command: Command::MoveDown, key: Key::Down, color: Color::Yellow },
        ]
    );
}
