use rustify::app::App;
use rustify::scanner::WalkEntry;
use rustify::selection::Selection;

fn file(path: &str) -> WalkEntry {
    WalkEntry::Found { path: path.to_string(), is_file: true }
}

fn three_songs() -> App<u32> {
    let mut app: App<u32> = App::new();
    let entries = vec![file("/music/a.mp3"), file("/music/b.mp3"), file("/music/c.mp3")];
    app.scan_for_songs(&entries, &vec!["mp3".to_string()]);
    app
}

#[test]
fn two_down_then_one_up_leaves_cursor_at_one() {
    let mut app = three_songs();
    assert_eq!(app.selection.cursor, Some(0));
    app.move_selection_down();
    app.move_selection_down();
    assert_eq!(app.selection.cursor, Some(2));
    app.move_selection_up();
    assert_eq!(app.selection.cursor, Some(1));
    assert_eq!(app.selected_song(), Some(&"/music/b.mp3".to_string()));
}

#[test]
fn move_up_at_first_song_stays() {
    let mut app = three_songs();
    for _ in 0..5 {
        app.move_selection_up();
        assert_eq!(app.selection.cursor, Some(0));
    }
}

#[test]
fn move_down_at_last_song_stays() {
    let mut app = three_songs();
    for _ in 0..10 {
        app.move_selection_down();
        let cursor = app.selection.cursor.unwrap();
        assert!(cursor < 3);
    }
    assert_eq!(app.selection.cursor, Some(2));
    app.move_selection_down();
    assert_eq!(app.selection.cursor, Some(2));
}

#[test]
fn moves_in_empty_list_do_nothing() {
    let mut app: App<u32> = App::new();
    app.move_selection_down();
    assert_eq!(app.selection.cursor, None);
    app.move_selection_up();
    assert_eq!(app.selection.cursor, None);
    assert_eq!(app.selected_song(), None);
}

#[test]
fn selection_reset_points_at_first_song() {
    assert_eq!(Selection::reset(0).cursor, None);
    assert_eq!(Selection::reset(1).cursor, Some(0));
    assert_eq!(Selection::reset(7).cursor, Some(0));
    assert_eq!(Selection::empty().cursor, None);
}

#[test]
fn selection_move_down_clamps_to_last_index() {
    let mut s = Selection { cursor: Some(0) };
    s.move_down(2);
    assert_eq!(s.cursor, Some(1));
    s.move_down(2);
    assert_eq!(s.cursor, Some(1));
    let mut far = Selection { cursor: Some(usize::MAX) };
    far.move_down(3);
    assert_eq!(far.cursor, Some(2));
    let mut lone = Selection { cursor: Some(4) };
    lone.move_down(0);
    assert_eq!(lone.cursor, Some(4));
}

#[test]
fn selection_current_reads_the_list() {
    let songs = vec!["x".to_string(), "y".to_string()];
    assert_eq!(Selection { cursor: Some(1) }.current(&songs), Some(&"y".to_string()));
    assert_eq!(Selection { cursor: Some(2) }.current(&songs), None);
    assert_eq!(Selection { cursor: None }.current(&songs), None);
    let none: Vec<String> = Vec::new();
    assert_eq!(Selection { cursor: None }.current(&none), None);
}
