//! The render projector: what the screen shows of a state.

use crate::app::App;
use crate::config::Color;
use crate::events::{Command, Key, KeyBindings};
use crate::playback::PlaybackStatus;
use vstd::prelude::*;

verus! {

/// The direction in which an area is divided.
#[derive(Clone, Copy, Debug, PartialEq, Eq, Structural)]
pub enum Direction {
    Horizontal,
    Vertical,
}

/// The division of an area in two, in percent of its length.
#[derive(Clone, Copy, Debug, PartialEq, Eq, Structural)]
pub struct Split {
    pub direction: Direction,
    /// The cells left free around the area before it is divided.
    pub margin: u16,
    pub first_percent: u16,
    pub second_percent: u16,
}

/// The list of songs, with the selected one marked.
#[derive(Clone, Debug, PartialEq, Eq)]
pub struct LibraryPanel {
    pub title: String,
    pub items: Vec<String>,
    /// The index of the marked item.
    pub selected: Option<usize>,
    /// What is written before the marked item.
    pub highlight_symbol: String,
    /// The colour of the marked item.
    pub highlight_color: Color,
}

/// One bar of the player's chart.
#[derive(Clone, Debug, PartialEq, Eq)]
pub struct Bar {
    pub label: String,
    pub value: u64,
}

/// The bar chart.
#[derive(Clone, Debug, PartialEq, Eq)]
pub struct PlayerPanel {
    pub title: String,
    pub bars: Vec<Bar>,
    pub bar_width: u16,
    pub bar_gap: u16,
    pub bar_color: Color,
}

/// One line of the help: a command, the key that gives it, and the colour
/// it is written in.
#[derive(Clone, Copy, Debug, PartialEq, Eq, Structural)]
pub struct ControlLine {
    pub command: Command,
    pub key: Key,
    pub color: Color,
}

/// The help.
#[derive(Clone, Debug, PartialEq, Eq)]
pub struct ControlsPanel {
    pub title: String,
    pub lines: Vec<ControlLine>,
}

/// All that a frame shows.
#[derive(Clone, Debug, PartialEq, Eq)]
pub struct RenderModel {
    /// The title on the outer border.
    pub title: String,
    pub title_color: Color,
    /// The division of the screen into the panels above and the controls
    /// below.
    pub rows: Split,
    /// The division of the upper part into library and player.
    pub columns: Split,
    pub library: LibraryPanel,
    pub player: PlayerPanel,
    pub controls: ControlsPanel,
    pub status: PlaybackStatus,
}

/// The item to mark: the cursor where it is a place in a list of `len`
/// items.
pub open spec fn marked_item(cursor: Option<usize>, len: nat) -> Option<usize> {
    match cursor {
        Some(c) => if c < len {
            Some(c)
        } else {
            None
        },
        None => None,
    }
}

/// The colour of a command's line in the help: yellow for what moves or
/// refreshes the list, green for playback, red for leaving.
pub open spec fn control_color(command: Command) -> Color {
    match command {
        Command::Quit => Color::Red,
        Command::Rescan => Color::Yellow,
        Command::Play => Color::Green,
        Command::TogglePause => Color::Green,
        Command::MoveUp => Color::Yellow,
        Command::MoveDown => Color::Yellow,
    }
}

/// The help line of a command that `key` gives.
pub open spec fn control_line(command: Command, key: Key) -> ControlLine {
    ControlLine { command, key, color: control_color(command) }
}

/// The help for a set of key bindings: every command with its key, in the
/// order of the command table.
pub open spec fn control_lines(bindings: KeyBindings) -> Seq<ControlLine> {
    seq![
        control_line(Command::Quit, bindings.quit),
        control_line(Command::Rescan, bindings.rescan),
        control_line(Command::Play, bindings.play),
        control_line(Command::TogglePause, bindings.toggle_pause),
        control_line(Command::MoveUp, bindings.move_up),
        control_line(Command::MoveDown, bindings.move_down),
    ]
}

/// The chart's bars as pairs of label and value.
pub open spec fn bars_of(bars: Seq<Bar>) -> Seq<(Seq<char>, u64)> {
    Seq::new(bars.len(), |i: int| (bars[i].label@, bars[i].value))
}

/// The bars that the chart shows. They stand for no measurement.
pub open spec fn chart_bars() -> Seq<(Seq<char>, u64)> {
    seq![("Song 1"@, 7u64), ("Song 2"@, 5u64), ("Song 3"@, 10u64), ("Song 4"@, 3u64)]
}

/// The title on the outer border, and its colour.
pub fn draw_outer_block() -> (block: (String, Color))
    ensures
        block.0@ == " Rustify "@,
        block.1 == Color::Cyan,
{
    (" Rustify ".to_owned(), Color::Cyan)
}

/// The two divisions of the screen: rows of 80 and 20 percent inside a
/// margin of one cell, and columns of 40 and 60 percent in the upper row.
pub fn draw_layout() -> (splits: (Split, Split))
    ensures
        splits.0 == (Split {
            direction: Direction::Vertical,
            margin: 1,
            first_percent: 80,
            second_percent: 20,
        }),
        splits.1 == (Split {
            direction: Direction::Horizontal,
            margin: 0,
            first_percent: 40,
            second_percent: 60,
        }),
        splits.0.first_percent + splits.0.second_percent == 100,
        splits.1.first_percent + splits.1.second_percent == 100,
{
    (
        Split { direction: Direction::Vertical, margin: 1, first_percent: 80, second_percent: 20 },
        Split { direction: Direction::Horizontal, margin: 0, first_percent: 40, second_percent: 60 },
    )
}

/// The library panel of a state: every song of the list in its order, and
/// the selected one marked.
pub fn draw_music_library<S>(app: &App<S>) -> (panel: LibraryPanel)
    ensures
        panel.title@ == "Music Library"@,
        panel.items@ == app.music_files@,
        panel.selected == marked_item(app.selection.cursor, app.music_files@.len()),
        panel.highlight_symbol@ == "> "@,
        panel.highlight_color == Color::Yellow,
{
    let mut items: Vec<String> = Vec::new();
    let mut i: usize = 0;
    while i < app.music_files.len()
        invariant
            i <= app.music_files@.len(),
            items@ == app.music_files@.take(i as int),
        decreases app.music_files@.len() - i,
    {
        items.push(app.music_files[i].clone());
        assert(items@ =~= app.music_files@.take(i as int + 1));
        i += 1;
    }
    assert(app.music_files@.take(app.music_files@.len() as int) =~= app.music_files@);
    let selected = match app.selection.cursor {
        Some(c) => if c < app.music_files.len() {
            Some(c)
        } else {
            None
        },
        None => None,
    };
    LibraryPanel {
        title: "Music Library".to_owned(),
        items,
        selected,
        highlight_symbol: "> ".to_owned(),
        highlight_color: Color::Yellow,
    }
}

/// The player panel: a chart of four bars.
pub fn draw_player() -> (panel: PlayerPanel)
    ensures
        panel.title@ == "Music Player"@,
        bars_of(panel.bars@) == chart_bars(),
        panel.bar_width == 8,
        panel.bar_gap == 2,
        panel.bar_color == Color::LightBlue,
{
    let mut bars: Vec<Bar> = Vec::new();
    bars.push(Bar { label: "Song 1".to_owned(), value: 7 });
    bars.push(Bar { label: "Song 2".to_owned(), value: 5 });
    bars.push(Bar { label: "Song 3".to_owned(), value: 10 });
    bars.push(Bar { label: "Song 4".to_owned(), value: 3 });
    assert(bars_of(bars@) =~= chart_bars());
    PlayerPanel {
        title: "Music Player".to_owned(),
        bars,
        bar_width: 8,
        bar_gap: 2,
        bar_color: Color::LightBlue,
    }
}

/// The controls panel: the key of every command.
pub fn draw_controls(bindings: &KeyBindings) -> (panel: ControlsPanel)
    ensures
        panel.title@ == "Controls"@,
        panel.lines@ == control_lines(*bindings),
{
    let mut lines: Vec<ControlLine> = Vec::new();
    lines.push(ControlLine { command: Command::Quit, key: bindings.quit, color: Color::Red });
    lines.push(ControlLine { command: Command::Rescan, key: bindings.rescan, color: Color::Yellow });
    lines.push(ControlLine { command: Command::Play, key: bindings.play, color: Color::Green });
    lines.push(
        ControlLine {
            command: Command::TogglePause,
            key: bindings.toggle_pause,
            color: Color::Green,
        },
    );
    lines.push(ControlLine { command: Command::MoveUp, key: bindings.move_up, color: Color::Yellow });
    lines.push(
        ControlLine { command: Command::MoveDown, key: bindings.move_down, color: Color::Yellow },
    );
    assert(lines@ =~= control_lines(*bindings));
    ControlsPanel { title: "Controls".to_owned(), lines }
}

/// What the screen shows of a state. The state is only read.
pub fn draw<S>(app: &App<S>, bindings: &KeyBindings) -> (model: RenderModel)
    ensures
        model.title@ == " Rustify "@,
        model.title_color == Color::Cyan,
        model.rows == (Split {
            direction: Direction::Vertical,
            margin: 1,
            first_percent: 80,
            second_percent: 20,
        }),
        model.columns == (Split {
            direction: Direction::Horizontal,
            margin: 0,
            first_percent: 40,
            second_percent: 60,
        }),
        model.library.title@ == "Music Library"@,
        model.library.items@ == app.music_files@,
        model.library.selected == marked_item(app.selection.cursor, app.music_files@.len()),
        model.library.highlight_symbol@ == "> "@,
        model.library.highlight_color == Color::Yellow,
        model.player.title@ == "Music Player"@,
        bars_of(model.player.bars@) == chart_bars(),
        model.player.bar_width == 8,
        model.player.bar_gap == 2,
        model.player.bar_color == Color::LightBlue,
        model.controls.title@ == "Controls"@,
        model.controls.lines@ == control_lines(*bindings),
        model.status == app.playback.status_of(),
{
    let (rows, columns) = draw_layout();
    let (title, title_color) = draw_outer_block();
    RenderModel {
        title,
        title_color,
        rows,
        columns,
        library: draw_music_library(app),
        player: draw_player(),
        controls: draw_controls(bindings),
        status: app.playback.status(),
    }
}

/// With a cursor that is a place in the list, the marked item is the
/// selected song; in an empty list nothing is marked.
pub proof fn lemma_marked_item_is_selection<S>(app: App<S>)
    requires
        app.wf(),
    ensures
        marked_item(app.selection.cursor, app.music_files@.len()) == app.selection.cursor,
        app.music_files@.len() == 0 ==> marked_item(app.selection.cursor, 0) is None,
{
}

} // verus!
