//! The player's state, and what each command does to it.

use crate::events::{command_of, Command, Key, KeyBindings};
use crate::playback::{PlaybackError, PlaybackState, SinkRequest};
use crate::scanner::{scan, songs_among, texts_of, WalkEntry};
use crate::selection::{cursor_fits, moved_down, moved_up, song_at, start_cursor, Selection};
use vstd::prelude::*;

verus! {

/// The whole state of the player. `S` is the audio sink.
#[derive(Debug)]
pub struct App<S> {
    /// Set by the quit command; the event loop ends when it is.
    pub exit: bool,
    /// The song list of the last scan.
    pub music_files: Vec<String>,
    /// The user's place in the song list.
    pub selection: Selection,
    /// Playback, with the active sink.
    pub playback: PlaybackState<S>,
}

/// What is left for the caller to do once a command has been applied.
#[derive(Clone, Debug, PartialEq, Eq)]
pub enum Action {
    Nothing,
    /// Leave the event loop. Playback is as it was; it is for the caller to
    /// end it with `stop` once the loop is left.
    Exit,
    /// Walk the music directory and hand what was found to
    /// `scan_for_songs`.
    Scan,
    /// Open a sink for the song at `path` and report to `playback_opened`.
    Open { path: String },
    /// The command was refused; nothing changed.
    Refused(PlaybackError),
    /// Pause the active sink.
    Pause,
    /// Resume the active sink.
    Resume,
}

impl<S> App<S> {
    /// The cursor is a place in the song list, or the list is empty and
    /// the cursor holds nothing.
    pub open spec fn wf(self) -> bool {
        cursor_fits(self.selection.cursor, self.music_files@.len())
    }

    /// What the play command leads to: nothing without a selected song, a
    /// refusal while a sink is active, else the opening of the selected
    /// song.
    pub open spec fn play_action(self) -> Action {
        match song_at(self.selection.cursor, self.music_files@) {
            None => Action::Nothing,
            Some(path) => if self.playback is Idle {
                Action::Open { path }
            } else {
                Action::Refused(PlaybackError::AlreadyPlaying)
            },
        }
    }

    /// The state after a command.
    pub open spec fn after_command(self, command: Command) -> Self {
        match command {
            Command::Quit => App { exit: true, ..self },
            Command::Rescan => self,
            Command::Play => self,
            Command::TogglePause => App { playback: self.playback.after_toggle(), ..self },
            Command::MoveUp => App {
                selection: Selection { cursor: moved_up(self.selection.cursor) },
                ..self
            },
            Command::MoveDown => App {
                selection: Selection {
                    cursor: moved_down(self.selection.cursor, self.music_files@.len()),
                },
                ..self
            },
        }
    }

    /// What a command leaves for the caller to do.
    pub open spec fn action_of(self, command: Command) -> Action {
        match command {
            Command::Quit => Action::Exit,
            Command::Rescan => Action::Scan,
            Command::Play => self.play_action(),
            Command::TogglePause => match self.playback.toggle_request() {
                SinkRequest::Nothing => Action::Nothing,
                SinkRequest::Pause => Action::Pause,
                SinkRequest::Resume => Action::Resume,
            },
            Command::MoveUp => Action::Nothing,
            Command::MoveDown => Action::Nothing,
        }
    }

    /// The state after a key.
    pub open spec fn after_key(self, bindings: KeyBindings, key: Key) -> Self {
        match command_of(bindings, key) {
            Some(command) => self.after_command(command),
            None => self,
        }
    }

    /// What a key leaves for the caller to do.
    pub open spec fn action_of_key(self, bindings: KeyBindings, key: Key) -> Action {
        match command_of(bindings, key) {
            Some(command) => self.action_of(command),
            None => Action::Nothing,
        }
    }

    /// The state that the player starts in: no songs, nothing selected,
    /// nothing playing.
    pub fn new() -> (app: Self)
        ensures
            !app.exit,
            app.music_files@.len() == 0,
            app.selection.cursor is None,
            app.playback is Idle,
            app.wf(),
    {
        App {
            exit: false,
            music_files: Vec::new(),
            selection: Selection::empty(),
            playback: PlaybackState::new(),
        }
    }

    /// The selected song, or `None` while the list is empty.
    pub fn selected_song(&self) -> (song: Option<&String>)
        ensures
            match song {
                Some(path) => song_at(self.selection.cursor, self.music_files@) == Some(*path),
                None => song_at(self.selection.cursor, self.music_files@) is None,
            },
            self.wf() ==> (song is None <==> self.music_files@.len() == 0),
    {
        self.selection.current(&self.music_files)
    }

    pub fn move_selection_up(&mut self)
        ensures
            *final(self) == old(self).after_command(Command::MoveUp),
            old(self).wf() ==> final(self).wf(),
    {
        self.selection.move_up();
    }

    pub fn move_selection_down(&mut self)
        ensures
            *final(self) == old(self).after_command(Command::MoveDown),
            old(self).wf() ==> final(self).wf(),
    {
        self.selection.move_down(self.music_files.len());
    }

    /// Replaces the song list by the songs among `entries`, and puts the
    /// cursor on the first of them, or on nothing where there is none.
    /// Playback goes on as it was.
    pub fn scan_for_songs(&mut self, entries: &Vec<WalkEntry>, extensions: &Vec<String>)
        ensures
            texts_of(final(self).music_files@) == songs_among(entries@, texts_of(extensions@)),
            texts_of(final(self).music_files@).no_duplicates(),
            final(self).selection.cursor == start_cursor(final(self).music_files@.len()),
            final(self).playback == old(self).playback,
            final(self).exit == old(self).exit,
            final(self).wf(),
    {
        let songs = scan(entries, extensions);
        self.selection = Selection::reset(songs.len());
        self.music_files = songs;
    }

    /// Decides what the play command leads to. The state does not change
    /// before the caller reports with `playback_opened`.
    pub fn play_song(&self) -> (action: Action)
        ensures
            action == self.play_action(),
    {
        match self.selection.current(&self.music_files) {
            None => Action::Nothing,
            Some(path) => {
                if self.playback.can_play().is_ok() {
                    Action::Open { path: path.clone() }
                } else {
                    Action::Refused(PlaybackError::AlreadyPlaying)
                }
            },
        }
    }

    /// Takes over what came of opening a sink for the selected song: see
    /// `PlaybackState::play`.
    pub fn playback_opened(&mut self, opened: Result<S, PlaybackError>) -> (r: Result<
        (),
        PlaybackError,
    >)
        ensures
            r == old(self).playback.play_outcome(opened),
            *final(self) == (App { playback: old(self).playback.after_play(opened), ..*old(self) }),
            old(self).wf() ==> final(self).wf(),
    {
        self.playback.play(opened)
    }

    /// Pauses what plays and resumes what is paused.
    pub fn pause_song(&mut self) -> (request: SinkRequest)
        ensures
            request == old(self).playback.toggle_request(),
            *final(self) == old(self).after_command(Command::TogglePause),
            old(self).wf() ==> final(self).wf(),
    {
        self.playback.toggle_pause()
    }

    /// Ends playback; the sink comes back for the caller to release.
    pub fn stop(&mut self) -> (released: Option<S>)
        ensures
            released == old(self).playback.sink_of(),
            *final(self) == (App { playback: PlaybackState::Idle, ..*old(self) }),
            old(self).wf() ==> final(self).wf(),
    {
        self.playback.stop()
    }

    /// Takes over what a look at the sink gave: whether it has played all
    /// that was queued. A sink that has ended is handed back for the caller
    /// to release, and playback is `Idle` again; else nothing changes.
    pub fn playback_finished(&mut self, finished: bool) -> (released: Option<S>)
        ensures
            *final(self) == (if finished {
                App { playback: PlaybackState::Idle, ..*old(self) }
            } else {
                *old(self)
            }),
            released == (if finished {
                old(self).playback.sink_of()
            } else {
                None
            }),
            old(self).wf() ==> final(self).wf(),
    {
        if finished {
            self.playback.stop()
        } else {
            None
        }
    }

    /// Applies one command to the state and says what is left for the
    /// caller to do.
    pub fn apply_command(&mut self, command: Command) -> (action: Action)
        ensures
            *final(self) == old(self).after_command(command),
            action == old(self).action_of(command),
            old(self).wf() ==> final(self).wf(),
    {
        match command {
            Command::Quit => {
                self.exit = true;
                Action::Exit
            },
            Command::Rescan => Action::Scan,
            Command::Play => self.play_song(),
            Command::TogglePause => match self.playback.toggle_pause() {
                SinkRequest::Nothing => Action::Nothing,
                SinkRequest::Pause => Action::Pause,
                SinkRequest::Resume => Action::Resume,
            },
            Command::MoveUp => {
                self.selection.move_up();
                Action::Nothing
            },
            Command::MoveDown => {
                self.selection.move_down(self.music_files.len());
                Action::Nothing
            },
        }
    }

    /// Applies the command that `key` stands for, if it stands for one.
    pub fn handle_key(&mut self, bindings: &KeyBindings, key: Key) -> (action: Action)
        ensures
            *final(self) == old(self).after_key(*bindings, key),
            action == old(self).action_of_key(*bindings, key),
            old(self).wf() ==> final(self).wf(),
    {
        match bindings.command_for(key) {
            Some(command) => self.apply_command(command),
            None => Action::Nothing,
        }
    }
}

impl<S> Default for App<S> {
    fn default() -> (app: Self)
        ensures
            !app.exit,
            app.music_files@.len() == 0,
            app.selection.cursor is None,
            app.playback is Idle,
            app.wf(),
    {
        App::new()
    }
}

/// No command takes the cursor out of the song list.
pub proof fn lemma_commands_keep_cursor_in_list<S>(app: App<S>, command: Command)
    requires
        app.wf(),
    ensures
        app.after_command(command).wf(),
        app.after_command(command).music_files == app.music_files,
{
}

/// Only the quit command ends the loop, and all it does is to say so:
/// song list, cursor and playback stay as they were.
pub proof fn lemma_exit_only_on_quit<S>(app: App<S>, command: Command)
    ensures
        app.after_command(command).exit == (app.exit || command == Command::Quit),
        command == Command::Quit ==> app.after_command(command) == (App { exit: true, ..app })
            && app.action_of(command) == Action::Exit,
{
}

/// While a sink is active the play command is refused and changes nothing.
pub proof fn lemma_play_refused_while_active<S>(app: App<S>)
    requires
        !(app.playback is Idle),
        song_at(app.selection.cursor, app.music_files@) is Some,
    ensures
        app.action_of(Command::Play) == Action::Refused(PlaybackError::AlreadyPlaying),
        app.after_command(Command::Play) == app,
{
}

} // verus!
