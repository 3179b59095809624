//! What the event loop decides: how long to wait for input, and which
//! command a key stands for.

use crate::text::{chars_of, lower_all, lowered, same_text};
use vstd::prelude::*;

verus! {

/// A key as far as the player tells keys apart.
#[derive(Clone, Copy, Debug, PartialEq, Eq, Structural)]
pub enum Key {
    Char(char),
    Up,
    Down,
    /// Any other key. No command can be bound to it.
    Other,
}

/// What the user can ask of the player.
#[derive(Clone, Copy, Debug, PartialEq, Eq, Structural)]
pub enum Command {
    Quit,
    Rescan,
    Play,
    TogglePause,
    MoveUp,
    MoveDown,
}

/// The key of each command.
#[derive(Clone, Copy, Debug, PartialEq, Eq, Structural)]
pub struct KeyBindings {
    pub quit: Key,
    pub rescan: Key,
    pub play: Key,
    pub toggle_pause: Key,
    pub move_up: Key,
    pub move_down: Key,
}

/// The `[keys]` section of the settings file: for each command the key as
/// the user wrote it, if any.
#[derive(Clone, Debug, PartialEq, Eq)]
pub struct KeysSection {
    pub quit: Option<String>,
    pub rescan: Option<String>,
    pub play: Option<String>,
    pub toggle_pause: Option<String>,
    pub move_up: Option<String>,
    pub move_down: Option<String>,
}

/// The tick of the event loop. Times are milliseconds on a clock that
/// never runs backwards.
#[derive(Clone, Copy, Debug, PartialEq, Eq, Structural)]
pub struct TickClock {
    /// The length of a tick.
    pub interval: u64,
    /// When the running tick began.
    pub last_tick: u64,
}

/// The command that `key` stands for under `bindings`: the first command,
/// in the order of the table, that is bound to it.
pub open spec fn command_of(bindings: KeyBindings, key: Key) -> Option<Command> {
    if key is Other {
        None
    } else if key == bindings.quit {
        Some(Command::Quit)
    } else if key == bindings.rescan {
        Some(Command::Rescan)
    } else if key == bindings.play {
        Some(Command::Play)
    } else if key == bindings.toggle_pause {
        Some(Command::TogglePause)
    } else if key == bindings.move_up {
        Some(Command::MoveUp)
    } else if key == bindings.move_down {
        Some(Command::MoveDown)
    } else {
        None
    }
}

/// The key that a text names: `up` and `down`, in any mix of upper and
/// lower case, are the arrows; any other text of one character is that
/// character's key; no other text names a key.
pub open spec fn key_of_text(text: Seq<char>) -> Option<Key> {
    if lowered(text) == "up"@ {
        Some(Key::Up)
    } else if lowered(text) == "down"@ {
        Some(Key::Down)
    } else if text.len() == 1 {
        Some(Key::Char(text[0]))
    } else {
        None
    }
}

/// The key of one command: the command's default where the user set
/// nothing or wrote what names no key, else the key written.
pub open spec fn bound_key(entry: Option<String>, default: Key) -> Key {
    match entry {
        None => default,
        Some(text) => match key_of_text(text@) {
            Some(key) => key,
            None => default,
        },
    }
}

/// The keys where the user chooses none.
pub open spec fn default_bindings() -> KeyBindings {
    KeyBindings {
        quit: Key::Char('q'),
        rescan: Key::Char('t'),
        play: Key::Char('p'),
        toggle_pause: Key::Char('['),
        move_up: Key::Up,
        move_down: Key::Down,
    }
}

/// The keys that a `[keys]` section gives; without the section, the
/// defaults.
pub open spec fn bindings_of(section: Option<KeysSection>) -> KeyBindings {
    match section {
        None => default_bindings(),
        Some(keys) => KeyBindings {
            quit: bound_key(keys.quit, default_bindings().quit),
            rescan: bound_key(keys.rescan, default_bindings().rescan),
            play: bound_key(keys.play, default_bindings().play),
            toggle_pause: bound_key(keys.toggle_pause, default_bindings().toggle_pause),
            move_up: bound_key(keys.move_up, default_bindings().move_up),
            move_down: bound_key(keys.move_down, default_bindings().move_down),
        },
    }
}

/// The word that the help shows for a command.
pub open spec fn label_of(command: Command) -> Seq<char> {
    match command {
        Command::Quit => "Quit"@,
        Command::Rescan => "Rescan"@,
        Command::Play => "Play"@,
        Command::TogglePause => "Pause"@,
        Command::MoveUp => "Up"@,
        Command::MoveDown => "Down"@,
    }
}

/// The time gone by at `now` since `since`; zero where `now` lies before
/// it.
pub open spec fn elapsed_between(since: u64, now: u64) -> nat {
    if now >= since {
        (now - since) as nat
    } else {
        0
    }
}

/// What is left of a tick of length `interval` once `elapsed` of it has
/// gone by; zero once it is over.
pub open spec fn remaining_wait(interval: u64, elapsed: nat) -> nat {
    if elapsed >= interval {
        0
    } else {
        (interval - elapsed) as nat
    }
}

impl Command {
    /// The word that the help shows for the command.
    pub fn label(self) -> (text: &'static str)
        ensures
            text@ == label_of(self),
    {
        match self {
            Command::Quit => "Quit",
            Command::Rescan => "Rescan",
            Command::Play => "Play",
            Command::TogglePause => "Pause",
            Command::MoveUp => "Up",
            Command::MoveDown => "Down",
        }
    }
}

/// Reads a key as the settings file writes it; `None` where the text
/// names no key.
pub fn parse_key(text: &str) -> (key: Option<Key>)
    ensures
        key == key_of_text(text@),
{
    let chars = chars_of(text);
    let lower = lower_all(&chars);
    if same_text(&lower, "up") {
        Some(Key::Up)
    } else if same_text(&lower, "down") {
        Some(Key::Down)
    } else if chars.len() == 1 {
        Some(Key::Char(chars[0]))
    } else {
        None
    }
}

/// The key of one command, given the user's entry for it and the
/// command's default.
pub fn resolve_key(entry: &Option<String>, default: Key) -> (key: Key)
    ensures
        key == bound_key(*entry, default),
{
    match entry {
        None => default,
        Some(text) => match parse_key(text.as_str()) {
            Some(key) => key,
            None => default,
        },
    }
}

impl KeyBindings {
    /// The keys where the user chooses none: `q` quits, `t` scans the
    /// library again, `p` plays, `[` pauses and resumes, and the arrows
    /// move the selection.
    pub fn default_keys() -> (bindings: KeyBindings)
        ensures
            bindings == default_bindings(),
    {
        KeyBindings {
            quit: Key::Char('q'),
            rescan: Key::Char('t'),
            play: Key::Char('p'),
            toggle_pause: Key::Char('['),
            move_up: Key::Up,
            move_down: Key::Down,
        }
    }

    /// The keys that the `[keys]` section of the settings gives. A command
    /// that the section leaves out, or gives no readable key, keeps its
    /// default.
    pub fn from_settings(section: &Option<KeysSection>) -> (bindings: KeyBindings)
        ensures
            bindings == bindings_of(*section),
    {
        let defaults = KeyBindings::default_keys();
        match section {
            None => defaults,
            Some(keys) => KeyBindings {
                quit: resolve_key(&keys.quit, defaults.quit),
                rescan: resolve_key(&keys.rescan, defaults.rescan),
                play: resolve_key(&keys.play, defaults.play),
                toggle_pause: resolve_key(&keys.toggle_pause, defaults.toggle_pause),
                move_up: resolve_key(&keys.move_up, defaults.move_up),
                move_down: resolve_key(&keys.move_down, defaults.move_down),
            },
        }
    }

    /// The one command that `key` stands for, if it stands for any.
    pub fn command_for(&self, key: Key) -> (command: Option<Command>)
        ensures
            command == command_of(*self, key),
    {
        match key {
            Key::Other => None,
            _ => {
                if key == self.quit {
                    Some(Command::Quit)
                } else if key == self.rescan {
                    Some(Command::Rescan)
                } else if key == self.play {
                    Some(Command::Play)
                } else if key == self.toggle_pause {
                    Some(Command::TogglePause)
                } else if key == self.move_up {
                    Some(Command::MoveUp)
                } else if key == self.move_down {
                    Some(Command::MoveDown)
                } else {
                    None
                }
            },
        }
    }
}

impl TickClock {
    /// A clock with ticks of `interval`, whose first tick begins at `now`.
    pub fn new(interval: u64, now: u64) -> (clock: TickClock)
        ensures
            clock.interval == interval,
            clock.last_tick == now,
    {
        TickClock { interval, last_tick: now }
    }

    /// How long the loop may wait for input at `now`: what is left of the
    /// running tick, and nothing once it is over.
    pub fn poll_timeout(&self, now: u64) -> (wait: u64)
        ensures
            wait == remaining_wait(self.interval, elapsed_between(self.last_tick, now)),
            wait <= self.interval,
    {
        let elapsed: u64 = if now >= self.last_tick {
            now - self.last_tick
        } else {
            0
        };
        if elapsed >= self.interval {
            0
        } else {
            self.interval - elapsed
        }
    }

    /// Whether the running tick is over at `now`.
    pub fn is_due(&self, now: u64) -> (due: bool)
        ensures
            due == (elapsed_between(self.last_tick, now) >= self.interval),
    {
        let elapsed: u64 = if now >= self.last_tick {
            now - self.last_tick
        } else {
            0
        };
        elapsed >= self.interval
    }

    /// Begins a new tick at `now` if the running one is over, and says
    /// whether it did.
    pub fn advance(&mut self, now: u64) -> (restarted: bool)
        ensures
            restarted == (elapsed_between(old(self).last_tick, now) >= old(self).interval),
            final(self).interval == old(self).interval,
            final(self).last_tick == (if restarted {
                now
            } else {
                old(self).last_tick
            }),
    {
        if self.is_due(now) {
            self.last_tick = now;
            true
        } else {
            false
        }
    }
}

/// The wait and the time gone by make up the tick, as long as the tick is
/// not over; after that the wait is zero.
pub proof fn lemma_wait_fills_tick(interval: u64, elapsed: nat)
    ensures
        elapsed <= interval ==> remaining_wait(interval, elapsed) + elapsed == interval,
        elapsed >= interval ==> remaining_wait(interval, elapsed) == 0,
{
}

/// A key stands for one command at most, and a key that no command is
/// bound to stands for none.
pub proof fn lemma_unbound_key_has_no_command(bindings: KeyBindings, key: Key)
    requires
        key != bindings.quit,
        key != bindings.rescan,
        key != bindings.play,
        key != bindings.toggle_pause,
        key != bindings.move_up,
        key != bindings.move_down,
    ensures
        command_of(bindings, key) is None,
        command_of(bindings, Key::Other) is None,
{
}

} // verus!
