use rustify::events::{parse_key, resolve_key, Command, Key, KeyBindings, KeysSection, TickClock};

#[test]
fn default_keys_give_the_six_commands() {
    let keys = KeyBindings::default_keys();
    assert_eq!(keys.command_for(Key::Char('q')), Some(Command::Quit));
    assert_eq!(keys.command_for(Key::Char('t')), Some(Command::Rescan));
    assert_eq!(keys.command_for(Key::Char('p')), Some(Command::Play));
    assert_eq!(keys.command_for(Key::Char('[')), Some(Command::TogglePause));
    assert_eq!(keys.command_for(Key::Up), Some(Command::MoveUp));
    assert_eq!(keys.command_for(Key::Down), Some(Command::MoveDown));
    assert_eq!(keys.command_for(Key::Char('x')), None);
    assert_eq!(keys.command_for(Key::Char('Q')), None);
    assert_eq!(keys.command_for(Key::Char(']')), None);
    assert_eq!(keys.command_for(Key::Other), None);
}

#[test]
fn keys_can_be_bound_anew() {
    let keys = KeyBindings {
        quit: Key::Char('x'),
        rescan: Key::Char('r'),
        play: Key::Down,
        toggle_pause: Key::Char(' '),
        move_up: Key::Char('k'),
        move_down: Key::Char('j'),
    };
    assert_eq!(keys.command_for(Key::Char('x')), Some(Command::Quit));
    assert_eq!(keys.command_for(Key::Char('q')), None);
    assert_eq!(keys.command_for(Key::Down), Some(Command::Play));
    assert_eq!(keys.command_for(Key::Up), None);
    assert_eq!(keys.command_for(Key::Char(' ')), Some(Command::TogglePause));
    assert_eq!(keys.command_for(Key::Char('j')), Some(Command::MoveDown));
}

#[test]
fn a_key_bound_twice_gives_the_first_command() {
    let keys = KeyBindings {
        quit: Key::Char('a'),
        rescan: Key::Char('a'),
        play: Key::Up,
        toggle_pause: Key::Up,
        move_up: Key::Up,
        move_down: Key::Other,
    };
    assert_eq!(keys.command_for(Key::Char('a')), Some(Command::Quit));
    assert_eq!(keys.command_for(Key::Up), Some(Command::Play));
    assert_eq!(keys.command_for(Key::Other), None);
}

#[test]
fn poll_timeout_is_the_rest_of_the_tick() {
    let clock = TickClock::new(1000, 5000);
    assert_eq!(clock.poll_timeout(5000), 1000);
    assert_eq!(clock.poll_timeout(5250), 750);
    assert_eq!(clock.poll_timeout(5999), 1);
    assert_eq!(clock.poll_timeout(6000), 0);
    assert_eq!(clock.poll_timeout(9000), 0);
    assert_eq!(clock.poll_timeout(4000), 1000);
    assert_eq!(TickClock::new(0, 0).poll_timeout(0), 0);
    assert_eq!(TickClock::new(u64::MAX, 0).poll_timeout(u64::MAX), 0);
    assert_eq!(TickClock::new(u64::MAX, 0).poll_timeout(1), u64::MAX - 1);
}

#[test]
fn tick_restarts_once_it_is_over() {
    let mut clock = TickClock::new(1000, 5000);
    assert!(!clock.is_due(5999));
    assert!(!clock.advance(5999));
    assert_eq!(clock.last_tick, 5000);
    assert!(clock.is_due(6000));
    assert!(clock.advance(6000));
    assert_eq!(clock.last_tick, 6000);
    assert_eq!(clock.interval, 1000);
    assert!(!clock.advance(6500));
    assert!(clock.advance(8000));
    assert_eq!(clock.last_tick, 8000);
    assert!(!clock.advance(7000));
    assert_eq!(clock.last_tick, 8000);
}

#[test]
fn every_command_has_its_label() {
    assert_eq!(Command::Quit.label(), "Quit");
    assert_eq!(Command::Rescan.label(), "Rescan");
    assert_eq!(Command::Play.label(), "Play");
    assert_eq!(Command::TogglePause.label(), "Pause");
    assert_eq!(Command::MoveUp.label(), "Up");
    assert_eq!(Command::MoveDown.label(), "Down");
}

#[test]
fn keys_are_read_from_text() {
    assert_eq!(parse_key("q"), Some(Key::Char('q')));
    assert_eq!(parse_key("Q"), Some(Key::Char('Q')));
    assert_eq!(parse_key("["), Some(Key::Char('[')));
    assert_eq!(parse_key(" "), Some(Key::Char(' ')));
    assert_eq!(parse_key("\u{e9}"), Some(Key::Char('\u{e9}')));
    assert_eq!(parse_key("up"), Some(Key::Up));
    assert_eq!(parse_key("Up"), Some(Key::Up));
    assert_eq!(parse_key("DOWN"), Some(Key::Down));
    assert_eq!(parse_key(""), None);
    assert_eq!(parse_key("qq"), None);
    assert_eq!(parse_key("left"), None);
    assert_eq!(parse_key(" up"), None);
}

#[test]
fn unreadable_key_keeps_the_default() {
    assert_eq!(resolve_key(&None, Key::Char('q')), Key::Char('q'));
    assert_eq!(resolve_key(&Some("x".to_string()), Key::Char('q')), Key::Char('x'));
    assert_eq!(resolve_key(&Some("exit".to_string()), Key::Char('q')), Key::Char('q'));
    assert_eq!(resolve_key(&Some("down".to_string()), Key::Up), Key::Down);
    assert_eq!(KeyBindings::from_settings(&None), KeyBindings::default_keys());
    let section = KeysSection {
        quit: Some("e".to_string()),
        rescan: Some("".to_string()),
        play: None,
        toggle_pause: None,
        move_up: Some("down".to_string()),
        move_down: Some("up".to_string()),
    };
    let keys = KeyBindings::from_settings(&Some(section));
    assert_eq!(keys.quit, Key::Char('e'));
    assert_eq!(keys.rescan, Key::Char('t'));
    assert_eq!(keys.play, Key::Char('p'));
    assert_eq!(keys.toggle_pause, Key::Char('['));
    assert_eq!(keys.move_up, Key::Down);
    assert_eq!(keys.move_down, Key::Up);
    assert_eq!(keys.command_for(Key::Down), Some(Command::MoveUp));
}
