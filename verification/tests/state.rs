use rustify::state::{config_file, first_readable, last_readable, load_state, state_file, State};

#[test]
fn load_state_keeps_a_parsed_record() {
    let record = State { last_visited_path: Some("/music".to_string()) };
    assert_eq!(load_state(Some(record.clone())), record);
    let blank = State { last_visited_path: None };
    assert_eq!(load_state(Some(blank.clone())), blank);
}

#[test]
fn load_state_falls_back_to_a_new_record() {
    assert_eq!(load_state(None), State { last_visited_path: None });
    assert_eq!(State::new().last_visited_path, None);
}

#[test]
fn first_readable_file_wins() {
    let reads = vec![None, Some("one".to_string()), Some("two".to_string()), None];
    assert_eq!(first_readable(&reads), "one");
    assert_eq!(first_readable(&vec![None, None]), "");
    assert_eq!(first_readable(&Vec::new()), "");
    assert_eq!(first_readable(&vec![Some(String::new()), Some("x".to_string())]), "");
}

#[test]
fn last_readable_file_wins() {
    let reads = vec![None, Some("one".to_string()), Some("two".to_string()), None];
    assert_eq!(last_readable(&reads), "two");
    assert_eq!(last_readable(&vec![None, None]), "");
    assert_eq!(last_readable(&Vec::new()), "");
}

#[test]
fn files_live_below_the_config_directory() {
    assert_eq!(state_file(), ".config/rustify/config/state.toml");
    assert_eq!(config_file(), ".config/rustify/config/config.toml");
}

fn written(state: &State) -> String {
    let mut table = toml::Table::new();
    if let Some(path) = &state.last_visited_path {
        table.insert("last_visited_path".to_string(), toml::Value::String(path.clone()));
    }
    toml::to_string(&table).unwrap()
}

fn read_back(text: &str) -> Option<State> {
    let table: toml::Table = text.parse().ok()?;
    match table.get("last_visited_path") {
        None => Some(State { last_visited_path: None }),
        Some(toml::Value::String(path)) => Some(State { last_visited_path: Some(path.clone()) }),
        Some(_) => None,
    }
}

#[test]
fn state_record_survives_a_round_trip_through_toml() {
    let records = [
        State::new(),
        State { last_visited_path: Some("/home/me/music".to_string()) },
        State { last_visited_path: Some("C:\\Users\\me \"mix\"".to_string()) },
        State { last_visited_path: Some(String::new()) },
    ];
    for record in records {
        assert_eq!(load_state(read_back(&written(&record))), record);
    }
}

#[test]
fn unreadable_state_file_gives_a_new_record() {
    assert_eq!(load_state(read_back("last_visited_path = 3")), State::new());
    assert_eq!(load_state(read_back("this is no toml")), State::new());
    assert_eq!(load_state(read_back("")), State::new());
    assert_eq!(load_state(read_back("other = \"x\"")), State::new());
}
