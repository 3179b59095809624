//! What the player remembers between runs, and where it is kept.

use vstd::prelude::*;

verus! {

/// The state record.
#[derive(Clone, Debug, PartialEq, Eq)]
pub struct State {
    /// The directory that the user visited last, if any was recorded.
    pub last_visited_path: Option<String>,
}

/// The content of the first file that could be read; empty where none
/// could. `None` stands for a file that could not be read.
pub open spec fn first_present(reads: Seq<Option<String>>) -> Seq<char>
    decreases reads.len(),
{
    if reads.len() == 0 {
        Seq::empty()
    } else {
        match reads[0] {
            Some(content) => content@,
            None => first_present(reads.skip(1)),
        }
    }
}

/// The content of the last file that could be read; empty where none
/// could.
pub open spec fn last_present(reads: Seq<Option<String>>) -> Seq<char>
    decreases reads.len(),
{
    if reads.len() == 0 {
        Seq::empty()
    } else {
        match reads.last() {
            Some(content) => content@,
            None => last_present(reads.drop_last()),
        }
    }
}

/// Where the state record is kept, below the user's home directory.
pub fn state_file() -> (path: &'static str)
    ensures
        path@ == ".config/rustify/config/state.toml"@,
{
    ".config/rustify/config/state.toml"
}

/// Where the settings are kept, below the user's home directory.
pub fn config_file() -> (path: &'static str)
    ensures
        path@ == ".config/rustify/config/config.toml"@,
{
    ".config/rustify/config/config.toml"
}

/// Of the candidate files, read in order, the content of the first that
/// could be read.
pub fn first_readable(reads: &Vec<Option<String>>) -> (content: String)
    ensures
        content@ == first_present(reads@),
{
    let mut i: usize = 0;
    assert(reads@.skip(0) =~= reads@);
    while i < reads.len()
        invariant
            i <= reads@.len(),
            first_present(reads@) == first_present(reads@.skip(i as int)),
        decreases reads@.len() - i,
    {
        assert(reads@.skip(i as int)[0] == reads@[i as int]);
        assert(reads@.skip(i as int).skip(1) =~= reads@.skip(i as int + 1));
        match &reads[i] {
            Some(content) => {
                return content.clone();
            },
            None => {},
        }
        i += 1;
    }
    String::new()
}

/// Of the candidate files, read in order, the content of the last that
/// could be read.
pub fn last_readable(reads: &Vec<Option<String>>) -> (content: String)
    ensures
        content@ == last_present(reads@),
{
    let mut content = String::new();
    let mut i: usize = 0;
    assert(reads@.take(0) =~= Seq::<Option<String>>::empty());
    while i < reads.len()
        invariant
            i <= reads@.len(),
            content@ == last_present(reads@.take(i as int)),
        decreases reads@.len() - i,
    {
        assert(reads@.take(i as int + 1).last() == reads@[i as int]);
        assert(reads@.take(i as int + 1).drop_last() =~= reads@.take(i as int));
        match &reads[i] {
            Some(found) => {
                content = found.clone();
            },
            None => {},
        }
        i += 1;
    }
    assert(reads@.take(reads@.len() as int) =~= reads@);
    content
}

impl State {
    /// The record of a player that has visited nothing yet.
    pub fn new() -> (state: State)
        ensures
            state.last_visited_path is None,
    {
        State { last_visited_path: None }
    }
}

/// The state record to go on with. `parsed` is the record read from the
/// state file, or `None` where the file's content could not be parsed;
/// then the record is as new.
pub fn load_state(parsed: Option<State>) -> (state: State)
    ensures
        match parsed {
            Some(record) => state == record,
            None => state.last_visited_path is None,
        },
{
    match parsed {
        Some(record) => record,
        None => State::new(),
    }
}

} // verus!
