//! The library scanner: which of the entries that a walk of the music
//! directory found are songs.

use crate::text::{ascii_lower, chars_of, lowered, to_ascii_lower};
use vstd::prelude::*;

verus! {

/// One thing that the walk of the directory tree came upon.
#[derive(Clone, Debug, PartialEq, Eq)]
pub enum WalkEntry {
    /// A path, and whether a regular file lies there.
    Found { path: String, is_file: bool },
    /// A place that could not be read. It is passed over.
    Unreadable,
}

/// Where the scanner looks, and for what.
#[derive(Clone, Debug, PartialEq, Eq)]
pub struct ScanConfig {
    /// The directory whose tree is walked.
    pub root: String,
    /// The file extensions that make a song, without the dot.
    pub extensions: Vec<String>,
}

/// The `[library]` section of the settings file.
#[derive(Clone, Debug, PartialEq, Eq)]
pub struct LibrarySection {
    pub root: Option<String>,
    pub extensions: Option<Vec<String>>,
}

/// The texts that a list of strings holds.
pub open spec fn texts_of(strings: Seq<String>) -> Seq<Seq<char>> {
    Seq::new(strings.len(), |i: int| strings[i]@)
}

/// The directory that is walked where the user names none.
pub open spec fn default_root() -> Seq<char> {
    "C:/Users/user/Downloads"@
}

/// The extensions that make a song where the user names none.
pub open spec fn default_extensions() -> Seq<Seq<char>> {
    seq!["mp3"@, "wav"@, "ogg"@]
}

/// The root that a `[library]` section gives, the default where it gives
/// none.
pub open spec fn root_of(section: Option<LibrarySection>) -> Seq<char> {
    match section {
        Some(LibrarySection { root: Some(root), .. }) => root@,
        _ => default_root(),
    }
}

/// The extensions that a `[library]` section gives, the defaults where it
/// gives none.
pub open spec fn extensions_of(section: Option<LibrarySection>) -> Seq<Seq<char>> {
    match section {
        Some(LibrarySection { extensions: Some(extensions), .. }) => texts_of(extensions@),
        _ => default_extensions(),
    }
}

/// Whether `path` ends in a dot and `ext`, upper and lower case of ASCII
/// letters taken as the same.
pub open spec fn has_extension(path: Seq<char>, ext: Seq<char>) -> bool {
    &&& path.len() > ext.len()
    &&& path[path.len() - ext.len() - 1] == '.'
    &&& lowered(path.skip(path.len() - ext.len())) == lowered(ext)
}

/// Whether `path` has one of the extensions.
pub open spec fn is_song_path(path: Seq<char>, extensions: Seq<Seq<char>>) -> bool {
    exists|i: int| 0 <= i < extensions.len() && has_extension(path, #[trigger] extensions[i])
}

/// Whether an entry is a song: a regular file with one of the extensions.
pub open spec fn is_song_entry(entry: WalkEntry, extensions: Seq<Seq<char>>) -> bool {
    match entry {
        WalkEntry::Found { path, is_file } => is_file && is_song_path(path@, extensions),
        WalkEntry::Unreadable => false,
    }
}

/// The path of an entry that was found.
pub open spec fn entry_path(entry: WalkEntry) -> Seq<char> {
    match entry {
        WalkEntry::Found { path, .. } => path@,
        WalkEntry::Unreadable => Seq::empty(),
    }
}

/// The song list of a walk: the paths of the entries that are songs, in
/// the order of the walk. A path that the walk reports again is listed
/// once, at the place where it came first.
pub open spec fn songs_among(entries: Seq<WalkEntry>, extensions: Seq<Seq<char>>) -> Seq<
    Seq<char>,
>
    decreases entries.len(),
{
    if entries.len() == 0 {
        Seq::empty()
    } else {
        let before = songs_among(entries.drop_last(), extensions);
        if is_song_entry(entries.last(), extensions) && !before.contains(
            entry_path(entries.last()),
        ) {
            before.push(entry_path(entries.last()))
        } else {
            before
        }
    }
}

/// The characters that a search pattern reads as more than themselves.
pub open spec fn is_pattern_char(c: char) -> bool {
    c == '?' || c == '*' || c == '[' || c == ']'
}

/// A character as a search pattern that finds it and nothing else: a
/// pattern character stands between brackets, any other for itself.
pub open spec fn escaped_char(c: char) -> Seq<char> {
    if is_pattern_char(c) {
        seq!['[', c, ']']
    } else {
        seq![c]
    }
}

/// A text as a search pattern that finds it and nothing else.
pub open spec fn escaped(text: Seq<char>) -> Seq<char>
    decreases text.len(),
{
    if text.len() == 0 {
        Seq::empty()
    } else {
        escaped(text.drop_last()) + escaped_char(text.last())
    }
}

/// The pattern that finds the files with extension `ext` anywhere below
/// `root`. Root and extension stand in it for themselves, whatever
/// characters they hold.
pub open spec fn pattern_for(root: Seq<char>, ext: Seq<char>) -> Seq<char> {
    escaped(root) + "/**/*."@ + escaped(ext)
}

/// Whether the characters of `path` end in a dot and the characters of
/// `ext`, whatever the case of their ASCII letters.
pub fn matches_extension(path: &Vec<char>, ext: &Vec<char>) -> (r: bool)
    ensures
        r == has_extension(path@, ext@),
{
    let n = path.len();
    let m = ext.len();
    if n <= m {
        return false;
    }
    let offset: usize = n - m;
    if path[offset - 1] != '.' {
        return false;
    }
    let ghost tail = path@.skip(offset as int);
    let mut i: usize = 0;
    while i < m
        invariant
            i <= m,
            m == ext@.len(),
            n == path@.len(),
            offset == n - m,
            tail == path@.skip(offset as int),
            forall|k: int| 0 <= k < i ==> ascii_lower(#[trigger] tail[k]) == ascii_lower(ext@[k]),
        decreases m - i,
    {
        if to_ascii_lower(path[offset + i]) != to_ascii_lower(ext[i]) {
            assert(lowered(tail)[i as int] == ascii_lower(tail[i as int]));
            assert(lowered(ext@)[i as int] == ascii_lower(ext@[i as int]));
            return false;
        }
        i += 1;
    }
    assert(lowered(tail) =~= lowered(ext@));
    true
}

/// Whether `path` has one of `extensions`.
pub fn is_song(path: &str, extensions: &Vec<String>) -> (r: bool)
    ensures
        r == is_song_path(path@, texts_of(extensions@)),
{
    let chars = chars_of(path);
    let mut i: usize = 0;
    while i < extensions.len()
        invariant
            i <= extensions@.len(),
            chars@ == path@,
            forall|k: int|
                0 <= k < i ==> !has_extension(path@, #[trigger] texts_of(extensions@)[k]),
        decreases extensions@.len() - i,
    {
        let ext = chars_of(extensions[i].as_str());
        assert(texts_of(extensions@)[i as int] == ext@);
        if matches_extension(&chars, &ext) {
            return true;
        }
        i += 1;
    }
    false
}

/// Whether one of `songs` is the text `path`.
pub fn is_listed(songs: &Vec<String>, path: &String) -> (r: bool)
    ensures
        r == texts_of(songs@).contains(path@),
{
    let mut i: usize = 0;
    while i < songs.len()
        invariant
            i <= songs@.len(),
            forall|k: int| 0 <= k < i ==> texts_of(songs@)[k] != path@,
        decreases songs@.len() - i,
    {
        if songs[i] == *path {
            assert(texts_of(songs@)[i as int] == path@);
            return true;
        }
        i += 1;
    }
    false
}

/// The song list of a walk: the paths of the regular files among
/// `entries` that have one of `extensions`, in the order in which the walk
/// found them, each path once. What is no file, and what could not be
/// read, is passed over.
pub fn scan(entries: &Vec<WalkEntry>, extensions: &Vec<String>) -> (songs: Vec<String>)
    ensures
        texts_of(songs@) == songs_among(entries@, texts_of(extensions@)),
        texts_of(songs@).no_duplicates(),
{
    let mut songs: Vec<String> = Vec::new();
    let mut i: usize = 0;
    assert(texts_of(songs@) =~= songs_among(entries@.take(0), texts_of(extensions@)));
    while i < entries.len()
        invariant
            i <= entries@.len(),
            texts_of(songs@) == songs_among(entries@.take(i as int), texts_of(extensions@)),
        decreases entries@.len() - i,
    {
        let ghost before = texts_of(songs@);
        assert(entries@.take(i as int + 1).drop_last() =~= entries@.take(i as int));
        assert(entries@.take(i as int + 1).last() == entries@[i as int]);
        match &entries[i] {
            WalkEntry::Found { path, is_file } => {
                if *is_file && is_song(path.as_str(), extensions) && !is_listed(&songs, path) {
                    songs.push(path.clone());
                    assert(texts_of(songs@) =~= before.push(path@));
                }
            },
            WalkEntry::Unreadable => {},
        }
        i += 1;
    }
    assert(entries@.take(entries@.len() as int) =~= entries@);
    proof {
        lemma_song_list_has_no_duplicates(entries@, texts_of(extensions@));
    }
    songs
}

/// A copy of `text` in which every pattern character stands between
/// brackets, so that a search pattern takes the text for itself.
pub fn escape(text: &str) -> (r: String)
    ensures
        r@ == escaped(text@),
{
    let n = text.unicode_len();
    let mut r = String::new();
    let mut i: usize = 0;
    assert(text@.take(0) =~= Seq::<char>::empty());
    while i < n
        invariant
            i <= n,
            n == text@.len(),
            r@ == escaped(text@.take(i as int)),
        decreases n - i,
    {
        let c = text.get_char(i);
        assert(text@.take(i as int + 1).drop_last() =~= text@.take(i as int));
        assert(text@.take(i as int + 1).last() == c);
        if c == '?' {
            proof {
                reveal_strlit("[?]");
            }
            r.append("[?]");
            assert("[?]"@ =~= escaped_char(c));
        } else if c == '*' {
            proof {
                reveal_strlit("[*]");
            }
            r.append("[*]");
            assert("[*]"@ =~= escaped_char(c));
        } else if c == '[' {
            proof {
                reveal_strlit("[[]");
            }
            r.append("[[]");
            assert("[[]"@ =~= escaped_char(c));
        } else if c == ']' {
            proof {
                reveal_strlit("[]]");
            }
            r.append("[]]");
            assert("[]]"@ =~= escaped_char(c));
        } else {
            let piece = text.substring_char(i, i + 1);
            assert(piece@ =~= escaped_char(c));
            r.append(piece);
        }
        i += 1;
    }
    assert(text@.take(n as int) =~= text@);
    r
}

impl ScanConfig {
    /// The scanner's settings where the user gives none: the download
    /// directory, and the extensions `mp3`, `wav` and `ogg`.
    pub fn default_settings() -> (config: ScanConfig)
        ensures
            config.root@ == default_root(),
            texts_of(config.extensions@) == default_extensions(),
    {
        let mut extensions: Vec<String> = Vec::new();
        extensions.push("mp3".to_owned());
        extensions.push("wav".to_owned());
        extensions.push("ogg".to_owned());
        assert(texts_of(extensions@) =~= seq!["mp3"@, "wav"@, "ogg"@]);
        ScanConfig { root: "C:/Users/user/Downloads".to_owned(), extensions }
    }

    /// The scanner's settings that the `[library]` section of the settings
    /// gives: its root and its extensions, and for each that it leaves out
    /// the default.
    pub fn from_settings(section: Option<LibrarySection>) -> (config: ScanConfig)
        ensures
            config.root@ == root_of(section),
            texts_of(config.extensions@) == extensions_of(section),
    {
        let defaults = ScanConfig::default_settings();
        match section {
            None => defaults,
            Some(library) => {
                let root = match library.root {
                    Some(root) => root,
                    None => defaults.root,
                };
                let extensions = match library.extensions {
                    Some(extensions) => extensions,
                    None => defaults.extensions,
                };
                ScanConfig { root, extensions }
            },
        }
    }

    /// One search pattern for each extension, in their order.
    pub fn patterns(&self) -> (patterns: Vec<String>)
        ensures
            patterns@.len() == self.extensions@.len(),
            forall|i: int|
                0 <= i < patterns@.len() ==> (#[trigger] patterns@[i])@ == pattern_for(
                    self.root@,
                    self.extensions@[i]@,
                ),
    {
        let mut patterns: Vec<String> = Vec::new();
        let mut i: usize = 0;
        while i < self.extensions.len()
            invariant
                i <= self.extensions@.len(),
                patterns@.len() == i,
                forall|k: int|
                    0 <= k < i ==> (#[trigger] patterns@[k])@ == pattern_for(
                        self.root@,
                        self.extensions@[k]@,
                    ),
            decreases self.extensions@.len() - i,
        {
            let mut pattern = escape(self.root.as_str());
            pattern.append("/**/*.");
            pattern.append(escape(self.extensions[i].as_str()).as_str());
            patterns.push(pattern);
            i += 1;
        }
        patterns
    }
}

/// A path is in the song list exactly if the walk found a regular file
/// there and the path has one of the extensions.
pub proof fn lemma_song_list_members(
    entries: Seq<WalkEntry>,
    extensions: Seq<Seq<char>>,
    path: Seq<char>,
)
    ensures
        songs_among(entries, extensions).contains(path) <==> exists|i: int|
            0 <= i < entries.len() && is_song_entry(#[trigger] entries[i], extensions)
                && entry_path(entries[i]) == path,
    decreases entries.len(),
{
    if entries.len() > 0 {
        let rest = entries.drop_last();
        let before = songs_among(rest, extensions);
        let all = songs_among(entries, extensions);
        lemma_song_list_members(rest, extensions, path);
        if all.contains(path) {
            if before.contains(path) {
                let i = choose|i: int|
                    0 <= i < rest.len() && is_song_entry(#[trigger] rest[i], extensions)
                        && entry_path(rest[i]) == path;
                assert(entries[i] == rest[i]);
            } else {
                let k = choose|k: int| 0 <= k < all.len() && all[k] == path;
                if k < before.len() {
                    assert(before[k] == path);
                }
                assert(entries[entries.len() - 1] == entries.last());
            }
        }
        if exists|i: int|
            0 <= i < entries.len() && is_song_entry(#[trigger] entries[i], extensions)
                && entry_path(entries[i]) == path {
            let i = choose|i: int|
                0 <= i < entries.len() && is_song_entry(#[trigger] entries[i], extensions)
                    && entry_path(entries[i]) == path;
            if i < rest.len() {
                assert(rest[i] == entries[i]);
            }
            if before.contains(path) {
                let k = choose|k: int| 0 <= k < before.len() && before[k] == path;
                assert(all[k] == path);
            } else {
                assert(all == before.push(path));
                assert(all[before.len() as int] == path);
            }
        }
    }
}

/// No path is in the song list twice, however often the walk reports it.
pub proof fn lemma_song_list_has_no_duplicates(
    entries: Seq<WalkEntry>,
    extensions: Seq<Seq<char>>,
)
    ensures
        songs_among(entries, extensions).no_duplicates(),
    decreases entries.len(),
{
    if entries.len() > 0 {
        lemma_song_list_has_no_duplicates(entries.drop_last(), extensions);
    }
}

/// A walk that found no song gives the empty song list; so does the walk
/// of an empty directory.
pub proof fn lemma_no_songs_found(entries: Seq<WalkEntry>, extensions: Seq<Seq<char>>)
    requires
        forall|i: int| 0 <= i < entries.len() ==> !is_song_entry(#[trigger] entries[i], extensions),
    ensures
        songs_among(entries, extensions) == Seq::<Seq<char>>::empty(),
    decreases entries.len(),
{
    if entries.len() > 0 {
        assert forall|i: int| 0 <= i < entries.drop_last().len() implies !is_song_entry(
            #[trigger] entries.drop_last()[i],
            extensions,
        ) by {
            assert(entries.drop_last()[i] == entries[i]);
        }
        lemma_no_songs_found(entries.drop_last(), extensions);
        assert(entries.last() == entries[entries.len() - 1]);
    }
}

} // verus!
