//! The cursor over the song list.

use vstd::prelude::*;

verus! {

/// The user's place in the song list: the index of the selected song, or
/// `None` while the list is empty.
#[derive(Clone, Copy, Debug, PartialEq, Eq)]
pub struct Selection {
    pub cursor: Option<usize>,
}

/// Whether `cursor` is a place in a list of `len` songs: an index below
/// `len`, and no index at all exactly when the list is empty.
pub open spec fn cursor_fits(cursor: Option<usize>, len: nat) -> bool {
    match cursor {
        Some(c) => c < len,
        None => len == 0,
    }
}

/// The cursor after one step up: one less, but never below zero.
pub open spec fn moved_up(cursor: Option<usize>) -> Option<usize> {
    match cursor {
        Some(c) => Some(vstd::math::max(c - 1, 0) as usize),
        None => None,
    }
}

/// The cursor after one step down in a list of `len` songs: one more, but
/// never beyond the last index. In an empty list nothing moves.
pub open spec fn moved_down(cursor: Option<usize>, len: nat) -> Option<usize> {
    match cursor {
        Some(c) => if len == 0 {
            Some(c)
        } else {
            Some(vstd::math::min(c + 1, len - 1) as usize)
        },
        None => None,
    }
}

/// The cursor after `times` steps up.
pub open spec fn moved_up_by(cursor: Option<usize>, times: nat) -> Option<usize>
    decreases times,
{
    if times == 0 {
        cursor
    } else {
        moved_up(moved_up_by(cursor, (times - 1) as nat))
    }
}

/// The cursor after `times` steps down in a list of `len` songs.
pub open spec fn moved_down_by(cursor: Option<usize>, len: nat, times: nat) -> Option<usize>
    decreases times,
{
    if times == 0 {
        cursor
    } else {
        moved_down(moved_down_by(cursor, len, (times - 1) as nat), len)
    }
}

/// The cursor that a freshly filled list of `len` songs starts with.
pub open spec fn start_cursor(len: nat) -> Option<usize> {
    if len == 0 {
        None
    } else {
        Some(0)
    }
}

/// The song under the cursor, if the cursor is a place in the list.
pub open spec fn song_at(cursor: Option<usize>, songs: Seq<String>) -> Option<String> {
    match cursor {
        Some(c) => if c < songs.len() {
            Some(songs[c as int])
        } else {
            None
        },
        None => None,
    }
}

impl Selection {
    pub open spec fn fits(&self, len: nat) -> bool {
        cursor_fits(self.cursor, len)
    }

    /// The selection over an empty list.
    pub fn empty() -> (s: Selection)
        ensures
            s.cursor is None,
            s.fits(0),
    {
        Selection { cursor: None }
    }

    /// The selection over a list that was just filled with `len` songs: the
    /// first song, or nothing where there is none.
    pub fn reset(len: usize) -> (s: Selection)
        ensures
            s.cursor == start_cursor(len as nat),
            s.fits(len as nat),
    {
        if len == 0 {
            Selection { cursor: None }
        } else {
            Selection { cursor: Some(0) }
        }
    }

    /// One step towards the start of the list; nothing happens at the first
    /// song or in an empty list.
    pub fn move_up(&mut self)
        ensures
            final(self).cursor == moved_up(old(self).cursor),
            forall|len: nat| old(self).fits(len) ==> final(self).fits(len),
    {
        match self.cursor {
            Some(c) => {
                if c > 0 {
                    self.cursor = Some(c - 1);
                }
            },
            None => {},
        }
    }

    /// One step towards the end of a list of `len` songs; nothing happens
    /// at the last song or in an empty list.
    pub fn move_down(&mut self, len: usize)
        ensures
            final(self).cursor == moved_down(old(self).cursor, len as nat),
            old(self).fits(len as nat) ==> final(self).fits(len as nat),
    {
        match self.cursor {
            Some(c) => {
                if len > 0 {
                    if c < len - 1 {
                        self.cursor = Some(c + 1);
                    } else {
                        self.cursor = Some(len - 1);
                    }
                }
            },
            None => {},
        }
    }

    /// The selected song, or `None` where the cursor is no place in `songs`.
    pub fn current<'a>(&self, songs: &'a Vec<String>) -> (song: Option<&'a String>)
        ensures
            match song {
                Some(path) => song_at(self.cursor, songs@) == Some(*path),
                None => song_at(self.cursor, songs@) is None,
            },
            self.fits(songs@.len()) ==> (song is None <==> songs@.len() == 0),
    {
        match self.cursor {
            Some(c) => {
                if c < songs.len() {
                    Some(&songs[c])
                } else {
                    None
                }
            },
            None => None,
        }
    }
}

/// In a list that is not empty, a step in either direction leaves the
/// cursor at an index of the list.
pub proof fn lemma_moves_stay_in_range(cursor: Option<usize>, len: nat)
    requires
        len > 0,
        cursor_fits(cursor, len),
    ensures
        moved_up(cursor) matches Some(c) && 0 <= c < len,
        moved_down(cursor, len) matches Some(c) && 0 <= c < len,
{
}

/// However often the cursor is moved up from the first song, it stays
/// there.
pub proof fn lemma_move_up_at_first_stays(times: nat)
    ensures
        moved_up_by(Some(0usize), times) == Some(0usize),
    decreases times,
{
    if times > 0 {
        lemma_move_up_at_first_stays((times - 1) as nat);
    }
}

/// However often the cursor is moved down from the last song, it stays
/// there.
pub proof fn lemma_move_down_at_last_stays(len: usize, times: nat)
    requires
        len > 0,
    ensures
        moved_down_by(Some((len - 1) as usize), len as nat, times) == Some((len - 1) as usize),
    decreases times,
{
    if times > 0 {
        lemma_move_down_at_last_stays(len, (times - 1) as nat);
    }
}

/// In an empty list neither step moves anything, whatever the cursor holds.
pub proof fn lemma_moves_in_empty_list(cursor: Option<usize>)
    ensures
        moved_down(cursor, 0) == cursor,
        moved_up(None) == None::<usize>,
{
}

} // verus!
