//! The browsing session: the loaded entries, the selection cursor, the
//! step a keystroke causes, and the projection of the state onto one
//! terminal frame.

use vstd::prelude::*;
use crate::cursor::{cursor_view, move_next, move_previous, next_index, previous_index};
use crate::entry::{Entry, EntryModel};

verus! {

/// A keystroke as the session reads it: the two arrow keys, a character
/// key, or anything else.
#[derive(Clone, Copy, Debug, PartialEq, Eq, Structural)]
pub enum Key {
    Up,
    Down,
    Char(char),
    Other,
}

/// The session's state after a keystroke: still running, or exiting.
#[derive(Clone, Copy, Debug, PartialEq, Eq, Structural)]
pub enum Control {
    Running,
    Exiting,
}

/// A browsing session: the loaded entries, immutable for its life, and the
/// selection cursor over them.
pub struct Browser {
    pub entries: Vec<Entry>,
    pub cursor: Option<usize>,
}

impl Browser {
    /// The cursor, when set, denotes an entry of the list.
    pub open spec fn wf(self) -> bool {
        self.cursor matches Some(i) ==> i < self.entries.len()
    }

    /// Start a session over the loaded entries, with the cursor unset.
    pub fn new(entries: Vec<Entry>) -> (s: Browser)
        ensures
            s.wf(),
            s.entries == entries,
            s.cursor is None,
    {
        Browser { entries, cursor: None }
    }

    /// Step the selection forward, wrapping past the last entry.
    pub fn next(&mut self)
        requires
            old(self).wf(),
        ensures
            final (self).wf(),
            final (self).entries == old(self).entries,
            cursor_view(final (self).cursor) == next_index(
                cursor_view(old(self).cursor),
                old(self).entries.len() as int,
            ),
    {
        self.cursor = move_next(self.cursor, self.entries.len());
    }

    /// Step the selection backward, wrapping past the first entry.
    pub fn previous(&mut self)
        requires
            old(self).wf(),
        ensures
            final (self).wf(),
            final (self).entries == old(self).entries,
            cursor_view(final (self).cursor) == previous_index(
                cursor_view(old(self).cursor),
                old(self).entries.len() as int,
            ),
    {
        self.cursor = move_previous(self.cursor, self.entries.len());
    }

    /// The transition one keystroke causes: the arrow keys move the
    /// selection, `q` ends the session, and every other key changes
    /// nothing. The entry list never changes.
    pub fn handle_key(&mut self, key: Key) -> (c: Control)
        requires
            old(self).wf(),
        ensures
            final (self).wf(),
            final (self).entries == old(self).entries,
            match key {
                Key::Up => c == Control::Running && cursor_view(final (self).cursor)
                    == previous_index(
                    cursor_view(old(self).cursor),
                    old(self).entries.len() as int,
                ),
                Key::Down => c == Control::Running && cursor_view(final (self).cursor)
                    == next_index(cursor_view(old(self).cursor), old(self).entries.len() as int),
                Key::Char(ch) => final (self).cursor == old(self).cursor && c == (
                if ch == 'q' {
                    Control::Exiting
                } else {
                    Control::Running
                }),
                Key::Other => c == Control::Running && final (self).cursor == old(self).cursor,
            },
    {
        match key {
            Key::Up => {
                self.previous();
                Control::Running
            },
            Key::Down => {
                self.next();
                Control::Running
            },
            Key::Char(ch) => {
                if ch == 'q' {
                    Control::Exiting
                } else {
                    Control::Running
                }
            },
            Key::Other => Control::Running,
        }
    }
}

/// The content of one terminal frame: everything the front end draws.
pub struct FrameContent {
    /// One label per entry, in list order: the entry's simplified form.
    pub labels: Vec<String>,
    /// The list row to highlight, or none.
    pub highlighted: Option<usize>,
    /// What the seven detail panels show: the selected entry, or an
    /// all-empty placeholder when nothing is selected.
    pub detail: Entry,
}

/// What the detail panels show for a given cursor over given entries: the
/// selected entry where the cursor denotes one, and the empty placeholder
/// where the cursor is unset or out of range.
pub open spec fn detail_model(entries: Seq<EntryModel>, cursor: Option<int>) -> EntryModel {
    match cursor {
        Some(i) => if 0 <= i < entries.len() {
            entries[i]
        } else {
            EntryModel::empty()
        },
        None => EntryModel::empty(),
    }
}

impl Browser {
    /// Project the session onto one frame: every entry's label in list
    /// order, the highlighted row, and the detail panels. Reads the
    /// session, never changes it; an empty list or an unset or out-of-range
    /// cursor yields empty placeholder panels rather than a failure.
    pub fn render_content(&self) -> (fc: FrameContent)
        ensures
            fc.labels.deep_view() == self.entries.deep_view().map_values(
                |e: EntryModel| e.simplified,
            ),
            fc.highlighted == self.cursor,
            fc.detail@ == detail_model(self.entries.deep_view(), cursor_view(self.cursor)),
    {
        let mut labels: Vec<String> = Vec::new();
        let mut i: usize = 0;
        while i < self.entries.len()
            invariant
                i <= self.entries.len(),
                labels.len() == i,
                forall|j: int|
                    0 <= j < i ==> labels.deep_view()[j] == self.entries.deep_view()[j].simplified,
            decreases self.entries.len() - i,
        {
            let ghost prev = labels.deep_view();
            labels.push(self.entries[i].simplified.clone());
            proof {
                assert(labels.deep_view() =~= prev.push(self.entries@[i as int].simplified@));
            }
            i += 1;
        }
        proof {
            assert(labels.deep_view() =~= self.entries.deep_view().map_values(
                |e: EntryModel| e.simplified,
            ));
        }
        let detail = match self.cursor {
            Some(i) => if i < self.entries.len() {
                self.entries[i].clone()
            } else {
                Entry::empty()
            },
            None => Entry::empty(),
        };
        FrameContent { labels, highlighted: self.cursor, detail }
    }
}

} // verus!
