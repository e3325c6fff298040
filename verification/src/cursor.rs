//! The selection cursor: an optional index into the entry list, moved one
//! step at a time with wrap-around at both ends.

use vstd::prelude::*;

verus! {

/// The mathematical value of an optional index.
pub open spec fn cursor_view(cursor: Option<usize>) -> Option<int> {
    match cursor {
        Some(i) => Some(i as int),
        None => None,
    }
}

/// Where the selection lands after a step forward over `len` entries:
/// unset stays unset on an empty list and otherwise lands on the first
/// entry; the last entry wraps to the first; anything else advances by one.
pub open spec fn next_index(cursor: Option<int>, len: int) -> Option<int> {
    if len <= 0 {
        None
    } else {
        match cursor {
            None => Some(0int),
            Some(i) => if i >= len - 1 {
                Some(0int)
            } else {
                Some(i + 1)
            },
        }
    }
}

/// Where the selection lands after a step backward over `len` entries:
/// unset stays unset on an empty list and otherwise lands on the first
/// entry; the first entry wraps to the last; anything else retreats by one.
pub open spec fn previous_index(cursor: Option<int>, len: int) -> Option<int> {
    if len <= 0 {
        None
    } else {
        match cursor {
            None => Some(0int),
            Some(i) => if i == 0 {
                Some(len - 1)
            } else {
                Some(i - 1)
            },
        }
    }
}

/// Step the cursor forward over a list of `len` entries.
pub fn move_next(cursor: Option<usize>, len: usize) -> (r: Option<usize>)
    ensures
        cursor_view(r) == next_index(cursor_view(cursor), len as int),
{
    if len == 0 {
        None
    } else {
        match cursor {
            None => Some(0),
            Some(i) => if i >= len - 1 {
                Some(0)
            } else {
                Some(i + 1)
            },
        }
    }
}

/// Step the cursor backward over a list of `len` entries.
pub fn move_previous(cursor: Option<usize>, len: usize) -> (r: Option<usize>)
    ensures
        cursor_view(r) == previous_index(cursor_view(cursor), len as int),
{
    if len == 0 {
        None
    } else {
        match cursor {
            None => Some(0),
            Some(i) => if i == 0 {
                Some(len - 1)
            } else {
                Some(i - 1)
            },
        }
    }
}

/// Law: a step in either direction from a valid or unset cursor never
/// yields an index at or past `len`, and yields unset exactly when the
/// list is empty.
pub proof fn lemma_move_stays_in_range(cursor: Option<int>, len: int)
    requires
        len >= 0,
        cursor is Some ==> 0 <= cursor->0 < len,
    ensures
        len == 0 ==> next_index(cursor, len) is None,
        len == 0 ==> previous_index(cursor, len) is None,
        len > 0 ==> next_index(cursor, len) is Some && 0 <= next_index(cursor, len)->0 < len,
        len > 0 ==> previous_index(cursor, len) is Some && 0 <= previous_index(cursor, len)->0
            < len,
{
}

/// Law: on a non-empty list the cursor wraps around: a step forward from
/// the last entry lands on the first, and a step backward from the first
/// lands on the last.
pub proof fn lemma_move_wraps(len: int)
    requires
        len > 0,
    ensures
        next_index(Some(len - 1), len) == Some(0int),
        previous_index(Some(0int), len) == Some(len - 1),
{
}

} // verus!
