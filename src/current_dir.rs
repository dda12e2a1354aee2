//! A plain list of a directory's entries with a selection that wraps
//! around at both ends.

use vstd::prelude::*;
use crate::ftype::FileEntry;

verus! {

pub struct CurrentDir {
    /// Directory entries.
    pub items: Vec<FileEntry>,
    /// The selected item, if any.
    pub selected: Option<usize>,
}

/// One step down, from the last item back to the first.
pub open spec fn wrap_next(sel: Option<usize>, len: nat) -> Option<usize> {
    if len == 0 {
        None
    } else {
        match sel {
            Some(i) => if i + 1 >= len {
                Some(0usize)
            } else {
                Some((i + 1) as usize)
            },
            None => Some(0usize),
        }
    }
}

/// One step up, from the first item round to the last.
pub open spec fn wrap_prev(sel: Option<usize>, len: nat) -> Option<usize> {
    if len == 0 {
        None
    } else {
        match sel {
            Some(i) => if i == 0 || i >= len {
                Some((len - 1) as usize)
            } else {
                Some((i - 1) as usize)
            },
            None => Some(0usize),
        }
    }
}

impl CurrentDir {
    /// The list of `items`, with nothing selected.
    pub fn new(items: Vec<FileEntry>) -> (r: CurrentDir)
        ensures
            r.items@ == items@,
            r.selected is None,
    {
        CurrentDir { items, selected: None }
    }

    pub fn next(&mut self)
        ensures
            final(self).items == old(self).items,
            final(self).selected == wrap_next(old(self).selected, old(self).items@.len()),
    {
        let len = self.items.len();
        if len == 0 {
            self.selected = None;
        } else {
            self.selected = match self.selected {
                Some(i) => if i >= len - 1 {
                    Some(0)
                } else {
                    Some(i + 1)
                },
                None => Some(0),
            };
        }
    }

    pub fn prev(&mut self)
        ensures
            final(self).items == old(self).items,
            final(self).selected == wrap_prev(old(self).selected, old(self).items@.len()),
    {
        let len = self.items.len();
        if len == 0 {
            self.selected = None;
        } else {
            self.selected = match self.selected {
                Some(i) => if i == 0 || i >= len {
                    Some(len - 1)
                } else {
                    Some(i - 1)
                },
                None => Some(0),
            };
        }
    }

    pub fn unselect(&mut self)
        ensures
            final(self).items == old(self).items,
            final(self).selected is None,
    {
        self.selected = None;
    }
}

} // verus!
