//! The cursor of a table: which row is selected, if any.
//!
//! A table without rows has no selection; a table with rows always has one.
//! Moving stops at the first and at the last row.

use vstd::prelude::*;

verus! {

/// Whether a selection fits a table of `row_count` rows: none where the
/// table is empty, else a row of the table.
pub open spec fn valid_for(index: Option<usize>, row_count: nat) -> bool {
    match index {
        None => row_count == 0,
        Some(i) => i < row_count,
    }
}

/// The selection after one step up: one row nearer to the first, where there
/// is one.
pub open spec fn moved_up(index: Option<usize>) -> Option<usize> {
    match index {
        Some(i) => if i > 0 {
            Some((i - 1) as usize)
        } else {
            Some(i)
        },
        None => None,
    }
}

/// The selection after one step down in a table of `row_count` rows: one row
/// nearer to the last, where there is one.
pub open spec fn moved_down(index: Option<usize>, row_count: nat) -> Option<usize> {
    match index {
        Some(i) => if i + 1 < row_count {
            Some((i + 1) as usize)
        } else {
            Some(i)
        },
        None => None,
    }
}

/// The selection brought into a table of `row_count` rows: none where the
/// table is empty; the same row where the table still has it; the last row
/// where it lies beyond; the first row where nothing was selected.
pub open spec fn clamped(index: Option<usize>, row_count: nat) -> Option<usize> {
    if row_count == 0 {
        None
    } else {
        match index {
            Some(i) => if i < row_count {
                Some(i)
            } else {
                Some((row_count - 1) as usize)
            },
            None => Some(0),
        }
    }
}

/// The selection after `n` steps up.
pub open spec fn moved_up_times(index: Option<usize>, n: nat) -> Option<usize>
    decreases n,
{
    if n == 0 {
        index
    } else {
        moved_up(moved_up_times(index, (n - 1) as nat))
    }
}

/// The selection after `n` steps down.
pub open spec fn moved_down_times(index: Option<usize>, row_count: nat, n: nat) -> Option<usize>
    decreases n,
{
    if n == 0 {
        index
    } else {
        moved_down(moved_down_times(index, row_count, (n - 1) as nat), row_count)
    }
}

/// The cursor of a table.
#[derive(Clone, Copy, Debug)]
pub struct Selection {
    pub index: Option<usize>,
}

impl Selection {
    /// Nothing selected.
    pub fn new() -> (selection: Selection)
        ensures
            selection.index is None,
    {
        Selection { index: None }
    }

    /// The selected row, if any.
    pub fn selected(&self) -> (index: Option<usize>)
        ensures
            index == self.index,
    {
        self.index
    }

    /// One step up; at the first row nothing changes.
    pub fn move_up(&mut self)
        ensures
            final(self).index == moved_up(old(self).index),
    {
        match self.index {
            Some(i) => {
                if i > 0 {
                    self.index = Some(i - 1);
                }
            },
            None => {},
        }
    }

    /// One step down in a table of `row_count` rows; at the last row nothing
    /// changes.
    pub fn move_down(&mut self, row_count: usize)
        ensures
            final(self).index == moved_down(old(self).index, row_count as nat),
    {
        match self.index {
            Some(i) => {
                if i < usize::MAX && i + 1 < row_count {
                    self.index = Some(i + 1);
                }
            },
            None => {},
        }
    }

    /// Brings the selection into a table of `row_count` rows.
    pub fn clamp_to(&mut self, row_count: usize)
        ensures
            final(self).index == clamped(old(self).index, row_count as nat),
            valid_for(final(self).index, row_count as nat),
    {
        if row_count == 0 {
            self.index = None;
        } else {
            match self.index {
                Some(i) => {
                    if i >= row_count {
                        self.index = Some(row_count - 1);
                    }
                },
                None => {
                    self.index = Some(0);
                },
            }
        }
    }

    /// Selects nothing.
    pub fn reset(&mut self)
        ensures
            final(self).index is None,
    {
        self.index = None;
    }
}

/// A selection brought into a table fits it: it is none exactly where the
/// table has no rows, and else a row of the table.
pub proof fn lemma_clamped_fits(index: Option<usize>, row_count: nat)
    ensures
        valid_for(clamped(index, row_count), row_count),
        clamped(index, row_count) is None <==> row_count == 0,
        clamped(index, row_count) is Some ==> clamped(index, row_count).unwrap() < row_count,
        valid_for(index, row_count) && row_count > 0 ==> clamped(index, row_count) == index,
{
}

/// A step up or down from a row of the table ends on a row of the table.
pub proof fn lemma_moves_stay_inside(index: Option<usize>, row_count: nat)
    requires
        valid_for(index, row_count),
    ensures
        valid_for(moved_up(index), row_count),
        valid_for(moved_down(index, row_count), row_count),
{
}

/// However many steps are made, the selection stays on a row of the table.
pub proof fn lemma_repeated_moves_stay_inside(index: Option<usize>, row_count: nat, n: nat)
    requires
        valid_for(index, row_count),
    ensures
        valid_for(moved_up_times(index, n), row_count),
        valid_for(moved_down_times(index, row_count, n), row_count),
    decreases n,
{
    if n > 0 {
        lemma_repeated_moves_stay_inside(index, row_count, (n - 1) as nat);
    }
}

/// Steps up from the first row stay on the first row.
pub proof fn lemma_up_stays_at_first(n: nat)
    ensures
        moved_up_times(Some(0usize), n) == Some(0usize),
    decreases n,
{
    if n > 0 {
        lemma_up_stays_at_first((n - 1) as nat);
    }
}

/// Steps down from the last row stay on the last row.
pub proof fn lemma_down_stays_at_last(row_count: usize, n: nat)
    requires
        row_count > 0,
    ensures
        moved_down_times(Some((row_count - 1) as usize), row_count as nat, n) == Some(
            (row_count - 1) as usize,
        ),
    decreases n,
{
    if n > 0 {
        lemma_down_stays_at_last(row_count, (n - 1) as nat);
    }
}

} // verus!
