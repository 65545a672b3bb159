//! Selection state for the task table view: which row the operator has
//! selected, moved up and down with wrap-around over however many rows the
//! record collection currently shows.

use vstd::prelude::*;

verus! {

/// The task table's own state: the selected row, if any. The rows themselves
/// are the supervisor's records and are not held here.
pub struct TaskTable {
    /// The selected row index, if a row is selected.
    pub selected: Option<usize>,
}

/// Where the selection moves on a step down: wrapping from the last row to
/// the first, selecting the first row when nothing is selected, and clearing
/// the selection of an empty table.
pub open spec fn spec_next_selection(sel: Option<usize>, num_rows: usize) -> Option<usize> {
    if num_rows == 0 {
        None
    } else {
        match sel {
            Some(old_sel) => if old_sel >= num_rows - 1 {
                Some(0usize)
            } else {
                Some((old_sel + 1) as usize)
            },
            None => Some(0usize),
        }
    }
}

/// Where the selection moves on a step up: wrapping from the first row to the
/// last, selecting the first row when nothing is selected, and clearing the
/// selection of an empty table.
pub open spec fn spec_previous_selection(sel: Option<usize>, num_rows: usize) -> Option<usize> {
    if num_rows == 0 {
        None
    } else {
        match sel {
            Some(old_sel) => if old_sel == 0 {
                Some((num_rows - 1) as usize)
            } else {
                Some((old_sel - 1) as usize)
            },
            None => Some(0usize),
        }
    }
}

impl Default for TaskTable {
    /// A fresh table starts with its first row selected.
    fn default() -> (t: TaskTable)
        ensures
            t.selected == Some(0usize),
    {
        TaskTable { selected: Some(0) }
    }
}

impl TaskTable {
    /// Select the next row of a table with `num_rows` rows, wrapping around.
    pub fn next(&mut self, num_rows: usize)
        ensures
            final(self).selected == spec_next_selection(old(self).selected, num_rows),
    {
        if num_rows == 0 {
            self.selected = None;
            return ;
        }
        let new_sel = match self.selected {
            Some(old_sel) => if old_sel >= num_rows - 1 {
                0
            } else {
                old_sel + 1
            },
            None => 0,
        };
        self.selected = Some(new_sel);
    }

    /// Select the previous row of a table with `num_rows` rows, wrapping
    /// around.
    pub fn previous(&mut self, num_rows: usize)
        ensures
            final(self).selected == spec_previous_selection(old(self).selected, num_rows),
    {
        if num_rows == 0 {
            self.selected = None;
            return ;
        }
        let new_sel = match self.selected {
            Some(old_sel) => if old_sel == 0 {
                num_rows - 1
            } else {
                old_sel - 1
            },
            None => 0,
        };
        self.selected = Some(new_sel);
    }
}

} // verus!
