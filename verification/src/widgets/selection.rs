use vstd::prelude::*;
use tui::widgets::ListState;
use tui::widgets::TableState;

verus! {

/// tui's cursor state of a list: an offset and the selected row, both private.
#[verifier::external_type_specification]
#[verifier::external_body]
pub struct ExListState(tui::widgets::ListState);

/// tui's cursor state of a table: an offset and the selected row, both private.
#[verifier::external_type_specification]
#[verifier::external_body]
pub struct ExTableState(tui::widgets::TableState);

/// The row that a `ListState` holds as selected: what `ListState::selected` returns.
pub uninterp spec fn list_selected(state: ListState) -> Option<usize>;

/// The row that a `TableState` holds as selected: what `TableState::selected` returns.
pub uninterp spec fn table_selected(state: TableState) -> Option<usize>;

/// `ListState::selected` returns the stored selection.
pub assume_specification[ ListState::selected ](state: &ListState) -> (r: Option<usize>)
    ensures
        r == list_selected(*state),
;

/// `ListState::select` stores the given selection (and resets the private
/// scroll offset when the selection is cleared).
pub assume_specification[ ListState::select ](state: &mut ListState, index: Option<usize>)
    ensures
        list_selected(*final(state)) == index,
;

/// The derived `ListState::default` starts with nothing selected.
pub assume_specification[ <ListState as Default>::default ]() -> (r: ListState)
    ensures
        list_selected(r) is None,
;

/// `TableState::selected` returns the stored selection.
pub assume_specification[ TableState::selected ](state: &TableState) -> (r: Option<usize>)
    ensures
        r == table_selected(*state),
;

/// `TableState::select` stores the given selection (and resets the private
/// scroll offset when the selection is cleared).
pub assume_specification[ TableState::select ](state: &mut TableState, index: Option<usize>)
    ensures
        table_selected(*final(state)) == index,
;

/// The derived `TableState::default` starts with nothing selected.
pub assume_specification[ <TableState as Default>::default ]() -> (r: TableState)
    ensures
        table_selected(r) is None,
;

/// Where a cursor stands after moving `line` rows towards the end of a list of
/// `len` rows: never past the last row. An empty list and an absent cursor
/// stay as they are.
pub open spec fn moved_down(selected: Option<usize>, line: usize, len: usize) -> Option<usize> {
    match selected {
        Some(i) if len > 0 => Some(
            if i + line >= len {
                (len - 1) as usize
            } else {
                (i + line) as usize
            },
        ),
        _ => selected,
    }
}

/// Where a cursor stands after moving `line` rows towards the start of a list
/// of `len` rows: never before the first row, and never past the last.
pub open spec fn moved_up(selected: Option<usize>, line: usize, len: usize) -> Option<usize> {
    match selected {
        Some(i) if len > 0 => Some(
            if i <= line {
                0usize
            } else if i - line >= len {
                (len - 1) as usize
            } else {
                (i - line) as usize
            },
        ),
        _ => selected,
    }
}

/// Where a cursor stands after a jump to the first row.
pub open spec fn moved_to_top(selected: Option<usize>, len: usize) -> Option<usize> {
    if len > 0 {
        Some(0usize)
    } else {
        selected
    }
}

/// Where a cursor stands after a jump to the last row.
pub open spec fn moved_to_bottom(selected: Option<usize>, len: usize) -> Option<usize> {
    if len > 0 {
        Some((len - 1) as usize)
    } else {
        selected
    }
}

/// A cursor is in range when it is absent or points at an existing row.
pub open spec fn in_range(selected: Option<usize>, len: usize) -> bool {
    match selected {
        Some(i) => i < len,
        None => true,
    }
}

pub fn move_down(selected: Option<usize>, line: usize, len: usize) -> (r: Option<usize>)
    ensures
        r == moved_down(selected, line, len),
{
    match selected {
        Some(i) => {
            if len == 0 {
                selected
            } else if line >= len || i >= len - line {
                Some(len - 1)
            } else {
                Some(i + line)
            }
        },
        None => None,
    }
}

pub fn move_up(selected: Option<usize>, line: usize, len: usize) -> (r: Option<usize>)
    ensures
        r == moved_up(selected, line, len),
{
    match selected {
        Some(i) => {
            if len == 0 {
                selected
            } else if i <= line {
                Some(0)
            } else if i - line >= len {
                Some(len - 1)
            } else {
                Some(i - line)
            }
        },
        None => None,
    }
}

pub fn move_to_top(selected: Option<usize>, len: usize) -> (r: Option<usize>)
    ensures
        r == moved_to_top(selected, len),
{
    if len > 0 {
        Some(0)
    } else {
        selected
    }
}

pub fn move_to_bottom(selected: Option<usize>, len: usize) -> (r: Option<usize>)
    ensures
        r == moved_to_bottom(selected, len),
{
    if len > 0 {
        Some(len - 1)
    } else {
        selected
    }
}

/// Every cursor movement on a non-empty list ends in range, wherever the
/// cursor stood; on an empty list nothing moves.
pub proof fn lemma_moves_stay_in_range(selected: Option<usize>, line: usize, len: usize)
    ensures
        len > 0 ==> in_range(moved_down(selected, line, len), len),
        len > 0 ==> in_range(moved_up(selected, line, len), len),
        len > 0 ==> in_range(moved_to_top(selected, len), len),
        len > 0 ==> in_range(moved_to_bottom(selected, len), len),
        len == 0 ==> moved_down(selected, line, len) == selected,
        len == 0 ==> moved_up(selected, line, len) == selected,
        len == 0 ==> moved_to_top(selected, len) == selected,
        len == 0 ==> moved_to_bottom(selected, len) == selected,
{
}

} // verus!
