use vstd::prelude::*;
use crate::jira::tickets::TicketData;
use crate::widgets::table::parent_cells;
use crate::widgets::table::TableRow;

verus! {

/// Shows the parent of the selected ticket.
#[derive(Debug)]
pub struct TicketParentWidget {}

/// The rows of the parent table for a selection: the parent of the selected
/// ticket, where a ticket is selected and has one; no row otherwise.
pub open spec fn parent_rows(selected_ticket: Option<&TicketData>) -> Seq<Seq<Seq<char>>> {
    match selected_ticket {
        Some(ticket) => match ticket.fields.parent {
            Some(parent) => seq![parent_cells(parent)],
            None => Seq::empty(),
        },
        None => Seq::empty(),
    }
}

impl TicketParentWidget {
    pub fn new() -> Self {
        TicketParentWidget {  }
    }

    /// The rows to draw under the header of the parent table. A ticket
    /// without a parent has an empty table, which is no error.
    pub fn rows(&self, selected_ticket: Option<&TicketData>) -> (r: Vec<TableRow>)
        ensures
            r@.len() == parent_rows(selected_ticket).len(),
            forall|i: int|
                0 <= i < r@.len() ==> (#[trigger] r@[i]).wf() && r@[i].texts() == parent_rows(
                    selected_ticket,
                )[i],
    {
        let mut rows: Vec<TableRow> = Vec::new();
        if let Some(ticket) = selected_ticket {
            if let Some(parent) = &ticket.fields.parent {
                rows.push(TableRow::of_parent(parent));
            }
        }
        rows
    }
}

} // verus!
