use vstd::prelude::*;
use vstd::string::StringExecFns;
use crate::jira::error::LinkError;
use crate::jira::tickets::LinkDirection;
use crate::jira::tickets::LinkInwardOutwardParent;
use crate::jira::tickets::Links;
use crate::jira::tickets::Priority;
use crate::text::count_line_breaks;
use crate::text::line_breaks;

verus! {

/// One row of a table, ready to be drawn: the text of each cell, and the
/// number of lines that the row takes.
#[derive(Clone, Debug, PartialEq, Eq)]
pub struct TableRow {
    pub cells: Vec<String>,
    pub height: u16,
}

/// The characters of each cell.
pub open spec fn texts(cells: Seq<String>) -> Seq<Seq<char>> {
    cells.map_values(|s: String| s@)
}

/// The largest number of line breaks in any one cell.
pub open spec fn most_line_breaks(cells: Seq<Seq<char>>) -> nat
    decreases cells.len(),
{
    if cells.len() == 0 {
        0
    } else {
        let rest = most_line_breaks(cells.drop_last());
        if line_breaks(cells.last()) > rest {
            line_breaks(cells.last())
        } else {
            rest
        }
    }
}

/// A row is one line higher than the most line breaks in any of its cells,
/// and never higher than `u16::MAX` lines.
pub open spec fn row_height(cells: Seq<Seq<char>>) -> u16 {
    if most_line_breaks(cells) + 1 > u16::MAX {
        u16::MAX
    } else {
        (most_line_breaks(cells) + 1) as u16
    }
}

/// The text of the priority cell: the name of the priority, or nothing.
pub open spec fn priority_text(priority: Option<Priority>) -> Seq<char> {
    match priority {
        Some(p) => p.name@,
        None => Seq::empty(),
    }
}

/// The cells of a linked ticket in the table of relations: how the link
/// reads from this end, then the linked ticket's key, summary, priority,
/// type and status.
pub open spec fn relation_cells(link: Links) -> Seq<Seq<char>>
    recommends
        link.wf(),
{
    let ticket = link.related_spec();
    seq![
        link.relation_spec()@,
        ticket.key@,
        ticket.fields.summary@,
        priority_text(ticket.fields.priority),
        ticket.fields.issuetype.name@,
        ticket.fields.status.name@,
    ]
}

/// The cells of the parent ticket in the parent table: its key, summary,
/// priority, type and status.
pub open spec fn parent_cells(parent: LinkInwardOutwardParent) -> Seq<Seq<char>> {
    seq![
        parent.key@,
        parent.fields.summary@,
        priority_text(parent.fields.priority),
        parent.fields.issuetype.name@,
        parent.fields.status.name@,
    ]
}

fn priority_cell(priority: &Option<Priority>) -> (r: String)
    ensures
        r@ == priority_text(*priority),
{
    match priority {
        Some(p) => p.name.clone(),
        None => String::new(),
    }
}

impl TableRow {
    /// The characters of each cell of this row.
    pub open spec fn texts(&self) -> Seq<Seq<char>> {
        texts(self.cells@)
    }

    /// The height of a well-formed row is that of its cells.
    pub open spec fn wf(&self) -> bool {
        self.height == row_height(self.texts())
    }

    /// A row of the given cells, as high as they need.
    pub fn new(cells: Vec<String>) -> (r: Self)
        ensures
            r.cells == cells,
            r.wf(),
    {
        let mut most: usize = 0;
        let mut i: usize = 0;
        while i < cells.len()
            invariant
                i <= cells@.len(),
                most == most_line_breaks(texts(cells@).take(i as int)),
            decreases cells@.len() - i,
        {
            proof {
                let all = texts(cells@);
                assert(all.take(i + 1).drop_last() =~= all.take(i as int));
                assert(all.take(i + 1).last() == cells@[i as int]@);
            }
            let n = count_line_breaks(cells[i].as_str());
            if n > most {
                most = n;
            }
            i += 1;
        }
        proof {
            assert(texts(cells@).take(i as int) =~= texts(cells@));
        }
        let height: u16 = if most >= 0xffff {
            0xffff
        } else {
            (most + 1) as u16
        };
        TableRow { cells, height }
    }

    /// The row of the parent table that shows `parent`.
    pub fn of_parent(parent: &LinkInwardOutwardParent) -> (r: Self)
        ensures
            r.texts() == parent_cells(*parent),
            r.wf(),
    {
        let mut cells: Vec<String> = Vec::new();
        cells.push(parent.key.clone());
        cells.push(parent.fields.summary.clone());
        cells.push(priority_cell(&parent.fields.priority));
        cells.push(parent.fields.issuetype.name.clone());
        cells.push(parent.fields.status.name.clone());
        assert(texts(cells@) =~= parent_cells(*parent));
        TableRow::new(cells)
    }

    /// The row of the table of relations that shows `link`, or what is wrong
    /// with the link.
    pub fn of_link(link: &Links) -> (r: Result<Self, LinkError>)
        ensures
            match r {
                Ok(row) => link.wf() && row.texts() == relation_cells(*link) && row.wf(),
                Err(e) => link.direction_spec() == Err::<LinkDirection, LinkError>(e),
            },
    {
        let relation = link.relation()?;
        let ticket = link.related()?;
        let mut cells: Vec<String> = Vec::new();
        cells.push(relation.clone());
        cells.push(ticket.key.clone());
        cells.push(ticket.fields.summary.clone());
        cells.push(priority_cell(&ticket.fields.priority));
        cells.push(ticket.fields.issuetype.name.clone());
        cells.push(ticket.fields.status.name.clone());
        assert(texts(cells@) =~= relation_cells(*link));
        Ok(TableRow::new(cells))
    }
}

/// Whether `rows` are the rows of the table of relations for `links`: one
/// row for each link, in the same order.
pub open spec fn shows_links(rows: Seq<TableRow>, links: Seq<Links>) -> bool {
    &&& rows.len() == links.len()
    &&& forall|i: int|
        0 <= i < links.len() ==> {
            &&& (#[trigger] links[i]).wf()
            &&& rows[i].texts() == relation_cells(links[i])
            &&& rows[i].wf()
        }
}

/// Whether `e` is what is wrong with the first link that is not
/// well-formed.
pub open spec fn first_bad_link(links: Seq<Links>, e: LinkError) -> bool {
    exists|i: int|
        {
            &&& 0 <= i < links.len()
            &&& (#[trigger] links[i]).direction_spec() == Err::<LinkDirection, LinkError>(e)
            &&& forall|j: int| 0 <= j < i ==> (#[trigger] links[j]).wf()
        }
}

/// The rows of the table of relations for the given links. One link that
/// does not name exactly one linked ticket fails the whole table.
pub fn relation_rows(links: &Vec<Links>) -> (r: Result<Vec<TableRow>, LinkError>)
    ensures
        match r {
            Ok(rows) => shows_links(rows@, links@),
            Err(e) => first_bad_link(links@, e),
        },
{
    let mut rows: Vec<TableRow> = Vec::new();
    let mut i: usize = 0;
    while i < links.len()
        invariant
            i <= links@.len(),
            shows_links(rows@, links@.take(i as int)),
        decreases links@.len() - i,
    {
        match TableRow::of_link(&links[i]) {
            Ok(row) => {
                rows.push(row);
            },
            Err(e) => {
                proof {
                    assert forall|j: int| 0 <= j < i implies (#[trigger] links@[j]).wf() by {
                        assert(links@.take(i as int)[j] == links@[j]);
                    }
                    assert(links@[i as int].direction_spec() == Err::<LinkDirection, LinkError>(e));
                }
                return Err(e);
            },
        }
        i += 1;
        proof {
            let now = links@.take(i as int);
            let before = links@.take(i - 1);
            assert forall|j: int| 0 <= j < now.len() implies {
                &&& (#[trigger] now[j]).wf()
                &&& rows@[j].texts() == relation_cells(now[j])
                &&& rows@[j].wf()
            } by {
                if j < i - 1 {
                    assert(before[j] == now[j]);
                }
            }
        }
    }
    proof {
        assert(links@.take(i as int) =~= links@);
    }
    Ok(rows)
}

} // verus!
