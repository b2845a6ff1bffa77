use vstd::prelude::*;
use tui::widgets::TableState;
use crate::config::KeyConfig;
use crate::event::key::Key;
use crate::jira::error::LinkError;
use crate::jira::tickets::LinkDirection;
use crate::jira::tickets::Links;
use crate::jira::tickets::TicketData;
use crate::jira::transport::browse_url;
use crate::jira::transport::browse_url_spec;
use crate::widgets::selection::move_down;
use crate::widgets::selection::move_to_bottom;
use crate::widgets::selection::move_to_top;
use crate::widgets::selection::move_up;
use crate::widgets::selection::moved_down;
use crate::widgets::selection::moved_to_bottom;
use crate::widgets::selection::moved_to_top;
use crate::widgets::selection::moved_up;
use crate::widgets::selection::table_selected;
use crate::widgets::table::first_bad_link;
use crate::widgets::table::relation_rows;
use crate::widgets::table::shows_links;
use crate::widgets::table::TableRow;
use crate::widgets::EventState;

verus! {

/// Shows the tickets that the selected ticket is linked to, and opens one of
/// them in a browser.
#[derive(Debug)]
pub struct RelationWidget {
    jira_domain: String,
    key_config: KeyConfig,
    state: TableState,
    ticket_links: Vec<Links>,
}

/// What a key did to the table of relations.
#[derive(Clone, Debug, PartialEq, Eq)]
pub struct RelationEvent {
    pub state: EventState,
    /// The address that the application is to open in a browser.
    pub open_url: Option<String>,
}

/// The state of a `RelationWidget` as its key handling sees it.
pub struct RelationView {
    pub jira_domain: Seq<char>,
    pub key_config: KeyConfig,
    pub ticket_links: Seq<Links>,
    /// The cursor in the table.
    pub selected: Option<usize>,
}

/// Something that a key asks the table of relations to do.
#[derive(Clone, Copy, Debug, PartialEq, Eq, Structural)]
pub enum RelationAction {
    Next(usize),
    Previous(usize),
    GoToTop,
    GoToBottom,
    OpenBrowser,
}

impl RelationView {
    pub open spec fn initial(key_config: KeyConfig, jira_domain: Seq<char>) -> Self {
        RelationView { jira_domain, key_config, ticket_links: Seq::empty(), selected: None }
    }

    pub open spec fn selected_link(self) -> Option<Links> {
        match self.selected {
            Some(i) if i < self.ticket_links.len() => Some(self.ticket_links[i as int]),
            _ => None,
        }
    }

    pub open spec fn next(self, line: usize) -> Self {
        RelationView {
            selected: moved_down(self.selected, line, self.ticket_links.len() as usize),
            ..self
        }
    }

    pub open spec fn previous(self, line: usize) -> Self {
        RelationView {
            selected: moved_up(self.selected, line, self.ticket_links.len() as usize),
            ..self
        }
    }

    pub open spec fn go_to_top(self) -> Self {
        RelationView {
            selected: moved_to_top(self.selected, self.ticket_links.len() as usize),
            ..self
        }
    }

    pub open spec fn go_to_bottom(self) -> Self {
        RelationView {
            selected: moved_to_bottom(self.selected, self.ticket_links.len() as usize),
            ..self
        }
    }

    /// What a key asks for. Where one key is bound to several actions, the
    /// first in this order wins.
    pub open spec fn action(self, key: Key) -> Option<RelationAction> {
        let c = self.key_config;
        if key == c.scroll_down {
            Some(RelationAction::Next(1))
        } else if key == c.scroll_up {
            Some(RelationAction::Previous(1))
        } else if key == c.scroll_down_multiple_lines {
            Some(RelationAction::Next(10))
        } else if key == c.scroll_up_multiple_lines {
            Some(RelationAction::Previous(10))
        } else if key == c.scroll_to_bottom {
            Some(RelationAction::GoToBottom)
        } else if key == c.open_browser {
            Some(RelationAction::OpenBrowser)
        } else if key == c.scroll_to_top {
            Some(RelationAction::GoToTop)
        } else {
            None
        }
    }

    /// The widget after an action; opening a browser leaves it as it is.
    pub open spec fn apply(self, action: RelationAction) -> Self {
        match action {
            RelationAction::Next(line) => self.next(line),
            RelationAction::Previous(line) => self.previous(line),
            RelationAction::GoToTop => self.go_to_top(),
            RelationAction::GoToBottom => self.go_to_bottom(),
            RelationAction::OpenBrowser => self,
        }
    }

    /// The widget after one key.
    pub open spec fn event(self, key: Key) -> Self {
        match self.action(key) {
            Some(action) => self.apply(action),
            None => self,
        }
    }

    /// The cursor after the table was refreshed: none while the table is not
    /// focused; the first row when the table gets the focus without a link
    /// under its cursor; else as it was.
    pub open spec fn focused_selection(self, focused: bool) -> Option<usize> {
        if !focused {
            None
        } else if self.selected_link() is None {
            Some(0usize)
        } else {
            self.selected
        }
    }
}

impl View for RelationWidget {
    type V = RelationView;

    closed spec fn view(&self) -> RelationView {
        RelationView {
            jira_domain: self.jira_domain@,
            key_config: self.key_config,
            ticket_links: self.ticket_links@,
            selected: table_selected(self.state),
        }
    }
}

impl RelationWidget {
    pub fn new(key_config: KeyConfig, jira_domain: &str) -> (r: Self)
        ensures
            r@ == RelationView::initial(key_config, jira_domain@),
    {
        RelationWidget {
            jira_domain: jira_domain.to_owned(),
            key_config,
            ticket_links: Vec::new(),
            state: TableState::default(),
        }
    }

    /// Moves the cursor `line` links down, at most to the last one.
    pub fn next(&mut self, line: usize)
        ensures
            final(self)@ == old(self)@.next(line),
    {
        let i = move_down(self.state.selected(), line, self.ticket_links.len());
        self.state.select(i);
    }

    /// Moves the cursor `line` links up, at most to the first one.
    pub fn previous(&mut self, line: usize)
        ensures
            final(self)@ == old(self)@.previous(line),
    {
        let i = move_up(self.state.selected(), line, self.ticket_links.len());
        self.state.select(i);
    }

    pub fn go_to_top(&mut self)
        ensures
            final(self)@ == old(self)@.go_to_top(),
    {
        let i = move_to_top(self.state.selected(), self.ticket_links.len());
        self.state.select(i);
    }

    pub fn go_to_bottom(&mut self)
        ensures
            final(self)@ == old(self)@.go_to_bottom(),
    {
        let i = move_to_bottom(self.state.selected(), self.ticket_links.len());
        self.state.select(i);
    }

    /// The link under the cursor.
    pub fn selected(&self) -> (r: Option<&Links>)
        ensures
            match r {
                Some(link) => self@.selected_link() == Some(*link),
                None => self@.selected_link() is None,
            },
    {
        match self.state.selected() {
            Some(i) => if i < self.ticket_links.len() {
                Some(&self.ticket_links[i])
            } else {
                None
            },
            None => None,
        }
    }

    /// The address at which a browser shows the linked ticket under the
    /// cursor, for the application to open; `None` where no link is under
    /// the cursor. A link that does not name exactly one ticket is an error.
    pub fn open_browser(&self) -> (r: Result<Option<String>, LinkError>)
        ensures
            match self@.selected_link() {
                None => r == Ok::<Option<String>, LinkError>(None),
                Some(link) => match link.direction_spec() {
                    Ok(_) => r is Ok && r->Ok_0 is Some && r->Ok_0->0@ == browse_url_spec(
                        self@.jira_domain,
                        link.related_spec().key@,
                    ),
                    Err(e) => r == Err::<Option<String>, LinkError>(e),
                },
            },
    {
        match self.selected() {
            None => Ok(None),
            Some(link) => {
                let ticket = link.related()?;
                Ok(Some(browse_url(self.jira_domain.as_str(), ticket.key.as_str())))
            },
        }
    }

    fn action(&self, key: Key) -> (r: Option<RelationAction>)
        ensures
            r == self@.action(key),
    {
        if key == self.key_config.scroll_down {
            Some(RelationAction::Next(1))
        } else if key == self.key_config.scroll_up {
            Some(RelationAction::Previous(1))
        } else if key == self.key_config.scroll_down_multiple_lines {
            Some(RelationAction::Next(10))
        } else if key == self.key_config.scroll_up_multiple_lines {
            Some(RelationAction::Previous(10))
        } else if key == self.key_config.scroll_to_bottom {
            Some(RelationAction::GoToBottom)
        } else if key == self.key_config.open_browser {
            Some(RelationAction::OpenBrowser)
        } else if key == self.key_config.scroll_to_top {
            Some(RelationAction::GoToTop)
        } else {
            None
        }
    }

    /// Handles one key. A key that is bound to nothing here is not consumed.
    /// The key that opens the browser hands out the address to open and
    /// moves nothing; an error leaves the widget as it was.
    pub fn event(&mut self, key: Key) -> (r: Result<RelationEvent, LinkError>)
        ensures
            r is Ok ==> final(self)@ == old(self)@.event(key),
            r is Err ==> *final(self) == *old(self),
            match old(self)@.action(key) {
                None => r == Ok::<RelationEvent, LinkError>(
                    RelationEvent { state: EventState::NotConsumed, open_url: None },
                ),
                Some(RelationAction::OpenBrowser) => match old(self)@.selected_link() {
                    None => r == Ok::<RelationEvent, LinkError>(
                        RelationEvent { state: EventState::Consumed, open_url: None },
                    ),
                    Some(link) => match link.direction_spec() {
                        Ok(_) => {
                            &&& r is Ok
                            &&& r->Ok_0.state == EventState::Consumed
                            &&& r->Ok_0.open_url is Some
                            &&& r->Ok_0.open_url->0@ == browse_url_spec(
                                old(self)@.jira_domain,
                                link.related_spec().key@,
                            )
                        },
                        Err(e) => r == Err::<RelationEvent, LinkError>(e),
                    },
                },
                Some(_) => r == Ok::<RelationEvent, LinkError>(
                    RelationEvent { state: EventState::Consumed, open_url: None },
                ),
            },
    {
        let action = match self.action(key) {
            None => {
                return Ok(RelationEvent { state: EventState::NotConsumed, open_url: None });
            },
            Some(a) => a,
        };
        let mut open_url: Option<String> = None;
        match action {
            RelationAction::Next(line) => self.next(line),
            RelationAction::Previous(line) => self.previous(line),
            RelationAction::GoToTop => self.go_to_top(),
            RelationAction::GoToBottom => self.go_to_bottom(),
            RelationAction::OpenBrowser => {
                open_url = self.open_browser()?;
            },
        }
        Ok(RelationEvent { state: EventState::Consumed, open_url })
    }

    /// Takes over the links of the selected ticket and returns the rows to
    /// draw for them. The cursor goes away while the table is not focused,
    /// and to the first row when the table gets the focus without a link
    /// under its cursor. Without a selected ticket there is nothing to draw
    /// and nothing changes. A link that does not name exactly one ticket is
    /// an error, and nothing changes either.
    pub fn refresh(&mut self, focused: bool, selected_ticket: Option<&TicketData>) -> (r: Result<
        Vec<TableRow>,
        LinkError,
    >)
        ensures
            match selected_ticket {
                None => r is Ok && r->Ok_0@.len() == 0 && *final(self) == *old(self),
                Some(ticket) => match r {
                    Ok(rows) => {
                        &&& shows_links(rows@, ticket.fields.issuelinks@)
                        &&& final(self)@ == (RelationView {
                            ticket_links: ticket.fields.issuelinks@,
                            selected: old(self)@.focused_selection(focused),
                            ..old(self)@
                        })
                    },
                    Err(e) => first_bad_link(ticket.fields.issuelinks@, e) && *final(self) == *old(
                        self,
                    ),
                },
            },
    {
        let ticket = match selected_ticket {
            None => {
                return Ok(Vec::new());
            },
            Some(t) => t,
        };
        let rows = relation_rows(&ticket.fields.issuelinks)?;
        if !focused {
            self.state.select(None);
        } else if self.selected().is_none() {
            self.state.select(Some(0));
        }
        let links = ticket.fields.issuelinks.clone();
        assert(links@ =~= ticket.fields.issuelinks@);
        self.ticket_links = links;
        Ok(rows)
    }

    /// The links on show.
    pub fn ticket_links(&self) -> (r: &Vec<Links>)
        ensures
            r@ == self@.ticket_links,
    {
        &self.ticket_links
    }

    /// The position of the cursor.
    pub fn selected_index(&self) -> (r: Option<usize>)
        ensures
            r == self@.selected,
    {
        self.state.selected()
    }

    /// The cursor of the table, for the renderer to scroll by.
    pub fn table_state(&mut self) -> (r: &mut TableState)
        ensures
            table_selected(*r) == old(self)@.selected,
            final(self)@ == (RelationView { selected: table_selected(*final(r)), ..old(self)@ }),
    {
        &mut self.state
    }
}

/// On an empty table of relations no key moves anything.
pub proof fn lemma_empty_relations_are_inert(v: RelationView, key: Key)
    requires
        v.ticket_links.len() == 0,
    ensures
        v.event(key) == v,
{
}

} // verus!
