use vstd::prelude::*;
use crate::jira::paginator::PagedCollection;
use crate::jira::tickets::TicketData;

verus! {

#[derive(Clone, Debug, PartialEq, Eq)]
pub struct Project {
    pub key: String,
    pub tickets: Option<Vec<TicketData>>,
}

/// One page of the listing of projects.
#[derive(Clone, Debug, PartialEq, Eq)]
pub struct JiraProjects {
    pub is_last: bool,
    pub max_results: u32,
    pub next_page: Option<String>,
    pub start_at: u32,
    pub total: u32,
    pub values: Vec<Project>,
}

impl JiraProjects {
    /// The page of an empty listing: the last one, without any project.
    pub fn new() -> (r: Self)
        ensures
            r.is_last,
            r.max_results == 0,
            r.next_page is None,
            r.start_at == 0,
            r.total == 0,
            r.values@.len() == 0,
    {
        JiraProjects {
            is_last: true,
            max_results: 0,
            next_page: None,
            start_at: 0,
            total: 0,
            values: Vec::new(),
        }
    }

    /// Where the page after this one is to be had, if there is one.
    pub fn next_page_url(&self) -> (r: Option<&String>)
        ensures
            match r {
                Some(url) => self.next_page == Some(*url),
                None => self.next_page is None,
            },
    {
        match &self.next_page {
            Some(url) => Some(url),
            None => None,
        }
    }

    /// This page as a page of a listing that can be followed.
    pub fn into_page(self) -> (r: PagedCollection<Project>)
        ensures
            r.is_last == self.is_last,
            r.max_results == self.max_results,
            r.next_page == self.next_page,
            r.start_at == self.start_at,
            r.total == self.total,
            r.values == self.values,
    {
        PagedCollection {
            is_last: self.is_last,
            max_results: self.max_results,
            next_page: self.next_page,
            start_at: self.start_at,
            total: self.total,
            values: self.values,
        }
    }

    /// The page of projects that a page of a listing amounts to.
    pub fn from_page(page: PagedCollection<Project>) -> (r: Self)
        ensures
            r.is_last == page.is_last,
            r.max_results == page.max_results,
            r.next_page == page.next_page,
            r.start_at == page.start_at,
            r.total == page.total,
            r.values == page.values,
    {
        JiraProjects {
            is_last: page.is_last,
            max_results: page.max_results,
            next_page: page.next_page,
            start_at: page.start_at,
            total: page.total,
            values: page.values,
        }
    }
}

} // verus!
