use vstd::prelude::*;
use crate::jira::error::LinkError;

verus! {

#[derive(Debug, PartialEq, Eq)]
pub struct Status {
    pub name: String,
}

#[derive(Debug, PartialEq, Eq)]
pub struct Priority {
    pub name: String,
}

#[derive(Debug, PartialEq, Eq)]
pub struct Type {
    pub name: String,
    pub subtask: bool,
}

/// The fields that a linked or parent ticket carries along.
#[derive(Debug, PartialEq, Eq)]
pub struct LinkFields {
    pub issuetype: Type,
    pub priority: Option<Priority>,
    pub status: Status,
    pub summary: String,
}

/// How a kind of link reads from either end.
#[derive(Debug, PartialEq, Eq)]
pub struct LinkType {
    pub inward: String,
    pub outward: String,
}

/// A partial view of another ticket: a linked one, or the parent.
#[derive(Debug, PartialEq, Eq)]
pub struct LinkInwardOutwardParent {
    pub fields: LinkFields,
    pub key: String,
}

/// A directed relationship between this ticket and one other.
#[derive(Debug, PartialEq, Eq)]
pub struct Links {
    pub inward_issue: Option<LinkInwardOutwardParent>,
    pub outward_issue: Option<LinkInwardOutwardParent>,
    pub link_type: LinkType,
}

#[derive(Clone, Debug, PartialEq, Eq)]
pub struct CreatorReporter {
    pub display_name: String,
}

#[derive(Clone, Debug, PartialEq, Eq)]
pub struct Assignee {
    pub display_name: String,
}

#[derive(Clone, Debug, PartialEq, Eq)]
pub struct RenderedFields {
    pub description: String,
}

#[derive(Clone, Debug, PartialEq, Eq)]
pub struct Components {
    pub name: String,
}

#[derive(Clone, Debug, PartialEq, Eq)]
pub struct Project {
    pub key: String,
    pub name: String,
}

#[derive(Clone, Debug, PartialEq, Eq)]
pub struct FieldAuthor {
    pub display_name: String,
    pub active: bool,
}

#[derive(Clone, Debug, PartialEq, Eq)]
pub struct CommentBody {
    pub author: FieldAuthor,
    pub created: String,
    pub rendered_body: String,
    pub updated: String,
    pub update_author: FieldAuthor,
}

/// All comments of one ticket, as the service lists them.
#[derive(Clone, Debug, PartialEq, Eq)]
pub struct Comments {
    pub comments: Vec<CommentBody>,
}

#[derive(Clone, Debug, PartialEq, Eq)]
pub struct Fields {
    pub assignee: Option<Assignee>,
    /// `None` until the comments have been fetched; then all of them.
    pub comments: Option<Comments>,
    pub components: Vec<Components>,
    pub creator: Option<CreatorReporter>,
    pub issuetype: Type,
    pub issuelinks: Vec<Links>,
    pub labels: Vec<String>,
    pub parent: Option<LinkInwardOutwardParent>,
    pub priority: Option<Priority>,
    pub project: Project,
    pub reporter: Option<CreatorReporter>,
    pub status: Status,
    pub summary: String,
}

#[derive(Clone, Debug, PartialEq, Eq)]
pub struct TicketData {
    pub fields: Fields,
    pub key: String,
    pub rendered_fields: RenderedFields,
}

/// One page of a ticket search.
#[derive(Clone, Debug, PartialEq, Eq)]
pub struct JiraTickets {
    pub start_at: Option<i32>,
    pub max_results: Option<i32>,
    pub total: Option<i32>,
    pub issues: Vec<TicketData>,
}

impl Clone for Status {
    fn clone(&self) -> (r: Self)
        ensures
            r == *self,
    {
        Status { name: self.name.clone() }
    }
}

impl Clone for Priority {
    fn clone(&self) -> (r: Self)
        ensures
            r == *self,
    {
        Priority { name: self.name.clone() }
    }
}

impl Clone for Type {
    fn clone(&self) -> (r: Self)
        ensures
            r == *self,
    {
        Type { name: self.name.clone(), subtask: self.subtask }
    }
}

impl Clone for LinkFields {
    fn clone(&self) -> (r: Self)
        ensures
            r == *self,
    {
        let priority = match &self.priority {
            Some(p) => Some(p.clone()),
            None => None,
        };
        LinkFields {
            issuetype: self.issuetype.clone(),
            priority,
            status: self.status.clone(),
            summary: self.summary.clone(),
        }
    }
}

impl Clone for LinkType {
    fn clone(&self) -> (r: Self)
        ensures
            r == *self,
    {
        LinkType { inward: self.inward.clone(), outward: self.outward.clone() }
    }
}

impl Clone for LinkInwardOutwardParent {
    fn clone(&self) -> (r: Self)
        ensures
            r == *self,
    {
        LinkInwardOutwardParent { fields: self.fields.clone(), key: self.key.clone() }
    }
}

impl Clone for Links {
    fn clone(&self) -> (r: Self)
        ensures
            r == *self,
    {
        let inward_issue = match &self.inward_issue {
            Some(i) => Some(i.clone()),
            None => None,
        };
        let outward_issue = match &self.outward_issue {
            Some(o) => Some(o.clone()),
            None => None,
        };
        Links { inward_issue, outward_issue, link_type: self.link_type.clone() }
    }
}

/// From which end of a link this ticket is seen.
#[derive(Clone, Copy, Debug, PartialEq, Eq, Structural)]
pub enum LinkDirection {
    Inward,
    Outward,
}

impl Links {
    /// A link names exactly one other ticket: the inward or the outward one.
    pub open spec fn wf(&self) -> bool {
        (self.inward_issue is Some) != (self.outward_issue is Some)
    }

    /// The end of the link that is populated, or what is wrong with the link.
    pub open spec fn direction_spec(&self) -> Result<LinkDirection, LinkError> {
        match (self.outward_issue, self.inward_issue) {
            (Some(_), None) => Ok(LinkDirection::Outward),
            (None, Some(_)) => Ok(LinkDirection::Inward),
            (Some(_), Some(_)) => Err(LinkError::BothPopulated),
            (None, None) => Err(LinkError::NeitherPopulated),
        }
    }

    /// The linked ticket of a well-formed link.
    pub open spec fn related_spec(&self) -> LinkInwardOutwardParent
        recommends
            self.wf(),
    {
        if self.outward_issue is Some {
            self.outward_issue->0
        } else {
            self.inward_issue->0
        }
    }

    /// The label of a well-formed link, read from this ticket's end.
    pub open spec fn relation_spec(&self) -> String
        recommends
            self.wf(),
    {
        if self.outward_issue is Some {
            self.link_type.outward
        } else {
            self.link_type.inward
        }
    }

    pub fn direction(&self) -> (r: Result<LinkDirection, LinkError>)
        ensures
            r == self.direction_spec(),
            r is Ok <==> self.wf(),
    {
        match (&self.outward_issue, &self.inward_issue) {
            (Some(_), None) => Ok(LinkDirection::Outward),
            (None, Some(_)) => Ok(LinkDirection::Inward),
            (Some(_), Some(_)) => Err(LinkError::BothPopulated),
            (None, None) => Err(LinkError::NeitherPopulated),
        }
    }

    /// The linked ticket, whichever end it sits on.
    pub fn related(&self) -> (r: Result<&LinkInwardOutwardParent, LinkError>)
        ensures
            match r {
                Ok(t) => self.wf() && *t == self.related_spec(),
                Err(e) => self.direction_spec() == Err::<LinkDirection, LinkError>(e),
            },
    {
        match (&self.outward_issue, &self.inward_issue) {
            (Some(outward), None) => Ok(outward),
            (None, Some(inward)) => Ok(inward),
            (Some(_), Some(_)) => Err(LinkError::BothPopulated),
            (None, None) => Err(LinkError::NeitherPopulated),
        }
    }

    /// The label of the link as read from this ticket's end.
    pub fn relation(&self) -> (r: Result<&String, LinkError>)
        ensures
            match r {
                Ok(label) => self.wf() && *label == self.relation_spec(),
                Err(e) => self.direction_spec() == Err::<LinkDirection, LinkError>(e),
            },
    {
        match (&self.outward_issue, &self.inward_issue) {
            (Some(_), None) => Ok(&self.link_type.outward),
            (None, Some(_)) => Ok(&self.link_type.inward),
            (Some(_), Some(_)) => Err(LinkError::BothPopulated),
            (None, None) => Err(LinkError::NeitherPopulated),
        }
    }
}

impl JiraTickets {
    /// A search result without any issue.
    pub fn new() -> (r: Self)
        ensures
            r.start_at is None,
            r.max_results is None,
            r.total is None,
            r.issues@.len() == 0,
    {
        JiraTickets { start_at: None, max_results: None, total: None, issues: Vec::new() }
    }
}

} // verus!
