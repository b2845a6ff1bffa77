use vstd::prelude::*;
use vstd::string::StringExecFns;
use crate::jira::error::StoreError;
use crate::jira::error::TransportError;
use crate::jira::tickets::Comments;
use crate::jira::tickets::Fields;
use crate::jira::tickets::TicketData;
use crate::jira::transport::comments_path;
use crate::jira::transport::comments_path_spec;

verus! {

/// The two-part key of a record in the local store.
#[derive(Clone, Debug, PartialEq, Eq)]
pub struct StoreKey {
    pub table: String,
    pub id: String,
}

/// What the local store says about the comments of a ticket.
#[derive(Clone, Debug, PartialEq, Eq)]
pub enum CacheRead {
    /// The record holds the comments: nothing is fetched.
    Hit(Comments),
    /// The record holds none: they are to be fetched from `path`.
    Miss { path: String },
}

/// The partial update that writes fetched comments through to the store.
#[derive(Clone, Debug, PartialEq, Eq)]
pub struct CacheWrite {
    pub key: StoreKey,
    pub comments: Comments,
}

/// The table of the local store that holds the tickets.
pub open spec fn tickets_table() -> Seq<char> {
    "tickets"@
}

/// What a record says about the comments of its ticket: `Some` where it
/// holds them, `None` where it does not, and `NotFound` where there is no
/// record.
pub open spec fn cached_comments(record: Option<TicketData>) -> Result<
    Option<Comments>,
    StoreError,
> {
    match record {
        None => Err(StoreError::NotFound),
        Some(ticket) => Ok(ticket.fields.comments),
    }
}

/// A record with the given comments merged in: the comments are replaced
/// and every other field stays as it is.
pub open spec fn merged(record: TicketData, comments: Comments) -> TicketData {
    TicketData { fields: Fields { comments: Some(comments), ..record.fields }, ..record }
}

/// A record with its comments forgotten, so that the next read fetches
/// them anew; every other field stays as it is.
pub open spec fn forgotten(record: TicketData) -> TicketData {
    TicketData { fields: Fields { comments: None, ..record.fields }, ..record }
}

impl TicketData {
    /// The key of this ticket's record in the local store.
    pub fn store_key(&self) -> (r: StoreKey)
        ensures
            r.table@ == tickets_table(),
            r.id == self.key,
    {
        StoreKey { table: String::from_str("tickets"), id: self.key.clone() }
    }

    /// Reads this ticket's comments from its persisted record, where the
    /// record holds them, and says from where to fetch them where it does
    /// not. Without a record there is nothing to read from or write to.
    pub fn get_comments(&self, record: Option<TicketData>) -> (r: Result<CacheRead, StoreError>)
        ensures
            match cached_comments(record) {
                Err(e) => r == Err::<CacheRead, StoreError>(e),
                Ok(Some(comments)) => r == Ok::<CacheRead, StoreError>(CacheRead::Hit(comments)),
                Ok(None) => r is Ok && r->Ok_0 is Miss && r->Ok_0->path@ == comments_path_spec(
                    self.key@,
                ),
            },
    {
        match record {
            None => Err(StoreError::NotFound),
            Some(ticket) => match ticket.fields.comments {
                Some(comments) => Ok(CacheRead::Hit(comments)),
                None => Ok(CacheRead::Miss { path: comments_path(self.key.as_str()) }),
            },
        }
    }

    /// Decides what follows a fetch of this ticket's comments: fetched
    /// comments are written through to the ticket's record, and a failed
    /// fetch writes nothing.
    pub fn save_ticket_comments_from_api(&self, fetched: Result<Comments, TransportError>) -> (r:
        Result<CacheWrite, StoreError>)
        ensures
            match fetched {
                Ok(comments) => r is Ok && r->Ok_0.comments == comments && r->Ok_0.key.table@
                    == tickets_table() && r->Ok_0.key.id == self.key,
                Err(e) => r == Err::<CacheWrite, StoreError>(StoreError::Transport(e)),
            },
    {
        match fetched {
            Ok(comments) => Ok(CacheWrite { key: self.store_key(), comments }),
            Err(e) => Err(StoreError::Transport(e)),
        }
    }

    /// This record with its comments forgotten: what the store is to hold
    /// once the comments on the service have changed.
    pub fn forget_comments(self) -> (r: TicketData)
        ensures
            r == forgotten(self),
    {
        let TicketData { fields, key, rendered_fields } = self;
        let Fields {
            assignee,
            comments: _,
            components,
            creator,
            issuetype,
            issuelinks,
            labels,
            parent,
            priority,
            project,
            reporter,
            status,
            summary,
        } = fields;
        TicketData {
            fields: Fields {
                assignee,
                comments: None,
                components,
                creator,
                issuetype,
                issuelinks,
                labels,
                parent,
                priority,
                project,
                reporter,
                status,
                summary,
            },
            key,
            rendered_fields,
        }
    }

    /// This record with the given comments merged in.
    pub fn merge_comments(self, comments: Comments) -> (r: TicketData)
        ensures
            r == merged(self, comments),
    {
        let TicketData { fields, key, rendered_fields } = self;
        let Fields {
            assignee,
            comments: _,
            components,
            creator,
            issuetype,
            issuelinks,
            labels,
            parent,
            priority,
            project,
            reporter,
            status,
            summary,
        } = fields;
        TicketData {
            fields: Fields {
                assignee,
                comments: Some(comments),
                components,
                creator,
                issuetype,
                issuelinks,
                labels,
                parent,
                priority,
                project,
                reporter,
                status,
                summary,
            },
            key,
            rendered_fields,
        }
    }
}

/// The outcome of reading the comments of one ticket through the store.
pub struct ReadThrough {
    pub result: Result<Comments, StoreError>,
    /// The records of the store after the read.
    pub store: Map<Seq<char>, TicketData>,
    /// How often the service was asked.
    pub fetches: nat,
}

/// Reading the comments of the ticket `key` through a store that holds the
/// given records, where a fetch, if one is made, returns `fetched`: a hit
/// returns the stored comments and touches nothing; a miss fetches once,
/// and merges what was fetched into the record; a missing record is
/// `NotFound`, and nothing is fetched or written.
pub open spec fn read_through(
    store: Map<Seq<char>, TicketData>,
    key: Seq<char>,
    fetched: Result<Comments, TransportError>,
) -> ReadThrough {
    let record = if store.contains_key(key) {
        Some(store[key])
    } else {
        None
    };
    match cached_comments(record) {
        Err(e) => ReadThrough { result: Err(e), store, fetches: 0 },
        Ok(Some(comments)) => ReadThrough { result: Ok(comments), store, fetches: 0 },
        Ok(None) => match fetched {
            Err(e) => ReadThrough { result: Err(StoreError::Transport(e)), store, fetches: 1 },
            Ok(comments) => ReadThrough {
                result: Ok(comments),
                store: store.insert(key, merged(store[key], comments)),
                fetches: 1,
            },
        },
    }
}

/// After one successful read, a second read of the same ticket is a hit: it
/// fetches nothing, returns the same comments and leaves the store as it
/// is. Two reads in a row therefore fetch at most once.
pub proof fn lemma_second_read_hits(
    store: Map<Seq<char>, TicketData>,
    key: Seq<char>,
    first_fetch: Result<Comments, TransportError>,
    second_fetch: Result<Comments, TransportError>,
)
    requires
        read_through(store, key, first_fetch).result is Ok,
    ensures
        ({
            let first = read_through(store, key, first_fetch);
            let second = read_through(first.store, key, second_fetch);
            &&& second.fetches == 0
            &&& second.result == first.result
            &&& second.store == first.store
            &&& first.fetches + second.fetches <= 1
        }),
{
}

/// Reading the comments of a ticket that was never written to the store is
/// `NotFound`; nothing is fetched and no record is made.
pub proof fn lemma_missing_record_is_not_found(
    store: Map<Seq<char>, TicketData>,
    key: Seq<char>,
    fetched: Result<Comments, TransportError>,
)
    requires
        !store.contains_key(key),
    ensures
        read_through(store, key, fetched).result == Err::<Comments, StoreError>(
            StoreError::NotFound,
        ),
        read_through(store, key, fetched).fetches == 0,
        read_through(store, key, fetched).store == store,
{
}

/// A read touches no record but that of its own ticket, and of that one
/// nothing but the comments.
pub proof fn lemma_read_is_partial_update(
    store: Map<Seq<char>, TicketData>,
    key: Seq<char>,
    fetched: Result<Comments, TransportError>,
    other: Seq<char>,
)
    ensures
        ({
            let after = read_through(store, key, fetched).store;
            &&& after.dom() == store.dom()
            &&& other != key && store.contains_key(other) ==> after[other] == store[other]
            &&& store.contains_key(key) ==> {
                &&& after[key].key == store[key].key
                &&& after[key].rendered_fields == store[key].rendered_fields
                &&& after[key].fields.summary == store[key].fields.summary
                &&& after[key].fields.status == store[key].fields.status
                &&& after[key].fields.issuelinks == store[key].fields.issuelinks
                &&& after[key].fields.parent == store[key].fields.parent
                &&& store[key].fields.comments is Some ==> after[key] == store[key]
            }
        }),
{
    let after = read_through(store, key, fetched).store;
    assert(after.dom() =~= store.dom());
}

/// Merging the same comments twice is the same as merging them once.
pub proof fn lemma_merge_is_idempotent(record: TicketData, comments: Comments)
    ensures
        merged(merged(record, comments), comments) == merged(record, comments),
{
}

/// Once the comments of a record are forgotten, the next read of its
/// ticket fetches them again, and returns what was fetched.
pub proof fn lemma_forgotten_comments_are_fetched_again(
    store: Map<Seq<char>, TicketData>,
    key: Seq<char>,
    fetched: Comments,
)
    requires
        store.contains_key(key),
    ensures
        ({
            let read = read_through(
                store.insert(key, forgotten(store[key])),
                key,
                Ok::<Comments, TransportError>(fetched),
            );
            &&& read.fetches == 1
            &&& read.result == Ok::<Comments, StoreError>(fetched)
            &&& read.store[key] == merged(store[key], fetched)
        }),
{
}

} // verus!
