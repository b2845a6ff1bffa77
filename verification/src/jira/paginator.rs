use vstd::prelude::*;
use crate::jira::error::PaginationError;
use crate::jira::error::TransportError;

verus! {

/// One page of a listing, as the service sends it.
#[derive(Clone, Debug, PartialEq, Eq)]
pub struct PagedCollection<T> {
    pub is_last: bool,
    pub max_results: u32,
    /// Where the next page is to be had; `None` ends the listing, whatever
    /// `is_last` says.
    pub next_page: Option<String>,
    pub start_at: u32,
    pub total: u32,
    pub values: Vec<T>,
}

impl<T> PagedCollection<T> {
    /// A page that claims to be the last one names no next page.
    pub open spec fn wf(&self) -> bool {
        self.is_last ==> self.next_page is None
    }

    pub fn is_well_formed(&self) -> (r: bool)
        ensures
            r == self.wf(),
    {
        !self.is_last || self.next_page.is_none()
    }
}

/// The values of all the given pages, page after page.
pub open spec fn concat_values<T>(pages: Seq<PagedCollection<T>>) -> Seq<T>
    decreases pages.len(),
{
    if pages.len() == 0 {
        Seq::empty()
    } else {
        concat_values(pages.drop_last()) + pages.last().values@
    }
}

/// Follows the `next_page` pointers of a listing, up to a number of pages.
#[derive(Clone, Copy, Debug, PartialEq, Eq, Structural)]
pub struct Paginator {
    pub max_pages: usize,
}

/// A listing that is being followed: what was collected from the pages seen
/// so far, and where the next page is.
#[derive(Debug)]
pub struct Traversal<T> {
    pub items: Vec<T>,
    pub next_page: Option<String>,
    /// How many pages went into `items`.
    pub pages: usize,
}

/// What taking one more page into a traversal gives: the page must not be
/// one too many, and must be well-formed; its values are then appended and
/// its pointer becomes the next one to follow.
pub open spec fn accepted<T>(
    max_pages: usize,
    items: Seq<T>,
    pages: usize,
    page: PagedCollection<T>,
) -> Result<(Seq<T>, Option<String>, usize), PaginationError> {
    if pages >= max_pages {
        Err(PaginationError::TooManyPages { limit: max_pages })
    } else if !page.wf() {
        Err(PaginationError::Malformed)
    } else {
        Ok((items + page.values@, page.next_page, (pages + 1) as usize))
    }
}

/// Whether `r` is a possible result of following a listing from the state
/// `(items, next_page, pages)` with `fetch_next`: the collected items where
/// no next page is named, else a result of going on to the named page.
pub open spec fn follows<T, F: Fn(String) -> Result<PagedCollection<T>, TransportError>>(
    fetch_next: F,
    max_pages: usize,
    items: Seq<T>,
    next_page: Option<String>,
    pages: usize,
    r: Result<Vec<T>, TransportError>,
) -> bool
    decreases max_pages - pages, 1nat,
{
    match next_page {
        None => r is Ok && r->Ok_0@ == items,
        Some(url) => follows_url(fetch_next, max_pages, items, url, pages, r),
    }
}

/// Whether `r` is a possible result of going on to the page at `url`:
/// `TooManyPages` where `max_pages` pages were taken already; else, for some
/// reply that `fetch_next` may give for `url`, the error of the reply,
/// `Malformed` for a page that is not well-formed, or a result of following
/// on from the fetched page.
pub open spec fn follows_url<T, F: Fn(String) -> Result<PagedCollection<T>, TransportError>>(
    fetch_next: F,
    max_pages: usize,
    items: Seq<T>,
    url: String,
    pages: usize,
    r: Result<Vec<T>, TransportError>,
) -> bool
    decreases max_pages - pages, 0nat,
{
    if pages >= max_pages {
        r == Err::<Vec<T>, TransportError>(
            TransportError::Pagination(PaginationError::TooManyPages { limit: max_pages }),
        )
    } else {
        exists|reply: Result<PagedCollection<T>, TransportError>|
            #![trigger call_ensures(fetch_next, (url,), reply)]
            call_ensures(fetch_next, (url,), reply) && match reply {
                Err(e) => r == Err::<Vec<T>, TransportError>(e),
                Ok(page) => if !page.wf() {
                    r == Err::<Vec<T>, TransportError>(
                        TransportError::Pagination(PaginationError::Malformed),
                    )
                } else {
                    follows(
                        fetch_next,
                        max_pages,
                        items + page.values@,
                        page.next_page,
                        (pages + 1) as usize,
                        r,
                    )
                },
            }
    }
}

/// Whether `r` is a possible result of following the listing that starts
/// with `first_page`.
pub open spec fn follows_from<T, F: Fn(String) -> Result<PagedCollection<T>, TransportError>>(
    fetch_next: F,
    max_pages: usize,
    first_page: PagedCollection<T>,
    r: Result<Vec<T>, TransportError>,
) -> bool {
    match accepted(max_pages, Seq::empty(), 0, first_page) {
        Err(e) => r == Err::<Vec<T>, TransportError>(TransportError::Pagination(e)),
        Ok((items, next_page, pages)) => follows(fetch_next, max_pages, items, next_page, pages, r),
    }
}

impl<T> Traversal<T> {
    /// The page to fetch next, or `None` when the listing is complete.
    pub fn next_url(&self) -> (r: Option<&String>)
        ensures
            match r {
                Some(url) => self.next_page == Some(*url),
                None => self.next_page is None,
            },
    {
        match &self.next_page {
            Some(url) => Some(url),
            None => None,
        }
    }

    /// Whether no page is left to fetch.
    pub fn is_complete(&self) -> (r: bool)
        ensures
            r == (self.next_page is None),
    {
        self.next_page.is_none()
    }

    /// The items collected so far.
    pub fn finish(self) -> (r: Vec<T>)
        ensures
            r == self.items,
    {
        self.items
    }
}

impl Paginator {
    pub fn new(max_pages: usize) -> (r: Self)
        ensures
            r.max_pages == max_pages,
    {
        Paginator { max_pages }
    }

    /// Starts a traversal on the first page of a listing.
    pub fn begin<T>(&self, first_page: PagedCollection<T>) -> (r: Result<
        Traversal<T>,
        PaginationError,
    >)
        ensures
            match r {
                Ok(t) => accepted(self.max_pages, Seq::empty(), 0, first_page) == Ok::<
                    (Seq<T>, Option<String>, usize),
                    PaginationError,
                >((t.items@, t.next_page, t.pages)),
                Err(e) => accepted(self.max_pages, Seq::<T>::empty(), 0, first_page) == Err::<
                    (Seq<T>, Option<String>, usize),
                    PaginationError,
                >(e),
            },
    {
        let start = Traversal { items: Vec::new(), next_page: None, pages: 0 };
        self.advance(start, first_page)
    }

    /// What a traversal asks for next: nothing where the listing is complete,
    /// the address of the next page where one is named and the limit leaves
    /// room for it, and `TooManyPages` where it does not.
    pub fn next_request<'a, T>(&self, traversal: &'a Traversal<T>) -> (r: Result<
        Option<&'a String>,
        PaginationError,
    >)
        ensures
            match traversal.next_page {
                None => r == Ok::<Option<&String>, PaginationError>(None),
                Some(url) => if traversal.pages >= self.max_pages {
                    r == Err::<Option<&String>, PaginationError>(
                        PaginationError::TooManyPages { limit: self.max_pages },
                    )
                } else {
                    r is Ok && r->Ok_0 is Some && *r->Ok_0->0 == url
                },
            },
    {
        match &traversal.next_page {
            None => Ok(None),
            Some(url) => if traversal.pages >= self.max_pages {
                Err(PaginationError::TooManyPages { limit: self.max_pages })
            } else {
                Ok(Some(url))
            },
        }
    }

    /// Takes one more page into a traversal.
    pub fn advance<T>(&self, traversal: Traversal<T>, page: PagedCollection<T>) -> (r: Result<
        Traversal<T>,
        PaginationError,
    >)
        ensures
            match r {
                Ok(t) => accepted(self.max_pages, traversal.items@, traversal.pages, page) == Ok::<
                    (Seq<T>, Option<String>, usize),
                    PaginationError,
                >((t.items@, t.next_page, t.pages)),
                Err(e) => accepted(self.max_pages, traversal.items@, traversal.pages, page) == Err::<
                    (Seq<T>, Option<String>, usize),
                    PaginationError,
                >(e),
            },
    {
        if traversal.pages >= self.max_pages {
            return Err(PaginationError::TooManyPages { limit: self.max_pages });
        }
        if !page.is_well_formed() {
            return Err(PaginationError::Malformed);
        }
        let mut items = traversal.items;
        let mut values = page.values;
        items.append(&mut values);
        Ok(Traversal { items, next_page: page.next_page, pages: traversal.pages + 1 })
    }

    /// Collects a whole listing: the values of `first_page`, then those of
    /// every page that `fetch_next` returns for the `next_page` of the page
    /// before, in that order, until a page names no next page. An error of
    /// `fetch_next` ends the traversal and is returned as it is. A listing
    /// that goes on after `max_pages` pages fails with `TooManyPages` without
    /// another fetch, and a page that is not well-formed with `Malformed`.
    pub fn follow<T, F: Fn(String) -> Result<PagedCollection<T>, TransportError>>(
        &self,
        first_page: PagedCollection<T>,
        fetch_next: F,
    ) -> (r: Result<Vec<T>, TransportError>)
        requires
            forall|url: String| call_requires(fetch_next, (url,)),
        ensures
            follows_from(fetch_next, self.max_pages, first_page, r),
    {
        let mut traversal = match self.begin(first_page) {
            Ok(t) => t,
            Err(e) => {
                return Err(TransportError::Pagination(e));
            },
        };
        let ghost start_items = traversal.items@;
        let ghost start_next = traversal.next_page;
        let ghost start_pages = traversal.pages;
        loop
            invariant
                forall|url: String| call_requires(fetch_next, (url,)),
                accepted(self.max_pages, Seq::empty(), 0, first_page) == Ok::<
                    (Seq<T>, Option<String>, usize),
                    PaginationError,
                >((start_items, start_next, start_pages)),
                forall|r: Result<Vec<T>, TransportError>|
                    #[trigger] follows(
                        fetch_next,
                        self.max_pages,
                        traversal.items@,
                        traversal.next_page,
                        traversal.pages,
                        r,
                    ) ==> follows(
                        fetch_next,
                        self.max_pages,
                        start_items,
                        start_next,
                        start_pages,
                        r,
                    ),
            decreases self.max_pages - traversal.pages,
        {
            let ghost before_items = traversal.items@;
            let ghost before_next = traversal.next_page;
            let ghost before_pages = traversal.pages;
            let url = match self.next_request(&traversal) {
                Ok(None) => {
                    let items = traversal.finish();
                    assert(follows(
                        fetch_next,
                        self.max_pages,
                        before_items,
                        before_next,
                        before_pages,
                        Ok::<Vec<T>, TransportError>(items),
                    ));
                    return Ok(items);
                },
                Ok(Some(url)) => url.clone(),
                Err(limit) => {
                    let e = TransportError::Pagination(limit);
                    assert(follows(
                        fetch_next,
                        self.max_pages,
                        before_items,
                        before_next,
                        before_pages,
                        Err::<Vec<T>, TransportError>(e),
                    ));
                    return Err(e);
                },
            };
            let reply = fetch_next(url);
            assert(call_ensures(fetch_next, (url,), reply));
            let page = match reply {
                Err(e) => {
                    assert(follows_url(
                        fetch_next,
                        self.max_pages,
                        before_items,
                        url,
                        before_pages,
                        Err::<Vec<T>, TransportError>(e),
                    ));
                    assert(follows(
                        fetch_next,
                        self.max_pages,
                        before_items,
                        before_next,
                        before_pages,
                        Err::<Vec<T>, TransportError>(e),
                    ));
                    return Err(e);
                },
                Ok(page) => page,
            };
            traversal = match self.advance(traversal, page) {
                Err(e) => {
                    assert(follows_url(
                        fetch_next,
                        self.max_pages,
                        before_items,
                        url,
                        before_pages,
                        Err::<Vec<T>, TransportError>(TransportError::Pagination(e)),
                    ));
                    assert(follows(
                        fetch_next,
                        self.max_pages,
                        before_items,
                        before_next,
                        before_pages,
                        Err::<Vec<T>, TransportError>(TransportError::Pagination(e)),
                    ));
                    return Err(TransportError::Pagination(e));
                },
                Ok(t) => t,
            };
            assert forall|r: Result<Vec<T>, TransportError>|
                #[trigger] follows(
                    fetch_next,
                    self.max_pages,
                    traversal.items@,
                    traversal.next_page,
                    traversal.pages,
                    r,
                ) implies follows(
                fetch_next,
                self.max_pages,
                start_items,
                start_next,
                start_pages,
                r,
            ) by {
                assert(follows_url(
                    fetch_next,
                    self.max_pages,
                    before_items,
                    url,
                    before_pages,
                    r,
                ));
                assert(follows(
                    fetch_next,
                    self.max_pages,
                    before_items,
                    before_next,
                    before_pages,
                    r,
                ));
            }
        }
    }
}

/// Whether `fetch_next` hands out the given chain of pages: asked for the
/// page that a page of the chain names as its next, it returns the page
/// that comes after it in the chain, and nothing else.
pub open spec fn serves<T, F: Fn(String) -> Result<PagedCollection<T>, TransportError>>(
    fetch_next: F,
    pages: Seq<PagedCollection<T>>,
) -> bool {
    forall|i: int, reply: Result<PagedCollection<T>, TransportError>|
        #![trigger call_ensures(fetch_next, (pages[i].next_page->0,), reply)]
        0 <= i < pages.len() - 1 && pages[i].next_page is Some && call_ensures(
            fetch_next,
            (pages[i].next_page->0,),
            reply,
        ) ==> reply == Ok::<PagedCollection<T>, TransportError>(pages[i + 1])
}

/// A chain of well-formed pages in which every page but the last names a
/// next page.
pub open spec fn is_chain<T>(pages: Seq<PagedCollection<T>>) -> bool {
    &&& pages.len() > 0
    &&& forall|i: int| 0 <= i < pages.len() ==> (#[trigger] pages[i]).wf()
    &&& forall|i: int| 0 <= i < pages.len() - 1 ==> (#[trigger] pages[i]).next_page is Some
}

proof fn lemma_concat_take<T>(pages: Seq<PagedCollection<T>>, k: int)
    requires
        0 <= k < pages.len(),
    ensures
        concat_values(pages.take(k + 1)) == concat_values(pages.take(k)) + pages[k].values@,
{
    assert(pages.take(k + 1).drop_last() =~= pages.take(k));
}

proof fn lemma_follows_along<T, F: Fn(String) -> Result<PagedCollection<T>, TransportError>>(
    fetch_next: F,
    max_pages: usize,
    pages: Seq<PagedCollection<T>>,
    k: int,
    r: Result<Vec<T>, TransportError>,
)
    requires
        is_chain(pages),
        pages.len() <= max_pages,
        serves(fetch_next, pages),
        1 <= k <= pages.len(),
        follows(
            fetch_next,
            max_pages,
            concat_values(pages.take(k)),
            pages[k - 1].next_page,
            k as usize,
            r,
        ),
    ensures
        follows(
            fetch_next,
            max_pages,
            concat_values(pages),
            pages.last().next_page,
            pages.len() as usize,
            r,
        ),
    decreases pages.len() - k,
{
    if k == pages.len() {
        assert(pages.take(k) =~= pages);
    } else {
        let url = pages[k - 1].next_page->0;
        assert(follows_url(fetch_next, max_pages, concat_values(pages.take(k)), url, k as usize, r));
        let reply = choose|reply: Result<PagedCollection<T>, TransportError>|
            #![trigger call_ensures(fetch_next, (url,), reply)]
            call_ensures(fetch_next, (url,), reply) && match reply {
                Err(e) => r == Err::<Vec<T>, TransportError>(e),
                Ok(page) => if !page.wf() {
                    r == Err::<Vec<T>, TransportError>(
                        TransportError::Pagination(PaginationError::Malformed),
                    )
                } else {
                    follows(
                        fetch_next,
                        max_pages,
                        concat_values(pages.take(k)) + page.values@,
                        page.next_page,
                        (k + 1) as usize,
                        r,
                    )
                },
            };
        assert(call_ensures(fetch_next, (pages[k - 1].next_page->0,), reply));
        assert(reply == Ok::<PagedCollection<T>, TransportError>(pages[k]));
        lemma_concat_take(pages, k);
        lemma_follows_along(fetch_next, max_pages, pages, k + 1, r);
    }
}

/// Following a chain of pages, no longer than the limit, comes to the end
/// of the chain with the values of all its pages collected, page after
/// page: every result of following the chain from its first page is a
/// result of following on from its last.
pub proof fn lemma_follow_reaches<T, F: Fn(String) -> Result<PagedCollection<T>, TransportError>>(
    paginator: Paginator,
    fetch_next: F,
    pages: Seq<PagedCollection<T>>,
    r: Result<Vec<T>, TransportError>,
)
    requires
        is_chain(pages),
        pages.len() <= paginator.max_pages,
        serves(fetch_next, pages),
        follows_from(fetch_next, paginator.max_pages, pages[0], r),
    ensures
        follows(
            fetch_next,
            paginator.max_pages,
            concat_values(pages),
            pages.last().next_page,
            pages.len() as usize,
            r,
        ),
{
    assert(pages[0].wf());
    lemma_concat_take(pages, 0);
    assert(concat_values(pages.take(0)) =~= Seq::<T>::empty());
    assert(Seq::<T>::empty() + pages[0].values@ =~= pages[0].values@);
    lemma_follows_along(fetch_next, paginator.max_pages, pages, 1, r);
}

/// Following a chain of pages that ends in a page without a next page, and
/// is no longer than the limit, gives exactly the values of all its pages,
/// page after page, each page's values in their own order.
pub proof fn lemma_follow_collects_chain<
    T,
    F: Fn(String) -> Result<PagedCollection<T>, TransportError>,
>(
    paginator: Paginator,
    fetch_next: F,
    pages: Seq<PagedCollection<T>>,
    r: Result<Vec<T>, TransportError>,
)
    requires
        is_chain(pages),
        pages.last().next_page is None,
        pages.len() <= paginator.max_pages,
        serves(fetch_next, pages),
        follows_from(fetch_next, paginator.max_pages, pages[0], r),
    ensures
        r is Ok,
        r->Ok_0@ == concat_values(pages),
{
    lemma_follow_reaches(paginator, fetch_next, pages, r);
}

/// Following a chain that goes on beyond the limit fails with
/// `TooManyPages`, whatever lies further down the chain.
pub proof fn lemma_follow_stops_at_limit<
    T,
    F: Fn(String) -> Result<PagedCollection<T>, TransportError>,
>(
    paginator: Paginator,
    fetch_next: F,
    pages: Seq<PagedCollection<T>>,
    r: Result<Vec<T>, TransportError>,
)
    requires
        is_chain(pages),
        pages.len() > paginator.max_pages,
        serves(fetch_next, pages),
        follows_from(fetch_next, paginator.max_pages, pages[0], r),
    ensures
        r == Err::<Vec<T>, TransportError>(
            TransportError::Pagination(
                PaginationError::TooManyPages { limit: paginator.max_pages },
            ),
        ),
{
    if paginator.max_pages > 0 {
        let head = pages.take(paginator.max_pages as int);
        assert(head[0] == pages[0]);
        assert(is_chain(head)) by {
            assert forall|i: int| 0 <= i < head.len() implies (#[trigger] head[i]).wf() by {
                assert(head[i] == pages[i]);
            }
            assert forall|i: int| 0 <= i < head.len() - 1 implies (
            #[trigger] head[i]).next_page is Some by {
                assert(head[i] == pages[i]);
            }
        }
        assert(serves(fetch_next, head)) by {
            assert forall|i: int, reply: Result<PagedCollection<T>, TransportError>|
                #![trigger call_ensures(fetch_next, (head[i].next_page->0,), reply)]
                0 <= i < head.len() - 1 && head[i].next_page is Some && call_ensures(
                    fetch_next,
                    (head[i].next_page->0,),
                    reply,
                ) implies reply == Ok::<PagedCollection<T>, TransportError>(head[i + 1]) by {
                assert(head[i] == pages[i]);
                assert(head[i + 1] == pages[i + 1]);
                assert(call_ensures(fetch_next, (pages[i].next_page->0,), reply));
            }
        }
        lemma_follow_reaches(paginator, fetch_next, head, r);
        assert(head.last() == pages[paginator.max_pages - 1]);
        assert(follows_url(
            fetch_next,
            paginator.max_pages,
            concat_values(head),
            head.last().next_page->0,
            paginator.max_pages,
            r,
        ));
    }
}

/// Where the fetch of the page after a chain fails, following the chain
/// fails with the error of that fetch.
pub proof fn lemma_follow_passes_on_error<
    T,
    F: Fn(String) -> Result<PagedCollection<T>, TransportError>,
>(
    paginator: Paginator,
    fetch_next: F,
    pages: Seq<PagedCollection<T>>,
    error: TransportError,
    r: Result<Vec<T>, TransportError>,
)
    requires
        is_chain(pages),
        pages.len() < paginator.max_pages,
        serves(fetch_next, pages),
        pages.last().next_page is Some,
        forall|reply: Result<PagedCollection<T>, TransportError>|
            #![trigger call_ensures(fetch_next, (pages.last().next_page->0,), reply)]
            call_ensures(fetch_next, (pages.last().next_page->0,), reply) ==> reply == Err::<
                PagedCollection<T>,
                TransportError,
            >(error),
        follows_from(fetch_next, paginator.max_pages, pages[0], r),
    ensures
        r == Err::<Vec<T>, TransportError>(error),
{
    lemma_follow_reaches(paginator, fetch_next, pages, r);
    let url = pages.last().next_page->0;
    assert(follows_url(
        fetch_next,
        paginator.max_pages,
        concat_values(pages),
        url,
        pages.len() as usize,
        r,
    ));
    let reply = choose|reply: Result<PagedCollection<T>, TransportError>|
        #![trigger call_ensures(fetch_next, (url,), reply)]
        call_ensures(fetch_next, (url,), reply) && match reply {
            Err(e) => r == Err::<Vec<T>, TransportError>(e),
            Ok(page) => if !page.wf() {
                r == Err::<Vec<T>, TransportError>(
                    TransportError::Pagination(PaginationError::Malformed),
                )
            } else {
                follows(
                    fetch_next,
                    paginator.max_pages,
                    concat_values(pages) + page.values@,
                    page.next_page,
                    (pages.len() + 1) as usize,
                    r,
                )
            },
        };
    assert(call_ensures(fetch_next, (pages.last().next_page->0,), reply));
}

/// Where the page after a chain is not well-formed, following the chain
/// fails with `Malformed`; so does a first page that is not well-formed.
pub proof fn lemma_follow_rejects_malformed<
    T,
    F: Fn(String) -> Result<PagedCollection<T>, TransportError>,
>(
    paginator: Paginator,
    fetch_next: F,
    pages: Seq<PagedCollection<T>>,
    bad: PagedCollection<T>,
    r: Result<Vec<T>, TransportError>,
)
    requires
        !bad.wf(),
        pages.len() < paginator.max_pages,
        pages.len() > 0 ==> {
            &&& is_chain(pages)
            &&& serves(fetch_next, pages)
            &&& pages.last().next_page is Some
            &&& forall|reply: Result<PagedCollection<T>, TransportError>|
                #![trigger call_ensures(fetch_next, (pages.last().next_page->0,), reply)]
                call_ensures(fetch_next, (pages.last().next_page->0,), reply) ==> reply == Ok::<
                    PagedCollection<T>,
                    TransportError,
                >(bad)
        },
        follows_from(
            fetch_next,
            paginator.max_pages,
            if pages.len() > 0 {
                pages[0]
            } else {
                bad
            },
            r,
        ),
    ensures
        r == Err::<Vec<T>, TransportError>(TransportError::Pagination(PaginationError::Malformed)),
{
    if pages.len() > 0 {
        lemma_follow_reaches(paginator, fetch_next, pages, r);
        let url = pages.last().next_page->0;
        assert(follows_url(
            fetch_next,
            paginator.max_pages,
            concat_values(pages),
            url,
            pages.len() as usize,
            r,
        ));
        let reply = choose|reply: Result<PagedCollection<T>, TransportError>|
            #![trigger call_ensures(fetch_next, (url,), reply)]
            call_ensures(fetch_next, (url,), reply) && match reply {
                Err(e) => r == Err::<Vec<T>, TransportError>(e),
                Ok(page) => if !page.wf() {
                    r == Err::<Vec<T>, TransportError>(
                        TransportError::Pagination(PaginationError::Malformed),
                    )
                } else {
                    follows(
                        fetch_next,
                        paginator.max_pages,
                        concat_values(pages) + page.values@,
                        page.next_page,
                        (pages.len() + 1) as usize,
                        r,
                    )
                },
            };
        assert(call_ensures(fetch_next, (pages.last().next_page->0,), reply));
    }
}

/// Following the same chain twice gives the same values, as long as the
/// chain is served unchanged.
pub proof fn lemma_follow_is_repeatable<
    T,
    F: Fn(String) -> Result<PagedCollection<T>, TransportError>,
>(
    paginator: Paginator,
    fetch_next: F,
    pages: Seq<PagedCollection<T>>,
    first: Result<Vec<T>, TransportError>,
    second: Result<Vec<T>, TransportError>,
)
    requires
        is_chain(pages),
        pages.last().next_page is None,
        pages.len() <= paginator.max_pages,
        serves(fetch_next, pages),
        follows_from(fetch_next, paginator.max_pages, pages[0], first),
        follows_from(fetch_next, paginator.max_pages, pages[0], second),
    ensures
        first is Ok,
        second is Ok,
        first->Ok_0@ == second->Ok_0@,
{
    lemma_follow_collects_chain(paginator, fetch_next, pages, first);
    lemma_follow_collects_chain(paginator, fetch_next, pages, second);
}

} // verus!
