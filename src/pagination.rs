//! The decisions of the members listing walk: which page to ask for next,
//! when to stop, and what has been gathered. Requests and waits are made by
//! the caller, one step at a time.
use vstd::prelude::*;
use crate::ghost::{Member, MembersResponse};

verus! {

/// Members asked for per page.
pub const PAGE_SIZE: u32 = 100;

/// Milliseconds to wait between two page requests.
pub const PAGE_DELAY_MS: u64 = 100;

/// Why the walk failed.
#[derive(Clone, Copy, Debug, PartialEq, Eq, Structural)]
pub enum FetchError {
    /// The admin API answered with this non-success status.
    Api(u16),
    /// A page body did not have the expected shape.
    Decode,
}

/// What the caller does after a page response.
#[derive(Clone, Copy, Debug, PartialEq, Eq, Structural)]
pub enum PageStep {
    /// Wait `delay_ms`, then request page `page`.
    Fetch { page: u32, delay_ms: u64 },
    /// The last page is in; the members are complete.
    Done,
    /// Stop: the walk failed.
    Failed(FetchError),
}

/// Where the walk stands.
#[derive(Clone, Copy, Debug, PartialEq, Eq, Structural)]
pub enum Phase {
    /// Page `page` is to be requested next.
    Fetching,
    Finished,
    Failed(FetchError),
}

/// A success status: 200 to 299.
pub open spec fn is_success(status: u16) -> bool {
    200 <= status <= 299
}

/// How one response moves the walk: `before` and `after` are the walk around
/// the call, `r` what the caller is told to do.
pub open spec fn step_spec(
    before: Paginator,
    after: Paginator,
    status: u16,
    response: Option<MembersResponse>,
    r: PageStep,
) -> bool {
    if !is_success(status) {
        &&& r == PageStep::Failed(FetchError::Api(status))
        &&& after.spec_members() == before.spec_members()
        &&& after.spec_phase() == Phase::Failed(FetchError::Api(status))
    } else {
        match response {
            None => {
                &&& r == PageStep::Failed(FetchError::Decode)
                &&& after.spec_members() == before.spec_members()
                &&& after.spec_phase() == Phase::Failed(FetchError::Decode)
            },
            Some(p) => {
                let last = p.meta.pagination.page >= p.meta.pagination.pages || before.spec_page()
                    == u32::MAX;
                &&& after.spec_members() == before.spec_members() + p.members@
                &&& last ==> r == PageStep::Done && after.spec_phase() == Phase::Finished
                &&& !last ==> r == (PageStep::Fetch {
                    page: (before.spec_page() + 1) as u32,
                    delay_ms: PAGE_DELAY_MS,
                }) && after.spec_phase() == Phase::Fetching && after.spec_page() == before.spec_page()
                    + 1
            },
        }
    }
}

/// A first page that reports no pages, or itself as the last one, ends the
/// walk after that single request.
pub proof fn lemma_first_page_can_be_last(start: Paginator, after: Paginator, status: u16, p: MembersResponse, r: PageStep)
    requires
        start.spec_page() == 1,
        start.spec_members() == Seq::<Member>::empty(),
        is_success(status),
        p.meta.pagination.pages == 0 || p.meta.pagination.page == p.meta.pagination.pages,
        step_spec(start, after, status, Some(p), r),
    ensures
        r == PageStep::Done,
        after.spec_phase() == Phase::Finished,
        after.spec_members() == p.members@,
{
    assert(Seq::<Member>::empty() + p.members@ =~= p.members@);
}

/// The members of a run of pages, in order.
pub open spec fn members_of_pages(pages: Seq<MembersResponse>) -> Seq<Member>
    decreases pages.len(),
{
    if pages.len() == 0 {
        Seq::empty()
    } else {
        members_of_pages(pages.drop_last()) + pages.last().members@
    }
}

/// A walk over `pages`, each answered with success and reporting itself as
/// page `i + 1` of `pages.len()`: `states[i]` is the walk before response
/// `i`, `steps[i]` what it told the caller.
pub open spec fn regular_walk(
    states: Seq<Paginator>,
    pages: Seq<MembersResponse>,
    statuses: Seq<u16>,
    steps: Seq<PageStep>,
) -> bool {
    &&& states.len() == pages.len() + 1
    &&& statuses.len() == pages.len()
    &&& steps.len() == pages.len()
    &&& states[0].spec_page() == 1
    &&& states[0].spec_members() == Seq::<Member>::empty()
    &&& forall|i: int|
        0 <= i < pages.len() ==> {
            &&& is_success(#[trigger] statuses[i])
            &&& pages[i].meta.pagination.page == i + 1
            &&& pages[i].meta.pagination.pages == pages.len()
            &&& step_spec(states[i], states[i + 1], statuses[i], Some(pages[i]), steps[i])
        }
}

proof fn lemma_walk_prefix(
    states: Seq<Paginator>,
    pages: Seq<MembersResponse>,
    statuses: Seq<u16>,
    steps: Seq<PageStep>,
    k: int,
)
    requires
        regular_walk(states, pages, statuses, steps),
        pages.len() < u32::MAX,
        0 <= k <= pages.len(),
    ensures
        k < pages.len() ==> states[k].spec_page() == k + 1,
        states[k].spec_members() == members_of_pages(pages.subrange(0, k)),
    decreases k,
{
    if k == 0 {
        assert(pages.subrange(0, 0) =~= Seq::<MembersResponse>::empty());
    } else {
        lemma_walk_prefix(states, pages, statuses, steps, k - 1);
        assert(is_success(statuses[k - 1]));
        assert(pages.subrange(0, k).drop_last() =~= pages.subrange(0, k - 1));
        assert(pages.subrange(0, k).last() == pages[k - 1]);
    }
}

/// Pages that each report their own number, out of a fixed total, are asked
/// for one after another with a delay before each but the first; the walk
/// ends on the last of them, and the members are those of all the pages,
/// in request order.
pub proof fn lemma_pages_accumulate(
    states: Seq<Paginator>,
    pages: Seq<MembersResponse>,
    statuses: Seq<u16>,
    steps: Seq<PageStep>,
)
    requires
        regular_walk(states, pages, statuses, steps),
        1 <= pages.len() < u32::MAX,
    ensures
        forall|i: int|
            0 <= i < pages.len() - 1 ==> #[trigger] steps[i] == (PageStep::Fetch {
                page: (i + 2) as u32,
                delay_ms: PAGE_DELAY_MS,
            }),
        steps[pages.len() - 1] == PageStep::Done,
        states[pages.len() as int].spec_phase() == Phase::Finished,
        states[pages.len() as int].spec_members() == members_of_pages(pages),
{
    let n = pages.len() as int;
    assert forall|i: int| 0 <= i < n - 1 implies #[trigger] steps[i] == (PageStep::Fetch {
        page: (i + 2) as u32,
        delay_ms: PAGE_DELAY_MS,
    }) by {
        lemma_walk_prefix(states, pages, statuses, steps, i);
        assert(is_success(statuses[i]));
    }
    lemma_walk_prefix(states, pages, statuses, steps, n - 1);
    assert(is_success(statuses[n - 1]));
    lemma_walk_prefix(states, pages, statuses, steps, n);
    assert(pages.subrange(0, n) =~= pages);
}

/// Gathers the members listing page by page.
pub struct Paginator {
    page: u32,
    members: Vec<Member>,
    phase: Phase,
}

impl Paginator {
    /// The page to request next (meaningful while fetching).
    pub closed spec fn spec_page(&self) -> u32 {
        self.page
    }

    /// The members gathered so far, in request order.
    pub closed spec fn spec_members(&self) -> Seq<Member> {
        self.members@
    }

    pub closed spec fn spec_phase(&self) -> Phase {
        self.phase
    }

    /// A walk that has not started: page 1 is requested first.
    pub fn new() -> (r: Paginator)
        ensures
            r.spec_page() == 1,
            r.spec_members() == Seq::<Member>::empty(),
            r.spec_phase() == Phase::Fetching,
    {
        Paginator { page: 1, members: Vec::new(), phase: Phase::Fetching }
    }

    /// The page to request next.
    pub fn page(&self) -> (r: u32)
        ensures
            r == self.spec_page(),
    {
        self.page
    }

    /// Where the walk stands.
    pub fn phase(&self) -> (r: Phase)
        ensures
            r == self.spec_phase(),
    {
        self.phase
    }

    /// Takes the answer to the request for the current page: its status and,
    /// where its body decoded, the page. A success appends the page's members;
    /// the walk ends when the page reports itself at or past the last page
    /// (a listing of zero pages included), or when no page number is left to
    /// ask for, and otherwise asks for the next page after a delay.
    pub fn on_response(&mut self, status: u16, response: Option<MembersResponse>) -> (r: PageStep)
        requires
            old(self).spec_phase() == Phase::Fetching,
        ensures
            ({
                let before = *old(self);
                let after = *final(self);
                step_spec(before, after, status, response, r)
            }),
    {
        if status < 200 || status > 299 {
            self.phase = Phase::Failed(FetchError::Api(status));
            return PageStep::Failed(FetchError::Api(status));
        }
        match response {
            None => {
                self.phase = Phase::Failed(FetchError::Decode);
                PageStep::Failed(FetchError::Decode)
            },
            Some(p) => {
                let reported = p.meta.pagination;
                let mut members = p.members;
                self.members.append(&mut members);
                if reported.page >= reported.pages || self.page == u32::MAX {
                    self.phase = Phase::Finished;
                    PageStep::Done
                } else {
                    self.page = self.page + 1;
                    PageStep::Fetch { page: self.page, delay_ms: PAGE_DELAY_MS }
                }
            },
        }
    }

    /// The members gathered, in request order.
    pub fn into_members(self) -> (r: Vec<Member>)
        ensures
            r@ == self.spec_members(),
    {
        self.members
    }
}

} // verus!
