use vstd::prelude::*;

use crate::device::Device;
use crate::session::{is_success, is_success_status, AuthError};
use crate::token::Token;

verus! {

/// Records asked for per page.
pub const PAGE_SIZE: u64 = 500;

/// The offset of the first page, as the inventory endpoint counts.
pub const FIRST_OFFSET: u64 = 1;

/// The status by which the controller refuses a credential.
pub const STATUS_UNAUTHORIZED: u16 = 401;

/// Why a paginated fetch was abandoned; nothing fetched is returned then.
#[derive(Clone, Copy, Debug, PartialEq, Eq, Structural)]
pub enum FetchError {
    /// The page was refused again right after the credential was renewed.
    Unauthorized,
    /// The page request failed with this status.
    Status(u16),
    /// Renewing the refused credential failed.
    Renewal(AuthError),
    /// The next offset does not fit in 64 bits.
    OffsetOverflow,
}

/// Where a walk stands.
#[derive(Clone, Copy, Debug, PartialEq, Eq, Structural)]
pub enum FetchPhase {
    /// A page request is in flight.
    AwaitingPage,
    /// The credential was refused; a renewed one is awaited.
    AwaitingRenewal,
    /// An empty page ended the walk and the records were handed out.
    Finished,
    /// The walk was abandoned.
    Failed,
}

/// A walk over the inventory's pages.
pub struct PageFetch {
    /// Offset of the page in flight.
    pub offset: u64,
    /// Whether the page in flight has already been retried after a renewal.
    pub renewed: bool,
    pub phase: FetchPhase,
    /// The credential presented with each request.
    pub credential: Token,
    /// Every record of the pages received so far, in order.
    pub collected: Vec<Device>,
}

/// `PageFetch` with the collected records seen as a sequence.
pub struct FetchView {
    pub offset: u64,
    pub renewed: bool,
    pub phase: FetchPhase,
    pub credential: Token,
    pub collected: Seq<Device>,
}

impl View for PageFetch {
    type V = FetchView;

    open spec fn view(&self) -> FetchView {
        FetchView {
            offset: self.offset,
            renewed: self.renewed,
            phase: self.phase,
            credential: self.credential,
            collected: self.collected@,
        }
    }
}

/// What the surrounding program reports back.
#[derive(Debug)]
pub enum FetchEvent {
    /// The page request was answered with `status`; `records` is the page's
    /// list of devices (read only on success).
    Page { status: u16, records: Vec<Device> },
    /// A renewed credential, obtained bypassing the cache.
    Renewed(Token),
    /// Renewing the credential failed.
    RenewalFailed(AuthError),
}

/// `FetchEvent` with the page's records seen as a sequence.
pub enum FetchEventView {
    Page { status: u16, records: Seq<Device> },
    Renewed(Token),
    RenewalFailed(AuthError),
}

impl View for FetchEvent {
    type V = FetchEventView;

    open spec fn view(&self) -> FetchEventView {
        match self {
            FetchEvent::Page { status, records } => FetchEventView::Page { status: *status, records: records@ },
            FetchEvent::Renewed(t) => FetchEventView::Renewed(*t),
            FetchEvent::RenewalFailed(e) => FetchEventView::RenewalFailed(*e),
        }
    }
}

/// What the surrounding program is asked to do next.
#[derive(Debug)]
pub enum FetchAction {
    /// Request the page at `offset`, `limit` records long, presenting the
    /// walk's current credential.
    RequestPage { offset: u64, limit: u64 },
    /// Obtain a new credential, bypassing the cache, and report it.
    Renew,
    /// The walk is over: these are all the records.
    Complete(Vec<Device>),
    /// The walk failed; no records are returned.
    Abort(FetchError),
    /// The event does not apply in this state; nothing to do.
    Idle,
}

/// `FetchAction` with the handed-out records seen as a sequence.
pub enum FetchActionView {
    RequestPage { offset: u64, limit: u64 },
    Renew,
    Complete(Seq<Device>),
    Abort(FetchError),
    Idle,
}

impl View for FetchAction {
    type V = FetchActionView;

    open spec fn view(&self) -> FetchActionView {
        match self {
            FetchAction::RequestPage { offset, limit } => FetchActionView::RequestPage { offset: *offset, limit: *limit },
            FetchAction::Renew => FetchActionView::Renew,
            FetchAction::Complete(v) => FetchActionView::Complete(v@),
            FetchAction::Abort(e) => FetchActionView::Abort(*e),
            FetchAction::Idle => FetchActionView::Idle,
        }
    }
}

/// The walk as it stands before its first request.
pub open spec fn fetch_start(credential: Token) -> FetchView {
    FetchView {
        offset: FIRST_OFFSET,
        renewed: false,
        phase: FetchPhase::AwaitingPage,
        credential,
        collected: Seq::empty(),
    }
}

/// The abandoned walk: what was collected is dropped.
pub open spec fn failed(s: FetchView) -> FetchView {
    FetchView { phase: FetchPhase::Failed, collected: Seq::empty(), ..s }
}

/// One transition of the walk.
pub open spec fn fetch_step(s: FetchView, e: FetchEventView) -> (FetchView, FetchActionView) {
    match (s.phase, e) {
        (FetchPhase::AwaitingPage, FetchEventView::Page { status, records }) => {
            if is_success_status(status) {
                if records.len() == 0 {
                    (
                        FetchView { phase: FetchPhase::Finished, collected: Seq::empty(), ..s },
                        FetchActionView::Complete(s.collected),
                    )
                } else if s.offset as int + PAGE_SIZE as int > u64::MAX as int {
                    (failed(s), FetchActionView::Abort(FetchError::OffsetOverflow))
                } else {
                    let next = (s.offset + PAGE_SIZE) as u64;
                    (
                        FetchView { offset: next, renewed: false, collected: s.collected + records, ..s },
                        FetchActionView::RequestPage { offset: next, limit: PAGE_SIZE },
                    )
                }
            } else if status == STATUS_UNAUTHORIZED && !s.renewed {
                (
                    FetchView { phase: FetchPhase::AwaitingRenewal, renewed: true, ..s },
                    FetchActionView::Renew,
                )
            } else if status == STATUS_UNAUTHORIZED {
                (failed(s), FetchActionView::Abort(FetchError::Unauthorized))
            } else {
                (failed(s), FetchActionView::Abort(FetchError::Status(status)))
            }
        },
        (FetchPhase::AwaitingRenewal, FetchEventView::Renewed(t)) => (
            FetchView { phase: FetchPhase::AwaitingPage, credential: t, ..s },
            FetchActionView::RequestPage { offset: s.offset, limit: PAGE_SIZE },
        ),
        (FetchPhase::AwaitingRenewal, FetchEventView::RenewalFailed(err)) => (
            failed(s),
            FetchActionView::Abort(FetchError::Renewal(err)),
        ),
        _ => (s, FetchActionView::Idle),
    }
}

/// Runs the walk over a sequence of events, collecting every action.
pub open spec fn fetch_run(s: FetchView, evs: Seq<FetchEventView>) -> (FetchView, Seq<FetchActionView>)
    decreases evs.len(),
{
    if evs.len() == 0 {
        (s, Seq::empty())
    } else {
        let (s1, a) = fetch_step(s, evs[0]);
        let (sf, rest) = fetch_run(s1, evs.drop_first());
        (sf, seq![a] + rest)
    }
}

/// The records of a list of pages, page after page.
pub open spec fn concat_pages(pages: Seq<Seq<Device>>) -> Seq<Device>
    decreases pages.len(),
{
    if pages.len() == 0 {
        Seq::empty()
    } else {
        pages[0] + concat_pages(pages.drop_first())
    }
}

/// The sum of the pages' sizes.
pub open spec fn total_len(pages: Seq<Seq<Device>>) -> nat
    decreases pages.len(),
{
    if pages.len() == 0 {
        0
    } else {
        pages[0].len() + total_len(pages.drop_first())
    }
}

/// Each page answered with success.
pub open spec fn answered_pages(pages: Seq<Seq<Device>>) -> Seq<FetchEventView> {
    Seq::new(pages.len(), |i: int| FetchEventView::Page { status: 200, records: pages[i] })
}

/// Every page but the last holds records, and the last is empty.
pub open spec fn ends_with_first_empty(pages: Seq<Seq<Device>>) -> bool {
    &&& pages.len() >= 1
    &&& pages.last().len() == 0
    &&& forall|i: int| 0 <= i < pages.len() - 1 ==> (#[trigger] pages[i]).len() > 0
}

proof fn lemma_concat_len(pages: Seq<Seq<Device>>)
    ensures
        concat_pages(pages).len() == total_len(pages),
    decreases pages.len(),
{
    if pages.len() > 0 {
        lemma_concat_len(pages.drop_first());
    }
}

/// A finished or failed walk stays put and asks for nothing.
proof fn lemma_fetch_terminal_run(s: FetchView, evs: Seq<FetchEventView>)
    requires
        s.phase is Finished || s.phase is Failed,
    ensures
        fetch_run(s, evs).0 == s,
        fetch_run(s, evs).1.len() == evs.len(),
        forall|i: int| 0 <= i < evs.len() ==> (#[trigger] fetch_run(s, evs).1[i]) is Idle,
    decreases evs.len(),
{
    if evs.len() > 0 {
        lemma_fetch_terminal_run(s, evs.drop_first());
        let rest = fetch_run(s, evs.drop_first()).1;
        assert forall|i: int| 0 <= i < evs.len() implies (#[trigger] fetch_run(s, evs).1[i]) is Idle by {
            if i > 0 {
                assert(fetch_run(s, evs).1[i] == rest[i - 1]);
            }
        }
    }
}

proof fn lemma_pages_run(s: FetchView, pages: Seq<Seq<Device>>, later: Seq<FetchEventView>)
    requires
        s.phase is AwaitingPage,
        ends_with_first_empty(pages),
        s.offset + PAGE_SIZE * (pages.len() - 1) <= u64::MAX,
    ensures
        ({
            let (sf, acts) = fetch_run(s, answered_pages(pages) + later);
            let n = pages.len() as int;
            &&& sf.phase is Finished
            &&& acts.len() == n + later.len()
            &&& forall|i: int| 0 <= i < n - 1 ==> #[trigger] acts[i] == (FetchActionView::RequestPage {
                offset: (s.offset + PAGE_SIZE * (i + 1)) as u64,
                limit: PAGE_SIZE,
            })
            &&& acts[n - 1] == FetchActionView::Complete(s.collected + concat_pages(pages))
            &&& forall|i: int| n <= i < acts.len() ==> (#[trigger] acts[i]) is Idle
        }),
    decreases pages.len(),
{
    let evs = answered_pages(pages) + later;
    let (s1, a) = fetch_step(s, evs[0]);
    let tail = pages.drop_first();
    assert(evs.drop_first() =~= answered_pages(tail) + later);
    let acts = fetch_run(s, evs).1;
    if pages.len() == 1 {
        assert(concat_pages(tail) =~= Seq::<Device>::empty());
        assert(s.collected + concat_pages(pages) =~= s.collected);
        lemma_fetch_terminal_run(s1, later);
        assert(evs.drop_first() =~= later);
        let rest = fetch_run(s1, later).1;
        assert forall|i: int| 1 <= i < acts.len() implies (#[trigger] acts[i]) is Idle by {
            assert(acts[i] == rest[i - 1]);
        }
    } else {
        assert(pages[0].len() > 0);
        assert forall|i: int| 0 <= i < tail.len() - 1 implies (#[trigger] tail[i]).len() > 0 by {
            assert(tail[i] == pages[i + 1]);
        }
        lemma_pages_run(s1, tail, later);
        let rest = fetch_run(s1, evs.drop_first()).1;
        assert(s1.collected + concat_pages(tail) =~= s.collected + concat_pages(pages));
        let n = pages.len() as int;
        assert forall|i: int| 0 <= i < n - 1 implies #[trigger] acts[i] == (FetchActionView::RequestPage {
            offset: (s.offset + PAGE_SIZE * (i + 1)) as u64,
            limit: PAGE_SIZE,
        }) by {
            if i > 0 {
                assert(acts[i] == rest[i - 1]);
            }
        }
        assert(acts[n - 1] == rest[n - 2]);
        assert forall|i: int| n <= i < acts.len() implies (#[trigger] acts[i]) is Idle by {
            assert(acts[i] == rest[i - 1]);
        }
    }
}

/// A walk whose pages all succeed stops at the first empty page: every page
/// before it is followed by a request at the next offset (500 further on), the
/// empty page hands out the records of all pages before it, in order, as many
/// as their sizes add up to, and any later event asks for nothing.
pub proof fn lemma_walk_ends_at_first_empty_page(
    credential: Token,
    pages: Seq<Seq<Device>>,
    later: Seq<FetchEventView>,
)
    requires
        ends_with_first_empty(pages),
        FIRST_OFFSET + PAGE_SIZE * (pages.len() - 1) <= u64::MAX,
    ensures
        ({
            let (sf, acts) = fetch_run(fetch_start(credential), answered_pages(pages) + later);
            let n = pages.len() as int;
            &&& sf.phase is Finished
            &&& acts.len() == n + later.len()
            &&& forall|i: int| 0 <= i < n - 1 ==> #[trigger] acts[i] == (FetchActionView::RequestPage {
                offset: (FIRST_OFFSET + PAGE_SIZE * (i + 1)) as u64,
                limit: PAGE_SIZE,
            })
            &&& acts[n - 1] == FetchActionView::Complete(concat_pages(pages))
            &&& concat_pages(pages).len() == total_len(pages)
            &&& forall|i: int| n <= i < acts.len() ==> (#[trigger] acts[i]) is Idle
        }),
{
    let s = fetch_start(credential);
    lemma_pages_run(s, pages, later);
    assert(s.collected + concat_pages(pages) =~= concat_pages(pages));
    lemma_concat_len(pages);
}

impl PageFetch {
    /// Begins a walk with `credential`: the first page is requested at once.
    pub fn start(credential: Token) -> (r: (PageFetch, FetchAction))
        ensures
            r.0@ == fetch_start(credential),
            r.1@ == (FetchActionView::RequestPage { offset: FIRST_OFFSET, limit: PAGE_SIZE }),
    {
        let f = PageFetch {
            offset: FIRST_OFFSET,
            renewed: false,
            phase: FetchPhase::AwaitingPage,
            credential,
            collected: Vec::new(),
        };
        (f, FetchAction::RequestPage { offset: FIRST_OFFSET, limit: PAGE_SIZE })
    }

    /// Feeds one event in; yields the walk's next state and what to do.
    pub fn step(self, e: FetchEvent) -> (r: (PageFetch, FetchAction))
        ensures
            (r.0@, r.1@) == fetch_step(self@, e@),
    {
        let PageFetch { offset, renewed, phase, credential, collected } = self;
        match phase {
            FetchPhase::AwaitingPage => match e {
                FetchEvent::Page { status, records } => {
                    if is_success(status) {
                        if records.len() == 0 {
                            let f = PageFetch { offset, renewed, phase: FetchPhase::Finished, credential, collected: Vec::new() };
                            (f, FetchAction::Complete(collected))
                        } else if offset > u64::MAX - PAGE_SIZE {
                            let f = PageFetch { offset, renewed, phase: FetchPhase::Failed, credential, collected: Vec::new() };
                            (f, FetchAction::Abort(FetchError::OffsetOverflow))
                        } else {
                            let mut collected = collected;
                            let mut records = records;
                            collected.append(&mut records);
                            let next = offset + PAGE_SIZE;
                            let f = PageFetch { offset: next, renewed: false, phase, credential, collected };
                            (f, FetchAction::RequestPage { offset: next, limit: PAGE_SIZE })
                        }
                    } else if status == STATUS_UNAUTHORIZED && !renewed {
                        let f = PageFetch { offset, renewed: true, phase: FetchPhase::AwaitingRenewal, credential, collected };
                        (f, FetchAction::Renew)
                    } else {
                        let f = PageFetch { offset, renewed, phase: FetchPhase::Failed, credential, collected: Vec::new() };
                        if status == STATUS_UNAUTHORIZED {
                            (f, FetchAction::Abort(FetchError::Unauthorized))
                        } else {
                            (f, FetchAction::Abort(FetchError::Status(status)))
                        }
                    }
                },
                _ => (PageFetch { offset, renewed, phase, credential, collected }, FetchAction::Idle),
            },
            FetchPhase::AwaitingRenewal => match e {
                FetchEvent::Renewed(t) => {
                    let f = PageFetch { offset, renewed, phase: FetchPhase::AwaitingPage, credential: t, collected };
                    (f, FetchAction::RequestPage { offset, limit: PAGE_SIZE })
                },
                FetchEvent::RenewalFailed(err) => {
                    let f = PageFetch { offset, renewed, phase: FetchPhase::Failed, credential, collected: Vec::new() };
                    (f, FetchAction::Abort(FetchError::Renewal(err)))
                },
                _ => (PageFetch { offset, renewed, phase, credential, collected }, FetchAction::Idle),
            },
            _ => (PageFetch { offset, renewed, phase, credential, collected }, FetchAction::Idle),
        }
    }
}

} // verus!
