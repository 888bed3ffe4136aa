//! Cursor over a paginated, server-side timeline.
//!
//! A [`TimelineCursor`] holds one fetched page of items together with the
//! optional `next` and `prev` locators the server returned for that page.
//! The cursor itself never performs a fetch: the caller asks for the locator
//! of the direction it wants ([`TimelineCursor::advance_target`]), performs
//! the fetch out-of-band, and hands the outcome back to
//! [`TimelineCursor::advance`].  An absent locator is a boundary, not an
//! error: `advance` then leaves the cursor untouched and reports
//! [`AdvanceOutcome::Boundary`].
use vstd::prelude::*;
use crate::Direction;

verus! {

/// One timeline entry; only the item's URI is interpreted here, everything
/// else the server sends is opaque to the cursor.
#[derive(Clone, Debug)]
pub struct StatusItem {
    pub uri: String,
}

impl View for StatusItem {
    type V = Seq<char>;

    open spec fn view(&self) -> Seq<char> {
        self.uri@
    }
}

/// The body of one successful page fetch as the server reported it:
/// the items (absent when the server said "page exists but has nothing")
/// and the locators of the neighbouring pages.
#[derive(Clone, Debug)]
pub struct PageResponse {
    pub items: Option<Vec<StatusItem>>,
    pub next: Option<String>,
    pub prev: Option<String>,
}

/// What a fetch attempt came back with.
#[derive(Clone, Debug)]
pub enum FetchOutcome {
    /// The server answered; the payload is its answer.
    Success(PageResponse),
    /// The transport or the authentication failed; nothing was received.
    TransportFailure,
}

/// Error raised by a traversal whose fetch failed.
#[derive(Clone, Copy, Debug, PartialEq, Eq, Structural)]
pub enum FetchError {
    Transport,
}

/// How a call of [`TimelineCursor::advance`] ended.
#[derive(Clone, Copy, Debug, PartialEq, Eq, Structural)]
pub enum AdvanceOutcome {
    /// The locator for the requested direction was absent; the cursor is
    /// unchanged.  This is a success, not an error.
    Boundary,
    /// The cursor moved and now shows a non-empty page.
    Advanced,
    /// The cursor moved onto a page with no items; its locators were still
    /// updated from the response.
    AdvancedEmpty,
}

/// Mathematical value of a cursor: the item URIs of the current page and the
/// two locators.
pub struct CursorView {
    pub items: Seq<Seq<char>>,
    pub next: Option<Seq<char>>,
    pub prev: Option<Seq<char>>,
}

/// Mathematical value of a page response.
pub struct PageView {
    pub items: Option<Seq<Seq<char>>>,
    pub next: Option<Seq<char>>,
    pub prev: Option<Seq<char>>,
}

/// Mathematical value of a fetch outcome.
pub enum FetchView {
    Success(PageView),
    TransportFailure,
}

pub open spec fn opt_str_view(o: Option<String>) -> Option<Seq<char>> {
    match o {
        Option::Some(s) => Option::Some(s@),
        Option::None => Option::None,
    }
}

pub open spec fn uris_of(items: Seq<StatusItem>) -> Seq<Seq<char>> {
    items.map_values(|it: StatusItem| it@)
}

impl View for PageResponse {
    type V = PageView;

    open spec fn view(&self) -> PageView {
        PageView {
            items: match self.items {
                Option::Some(v) => Option::Some(uris_of(v@)),
                Option::None => Option::None,
            },
            next: opt_str_view(self.next),
            prev: opt_str_view(self.prev),
        }
    }
}

impl View for FetchOutcome {
    type V = FetchView;

    open spec fn view(&self) -> FetchView {
        match self {
            FetchOutcome::Success(p) => FetchView::Success(p@),
            FetchOutcome::TransportFailure => FetchView::TransportFailure,
        }
    }
}

pub open spec fn opt_outcome_view(f: Option<FetchOutcome>) -> Option<FetchView> {
    match f {
        Option::Some(o) => Option::Some(o@),
        Option::None => Option::None,
    }
}

/// The items a page surfaces: its item URIs, or nothing when the server
/// reported an item-less page.
pub open spec fn page_items(p: PageView) -> Seq<Seq<char>> {
    match p.items {
        Option::Some(s) => s,
        Option::None => Seq::empty(),
    }
}

/// The cursor state that landing on page `p` produces: the page's items are
/// shown and both locators are taken verbatim from the response.
pub open spec fn landed(p: PageView) -> CursorView {
    CursorView { items: page_items(p), next: p.next, prev: p.prev }
}

/// The locator a cursor in state `c` holds for direction `d`.
pub open spec fn locator_of(c: CursorView, d: Direction) -> Option<Seq<char>> {
    match d {
        Direction::Next => c.next,
        Direction::Prev => c.prev,
    }
}

/// Complete transition relation of [`TimelineCursor::advance`]: from the
/// prior state and the fetch outcome (absent when no fetch was issued because
/// the locator was absent) to the new state and the reported result.
pub open spec fn advance_transition(
    pre: CursorView,
    fetch: Option<FetchView>,
) -> (CursorView, Result<AdvanceOutcome, FetchError>) {
    match fetch {
        Option::None => (pre, Result::Ok(AdvanceOutcome::Boundary)),
        Option::Some(FetchView::TransportFailure) => (pre, Result::Err(FetchError::Transport)),
        Option::Some(FetchView::Success(p)) => (
            landed(p),
            Result::Ok(
                if page_items(p).len() == 0 {
                    AdvanceOutcome::AdvancedEmpty
                } else {
                    AdvanceOutcome::Advanced
                },
            ),
        ),
    }
}

/// One logical window onto the timeline: the items of the page last fetched
/// and the locators of its neighbours.  Items are kept in server response
/// order, neither re-sorted nor de-duplicated across pages.
#[derive(Clone, Debug)]
pub struct TimelineCursor {
    pub items: Vec<StatusItem>,
    pub next: Option<String>,
    pub prev: Option<String>,
}

impl View for TimelineCursor {
    type V = CursorView;

    open spec fn view(&self) -> CursorView {
        CursorView {
            items: uris_of(self.items@),
            next: opt_str_view(self.next),
            prev: opt_str_view(self.prev),
        }
    }
}

impl TimelineCursor {
    /// Builds the cursor from the outcome of the initial, locator-less fetch.
    pub fn from_initial_fetch(fetch: FetchOutcome) -> (r: Result<TimelineCursor, FetchError>)
        ensures
            match fetch@ {
                FetchView::Success(p) => r matches Ok(c) && c@ == landed(p),
                FetchView::TransportFailure => r matches Err(e) && e == FetchError::Transport,
            },
    {
        match fetch {
            FetchOutcome::Success(p) => {
                let ghost pv = p@;
                let items: Vec<StatusItem> = match p.items {
                    Option::Some(v) => v,
                    Option::None => Vec::new(),
                };
                proof {
                    assert(uris_of(items@) =~= page_items(pv));
                }
                Ok(TimelineCursor { items, next: p.next, prev: p.prev })
            },
            FetchOutcome::TransportFailure => Err(FetchError::Transport),
        }
    }

    /// The locator a fetch in direction `d` must use; `None` means the cursor
    /// is at a boundary in that direction and no fetch is to be issued.
    pub fn advance_target(&self, d: Direction) -> (r: Option<String>)
        ensures
            opt_str_view(r) == locator_of(self@, d),
    {
        match d {
            Direction::Next => match &self.next {
                Option::Some(s) => Option::Some(s.clone()),
                Option::None => Option::None,
            },
            Direction::Prev => match &self.prev {
                Option::Some(s) => Option::Some(s.clone()),
                Option::None => Option::None,
            },
        }
    }

    /// Moves the cursor in direction `d`, given the outcome of the fetch the
    /// caller issued for [`Self::advance_target`]: `fetch` is `Some` exactly
    /// when that target was present.
    ///
    /// An absent locator is a no-op success; a failed fetch leaves the state
    /// untouched and reports the error; a successful fetch replaces the items
    /// and both locators with what the server returned.
    pub fn advance(&mut self, d: Direction, fetch: Option<FetchOutcome>) -> (r: Result<
        AdvanceOutcome,
        FetchError,
    >)
        requires
            fetch is Some <==> locator_of(old(self)@, d) is Some,
        ensures
            (final(self)@, r) == advance_transition(old(self)@, opt_outcome_view(fetch)),
    {
        match fetch {
            Option::None => Ok(AdvanceOutcome::Boundary),
            Option::Some(FetchOutcome::TransportFailure) => Err(FetchError::Transport),
            Option::Some(FetchOutcome::Success(p)) => {
                let ghost pv = p@;
                self.next = p.next;
                self.prev = p.prev;
                match p.items {
                    Option::Some(v) => {
                        self.items = v;
                    },
                    Option::None => {
                        self.items = Vec::new();
                    },
                }
                proof {
                    assert(self@.items =~= page_items(pv));
                }
                if self.items.len() == 0 {
                    Ok(AdvanceOutcome::AdvancedEmpty)
                } else {
                    Ok(AdvanceOutcome::Advanced)
                }
            },
        }
    }
}

/// A traversal whose locator is absent changes nothing and succeeds: from any
/// state `c` with no locator for `d`, the advance transition returns `c`
/// itself and the boundary outcome, never an error.
pub proof fn lemma_boundary_advance_is_noop(c: CursorView, d: Direction)
    requires
        locator_of(c, d) is None,
    ensures
        advance_transition(c, Option::None) == (c, Result::<AdvanceOutcome, FetchError>::Ok(
            AdvanceOutcome::Boundary,
        )),
{
}

/// A traversal whose fetch fails leaves the prior state fully intact and
/// reports the transport error.
pub proof fn lemma_failed_fetch_preserves_state(c: CursorView)
    ensures
        advance_transition(c, Option::Some(FetchView::TransportFailure)) == (c, Result::<
            AdvanceOutcome,
            FetchError,
        >::Err(FetchError::Transport)),
{
}

/// Round trip over a stationary feed: advancing forward onto page `p1` and
/// then backward with `p1`'s `prev` locator, where the backward fetch returns
/// the items the cursor started with, restores the starting items.
pub proof fn lemma_forward_then_back_restores_items(c0: CursorView, p1: PageView, p0: PageView)
    requires
        c0.next is Some,
        p1.prev is Some,
        p0.items == Option::Some(c0.items),
    ensures
        ({
            let (c1, r1) = advance_transition(c0, Option::Some(FetchView::Success(p1)));
            let (c2, r2) = advance_transition(c1, Option::Some(FetchView::Success(p0)));
            &&& r1 is Ok
            &&& locator_of(c1, Direction::Prev) == p1.prev
            &&& r2 is Ok
            &&& c2.items == c0.items
        }),
{
}

/// No stuck cursor: after a successful forward step onto page `p1`, the
/// locator for the following forward step is the one `p1` carried — not the
/// one the cursor held before — so when the server indicates more data and
/// that page's items differ from `p1`'s, the second step shows the new items
/// and never reproduces `p1`'s.
pub proof fn lemma_second_forward_step_is_fresh(c0: CursorView, p1: PageView, p2: PageView)
    requires
        c0.next is Some,
        p1.next is Some,
        page_items(p2) != page_items(p1),
    ensures
        ({
            let (c1, r1) = advance_transition(c0, Option::Some(FetchView::Success(p1)));
            let (c2, r2) = advance_transition(c1, Option::Some(FetchView::Success(p2)));
            &&& r1 is Ok
            &&& locator_of(c1, Direction::Next) == p1.next
            &&& r2 is Ok
            &&& c2.items == page_items(p2)
            &&& c2.items != c1.items
        }),
{
}

} // verus!
