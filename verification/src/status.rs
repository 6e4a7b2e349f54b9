//! The listing of statuses: walking its pages, and the rules by which a
//! status is shown or left out for what it is.

use vstd::prelude::*;
use vstd::string::*;
pub use crate::data::{Links, Station, Status, StatusView, StatusesPage, Train};
use crate::data::next_link;
use crate::http::FetchError;

verus! {

/// Where the listing starts.
pub const STATUSES_URL: &'static str = "https://traewelling.de/api/v1/user/freya/statuses";

/// Why the fetch of a page brought no page.
#[derive(Clone, Copy, Debug, PartialEq, Eq, Structural)]
pub enum PageFailure {
    /// The request for the page was given up.
    Fetch(FetchError),
    /// The body of the page could not be decoded.
    Malformed,
}

/// What came of the fetch of a page, given what came of the request for it:
/// the body decoded to a page, the body that could not be decoded (`None`),
/// or the reason for which the request was given up.
pub open spec fn page_outcome(fetched: Result<Option<StatusesPage>, FetchError>) -> Result<
    StatusesPage,
    PageFailure,
> {
    match fetched {
        Ok(Some(page)) => Ok(page),
        Ok(None) => Err(PageFailure::Malformed),
        Err(error) => Err(PageFailure::Fetch(error)),
    }
}

/// Tells what came of the fetch of a page from what came of the request for
/// it.
pub fn page_from(fetched: Result<Option<StatusesPage>, FetchError>) -> (outcome: Result<
    StatusesPage,
    PageFailure,
>)
    ensures
        outcome == page_outcome(fetched),
{
    match fetched {
        Ok(Some(page)) => Ok(page),
        Ok(None) => Err(PageFailure::Malformed),
        Err(error) => Err(PageFailure::Fetch(error)),
    }
}

/// Where a traversal stands.
#[derive(Clone, Debug, PartialEq, Eq)]
pub enum Cursor {
    /// The page at this address is to be fetched next.
    Next(String),
    /// The last page has been taken in.
    Exhausted,
    /// The fetch of a page brought no page; the traversal was given up.
    Failed(PageFailure),
}

/// A cursor, with the address as its text.
pub enum CursorView {
    Next(Seq<char>),
    Exhausted,
    Failed(PageFailure),
}

impl View for Cursor {
    type V = CursorView;

    open spec fn view(&self) -> CursorView {
        match *self {
            Cursor::Next(url) => CursorView::Next(url@),
            Cursor::Exhausted => CursorView::Exhausted,
            Cursor::Failed(failure) => CursorView::Failed(failure),
        }
    }
}

/// Why a traversal has no result.
#[derive(Clone, Copy, Debug, PartialEq, Eq, Structural)]
pub enum TraverseError {
    /// The request for a page was given up.
    Fetch(FetchError),
    /// The body of a page could not be decoded.
    MalformedPage,
    /// Pages are still to be fetched.
    Unfinished,
}

/// The result of a traversal that stands at `cursor`, over the statuses
/// taken in: the statuses once the last page has been taken in, and otherwise
/// the reason for which there are none. A traversal that was given up yields
/// no part of what it had taken in.
pub open spec fn outcome_of(cursor: CursorView, statuses: Seq<Status>) -> Result<Seq<Status>, TraverseError> {
    match cursor {
        CursorView::Exhausted => Ok(statuses),
        CursorView::Failed(PageFailure::Fetch(error)) => Err(TraverseError::Fetch(error)),
        CursorView::Failed(PageFailure::Malformed) => Err(TraverseError::MalformedPage),
        CursorView::Next(_) => Err(TraverseError::Unfinished),
    }
}

/// A traversal as the rules see it: where it stands, and the statuses taken
/// in so far.
pub struct TraversalView {
    pub cursor: CursorView,
    pub statuses: Seq<Status>,
}

/// The cursor that a page leaves behind.
pub open spec fn cursor_after(page: StatusesPage) -> CursorView {
    match next_link(page) {
        Some(url) => CursorView::Next(url),
        None => CursorView::Exhausted,
    }
}

impl TraversalView {
    /// The traversal that starts at `url`.
    pub open spec fn starting_at(url: Seq<char>) -> TraversalView {
        TraversalView { cursor: CursorView::Next(url), statuses: Seq::empty() }
    }

    /// The traversal after the fetch of the page at the cursor came to its
    /// end. `fetched` is the page that the body decoded to, or the reason for
    /// which there is none: the request was given up, or the body could not
    /// be decoded. The statuses of a page follow those of the pages before
    /// it, in the order in which the page lists them. A fetch that brings no
    /// page ends the traversal, as nothing may be skipped. Once no page is
    /// awaited nothing changes.
    pub open spec fn after(self, fetched: Result<StatusesPage, PageFailure>) -> TraversalView {
        match self.cursor {
            CursorView::Next(_) => match fetched {
                Ok(page) => TraversalView {
                    cursor: cursor_after(page),
                    statuses: self.statuses + page.data@,
                },
                Err(failure) => TraversalView { cursor: CursorView::Failed(failure), ..self },
            },
            _ => self,
        }
    }

    /// The traversal after the first `count` pages of `pages` were taken in,
    /// one after the other.
    pub open spec fn after_pages(self, pages: Seq<StatusesPage>, count: int) -> TraversalView
        decreases count,
    {
        if count <= 0 {
            self
        } else {
            self.after_pages(pages, count - 1).after(Ok(pages[count - 1]))
        }
    }
}

/// The statuses of the first `count` pages, page after page.
pub open spec fn statuses_of(pages: Seq<StatusesPage>, count: int) -> Seq<Status>
    decreases count,
{
    if count <= 0 {
        Seq::empty()
    } else {
        statuses_of(pages, count - 1) + pages[count - 1].data@
    }
}

/// Whether `pages` is a chain: every page but the last links to a successor,
/// and the last links to none.
pub open spec fn is_chain(pages: Seq<StatusesPage>) -> bool {
    &&& pages.len() > 0
    &&& forall|i: int| 0 <= i < pages.len() - 1 ==> (#[trigger] pages[i]).links.next is Some
    &&& pages.last().links.next is None
}

/// Walks the pages of the listing. The caller fetches the page that
/// `next_url` names and hands over what came of the fetch, until no page is
/// named any more.
pub struct PageTraverser {
    cursor: Cursor,
    statuses: Vec<Status>,
}

impl View for PageTraverser {
    type V = TraversalView;

    closed spec fn view(&self) -> TraversalView {
        TraversalView { cursor: self.cursor@, statuses: self.statuses@ }
    }
}

impl PageTraverser {
    /// A traversal that starts at `start_url`.
    pub fn new(start_url: String) -> (traverser: PageTraverser)
        ensures
            traverser@ == TraversalView::starting_at(start_url@),
    {
        PageTraverser { cursor: Cursor::Next(start_url), statuses: Vec::new() }
    }

    /// Where the traversal stands.
    pub fn cursor(&self) -> (cursor: &Cursor)
        ensures
            cursor@ == self@.cursor,
    {
        &self.cursor
    }

    /// The address of the page to fetch next, if there is one.
    pub fn next_url(&self) -> (url: Option<&String>)
        ensures
            match self@.cursor {
                CursorView::Next(next) => url matches Some(text) && text@ == next,
                _ => url is None,
            },
    {
        match &self.cursor {
            Cursor::Next(url) => Some(url),
            _ => None,
        }
    }

    /// How many statuses have been taken in.
    pub fn collected(&self) -> (count: usize)
        ensures
            count == self@.statuses.len(),
    {
        self.statuses.len()
    }

    /// Takes in what came of the fetch of the page that `next_url` named:
    /// the page that its body decoded to, or the reason for which there is
    /// none.
    pub fn accept(&mut self, fetched: Result<StatusesPage, PageFailure>)
        ensures
            final(self)@ == old(self)@.after(fetched),
    {
        let awaited = match self.cursor {
            Cursor::Next(_) => true,
            _ => false,
        };
        if awaited {
            match fetched {
                Ok(page) => {
                    let StatusesPage { data, links } = page;
                    let mut data = data;
                    self.statuses.append(&mut data);
                    self.cursor = match links.next {
                        Some(url) => Cursor::Next(url),
                        None => Cursor::Exhausted,
                    };
                },
                Err(failure) => {
                    self.cursor = Cursor::Failed(failure);
                },
            }
        }
    }

    /// The statuses of all pages, once the last page has been taken in; the
    /// reason for which there are none, where the traversal was given up or
    /// is not over.
    pub fn finish(self) -> (result: Result<Vec<Status>, TraverseError>)
        ensures
            match result {
                Ok(statuses) => outcome_of(self@.cursor, self@.statuses) == Ok::<
                    Seq<Status>,
                    TraverseError,
                >(statuses@),
                Err(error) => outcome_of(self@.cursor, self@.statuses) == Err::<
                    Seq<Status>,
                    TraverseError,
                >(error),
            },
    {
        match self.cursor {
            Cursor::Exhausted => Ok(self.statuses),
            Cursor::Failed(PageFailure::Fetch(error)) => Err(TraverseError::Fetch(error)),
            Cursor::Failed(PageFailure::Malformed) => Err(TraverseError::MalformedPage),
            Cursor::Next(_) => Err(TraverseError::Unfinished),
        }
    }
}

/// Walking a chain of pages takes one fetch per page and yields the statuses
/// of all pages, page after page. The first fetch is that of the start; each
/// later one is that of the address to which the page before links; and
/// after the last page no fetch is awaited.
pub proof fn lemma_chain_traversal(start: Seq<char>, pages: Seq<StatusesPage>)
    requires
        is_chain(pages),
    ensures
        TraversalView::starting_at(start).after_pages(pages, 0).cursor == CursorView::Next(start),
        forall|count: int|
            0 < count < pages.len() ==> (#[trigger] TraversalView::starting_at(start).after_pages(
                pages,
                count,
            )).cursor == CursorView::Next(next_link(pages[count - 1])->0),
        TraversalView::starting_at(start).after_pages(pages, pages.len() as int) == (TraversalView {
            cursor: CursorView::Exhausted,
            statuses: statuses_of(pages, pages.len() as int),
        }),
{
    let first = TraversalView::starting_at(start);
    assert forall|count: int| 0 < count < pages.len() implies (#[trigger] first.after_pages(
        pages,
        count,
    )).cursor == CursorView::Next(next_link(pages[count - 1])->0) by {
        lemma_chain_prefix(start, pages, count);
    }
    lemma_chain_prefix(start, pages, pages.len() as int);
}

proof fn lemma_chain_prefix(start: Seq<char>, pages: Seq<StatusesPage>, count: int)
    requires
        is_chain(pages),
        0 <= count <= pages.len(),
    ensures
        TraversalView::starting_at(start).after_pages(pages, count).statuses == statuses_of(pages, count),
        TraversalView::starting_at(start).after_pages(pages, count).cursor == if count == 0 {
            CursorView::Next(start)
        } else {
            cursor_after(pages[count - 1])
        },
        0 < count < pages.len() ==> cursor_after(pages[count - 1]) == CursorView::Next(
            next_link(pages[count - 1])->0,
        ),
        count == pages.len() ==> cursor_after(pages[count - 1]) == CursorView::Exhausted,
    decreases count,
{
    if count > 0 {
        lemma_chain_prefix(start, pages, count - 1);
        assert(pages[count - 1].links.next is Some <==> count - 1 < pages.len() - 1);
    }
}

/// A fetch that brings no page ends the walk, whether the request was given
/// up or the body could not be decoded. No page is named for fetching any
/// more; whatever is handed over afterwards changes nothing; and the walk
/// has no result but the error, so that no part of the listing comes out.
pub proof fn lemma_failed_fetch_ends_the_walk(
    walk: TraversalView,
    failure: PageFailure,
    next: Result<StatusesPage, PageFailure>,
)
    requires
        walk.cursor is Next,
    ensures
        walk.after(Err(failure)) == (TraversalView {
            cursor: CursorView::Failed(failure),
            statuses: walk.statuses,
        }),
        !(walk.after(Err(failure)).cursor is Next),
        walk.after(Err(failure)).after(next) == walk.after(Err(failure)),
        outcome_of(walk.after(Err(failure)).cursor, walk.after(Err(failure)).statuses) is Err,
        failure matches PageFailure::Fetch(error) ==> outcome_of(
            walk.after(Err(failure)).cursor,
            walk.after(Err(failure)).statuses,
        ) == Err::<Seq<Status>, TraverseError>(TraverseError::Fetch(error)),
        failure is Malformed ==> outcome_of(
            walk.after(Err(failure)).cursor,
            walk.after(Err(failure)).statuses,
        ) == Err::<Seq<Status>, TraverseError>(TraverseError::MalformedPage),
{
}

/// A request for a page that was given up ends the walk with the error of
/// the request: no further page is fetched, and no statuses come out.
pub proof fn lemma_request_given_up_ends_the_walk(walk: TraversalView, error: FetchError)
    requires
        walk.cursor is Next,
    ensures
        !(walk.after(page_outcome(Err(error))).cursor is Next),
        outcome_of(
            walk.after(page_outcome(Err(error))).cursor,
            walk.after(page_outcome(Err(error))).statuses,
        ) == Err::<Seq<Status>, TraverseError>(TraverseError::Fetch(error)),
{
}

/// Whether a status with this visibility may be shown.
pub open spec fn visibility_allowed(code: u8) -> bool {
    code == 0 || code == 1 || code == 2 || code == 4
}

/// Whether this visibility is one that the listing is known to use.
pub open spec fn visibility_known(code: u8) -> bool {
    code <= 4
}

/// Whether journeys of this category are shown: the journeys by rail.
pub open spec fn category_allowed(category: Seq<char>) -> bool {
    ||| category == "nationalExpress"@
    ||| category == "national"@
    ||| category == "regionalExp"@
    ||| category == "regional"@
    ||| category == "suburban"@
    ||| category == "subway"@
    ||| category == "tram"@
}

/// Whether journeys of this category are left out.
pub open spec fn category_denied(category: Seq<char>) -> bool {
    ||| category == "bus"@
    ||| category == "ferry"@
    ||| category == "taxi"@
    ||| category == "plane"@
}

/// The rule on what a status is: its visibility must be allowed, and its
/// category must not be denied. A visibility that is not known is not
/// allowed; a category that is not known is not denied.
pub open spec fn passes_filter(status: StatusView) -> bool {
    visibility_allowed(status.visibility) && !category_denied(status.category)
}

/// What is worth a remark about a status.
#[derive(Clone, Copy, Debug, PartialEq, Eq, Structural)]
pub enum FilterWarning {
    /// The visibility is not a known one; the status is left out.
    UnexpectedVisibility,
    /// The category is not a known one; the status is shown all the same.
    UnexpectedCategory,
}

/// The remark that the rule makes about a status. The category is looked at
/// only where the visibility is allowed.
pub open spec fn warning_for(status: StatusView) -> Option<FilterWarning> {
    if !visibility_known(status.visibility) {
        Some(FilterWarning::UnexpectedVisibility)
    } else if !visibility_allowed(status.visibility) {
        None
    } else if category_allowed(status.category) || category_denied(status.category) {
        None
    } else {
        Some(FilterWarning::UnexpectedCategory)
    }
}

fn category_is(status: &Status, name: &str) -> (same: bool)
    ensures
        same == (status@.category == name@),
{
    let name = String::from_str(name);
    status.train.category == name
}

fn has_allowed_visibility(status: &Status) -> (allowed: bool)
    ensures
        allowed == visibility_allowed(status@.visibility),
{
    let code = status.visibility;
    code == 0 || code == 1 || code == 2 || code == 4
}

fn has_allowed_category(status: &Status) -> (allowed: bool)
    ensures
        allowed == category_allowed(status@.category),
{
    category_is(status, "nationalExpress") || category_is(status, "national") || category_is(
        status,
        "regionalExp",
    ) || category_is(status, "regional") || category_is(status, "suburban") || category_is(
        status,
        "subway",
    ) || category_is(status, "tram")
}

fn has_denied_category(status: &Status) -> (denied: bool)
    ensures
        denied == category_denied(status@.category),
{
    category_is(status, "bus") || category_is(status, "ferry") || category_is(status, "taxi")
        || category_is(status, "plane")
}

/// Whether a status is shown for what it is.
pub fn filter_status(status: &Status) -> (keep: bool)
    ensures
        keep == passes_filter(status@),
{
    has_allowed_visibility(status) && !has_denied_category(status)
}

/// The remark to make about a status, if any.
pub fn filter_warning(status: &Status) -> (warning: Option<FilterWarning>)
    ensures
        warning == warning_for(status@),
{
    if status.visibility > 4 {
        Some(FilterWarning::UnexpectedVisibility)
    } else if !has_allowed_visibility(status) {
        None
    } else if has_allowed_category(status) || has_denied_category(status) {
        None
    } else {
        Some(FilterWarning::UnexpectedCategory)
    }
}

/// No category is both allowed and denied.
pub proof fn lemma_categories_apart(category: Seq<char>)
    ensures
        !(category_allowed(category) && category_denied(category)),
{
    reveal_strlit("nationalExpress");
    reveal_strlit("national");
    reveal_strlit("regionalExp");
    reveal_strlit("regional");
    reveal_strlit("suburban");
    reveal_strlit("subway");
    reveal_strlit("tram");
    reveal_strlit("bus");
    reveal_strlit("ferry");
    reveal_strlit("taxi");
    reveal_strlit("plane");
    if category_allowed(category) && category_denied(category) {
        // Only "tram" and "taxi" are of one length, and they differ.
        assert(category.len() == 4);
        assert(category[1] == 'r');
        assert(category[1] == 'a');
    }
}

/// The rule never turns a status away for a visibility of 0, 1, 2 or 4:
/// such a status passes unless its category is denied. With 3, or with any
/// other visibility, it does not pass.
pub proof fn lemma_visibility_rule(status: StatusView)
    ensures
        status.visibility == 0 || status.visibility == 1 || status.visibility == 2
            || status.visibility == 4 ==> (passes_filter(status) <==> !category_denied(status.category)),
        status.visibility == 3 || status.visibility > 4 ==> !passes_filter(status),
        status.visibility > 4 ==> warning_for(status) == Some(FilterWarning::UnexpectedVisibility),
        status.visibility <= 4 && !passes_filter(status) ==> warning_for(status) is None,
{
}

/// Of the statuses with an allowed visibility, those of an allowed category
/// pass, those of a denied category do not, and those of any other category
/// pass with a remark.
pub proof fn lemma_category_rule(status: StatusView)
    requires
        visibility_allowed(status.visibility),
    ensures
        category_allowed(status.category) ==> passes_filter(status) && warning_for(status) is None,
        category_denied(status.category) ==> !passes_filter(status) && warning_for(status) is None,
        !category_allowed(status.category) && !category_denied(status.category) ==> passes_filter(status)
            && warning_for(status) == Some(FilterWarning::UnexpectedCategory),
{
    lemma_categories_apart(status.category);
}

} // verus!
