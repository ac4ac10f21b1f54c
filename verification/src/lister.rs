//! Paging through the subscription listing of the source account.
//!
//! A [`Lister`] says which page to request next and takes what each page
//! holds. It gathers the item ids page by page, in the order of the pages and
//! within a page in the order of the page, and is done with the first page
//! that holds none.

use crate::decimal::{decimal, decimal_string};
use crate::page::{page_ids, page_item_ids, PageError};
use crate::request::{Request, RequestView};
use vstd::prelude::*;
use vstd::string::*;

verus! {

/// The line that reports a page with items: the page's number and the number
/// of items gathered so far.
pub open spec fn page_line(page: nat, count: nat) -> Seq<char> {
    "Page "@ + decimal(page) + " done.  "@ + decimal(count) + " items collected"@
}

/// The line that reports the end of the listing and the number of items in it.
pub open spec fn total_line(count: nat) -> Seq<char> {
    "All pages done. Total "@ + decimal(count) + " items collected"@
}

/// The pages of a listing, joined in order.
pub open spec fn joined(pages: Seq<Seq<i64>>) -> Seq<i64>
    decreases pages.len(),
{
    if pages.len() == 0 {
        Seq::empty()
    } else {
        joined(pages.drop_last()) + pages.last()
    }
}

/// The state of a listing in progress.
pub struct ListerView {
    /// The account whose subscriptions are listed.
    pub username: Seq<char>,
    /// The application whose items are listed.
    pub app_id: i64,
    /// The session cookie sent with each request.
    pub cookie: Seq<char>,
    /// The number of the page to request next, counted from one.
    pub page: nat,
    /// The item ids gathered so far.
    pub ids: Seq<i64>,
    /// Whether a page without items has been seen.
    pub done: bool,
}

impl ListerView {
    /// A listing of which nothing has been fetched yet.
    pub open spec fn start(username: Seq<char>, app_id: i64, cookie: Seq<char>) -> ListerView {
        ListerView { username, app_id, cookie, page: 1, ids: Seq::empty(), done: false }
    }

    /// The request to send next, if the listing is not done.
    pub open spec fn request(self) -> Option<RequestView> {
        if self.done {
            None
        } else {
            Some(RequestView::listing(self.username, self.app_id as int, self.cookie, self.page))
        }
    }

    /// The listing after a page that holds the items `found`. A page without
    /// items ends the listing and leaves what was gathered as it is; a page
    /// with items adds them and moves on to the next page. A listing that
    /// is done takes no further page.
    pub open spec fn accept(self, found: Seq<i64>) -> ListerView {
        if self.done {
            self
        } else if found.len() == 0 {
            ListerView { done: true, ..self }
        } else {
            ListerView { ids: self.ids + found, page: self.page + 1, ..self }
        }
    }

    /// The line to print for a page that holds the items `found`.
    pub open spec fn report(self, found: Seq<i64>) -> Option<Seq<char>> {
        if self.done {
            None
        } else if found.len() == 0 {
            Some(total_line(self.ids.len()))
        } else {
            Some(page_line(self.page, self.ids.len() + found.len()))
        }
    }

    /// The listing after a page with the markup `html`, and the line to
    /// print for it: the page's item ids are taken as by
    /// [`ListerView::accept`]. A page whose ids cannot be read ends the
    /// listing with the reason. A listing that is done does not look at
    /// the page.
    pub open spec fn accept_page(self, html: Seq<char>) -> Result<
        (ListerView, Option<Seq<char>>),
        PageError,
    > {
        if self.done {
            Ok((self, None))
        } else {
            match page_ids(html) {
                Ok(found) => Ok((self.accept(found), self.report(found))),
                Err(e) => Err(e),
            }
        }
    }

    /// The listing after the pages `pages`, taken in order.
    pub open spec fn run(self, pages: Seq<Seq<i64>>) -> ListerView
        decreases pages.len(),
    {
        if pages.len() == 0 {
            self
        } else {
            self.run(pages.drop_last()).accept(pages.last())
        }
    }
}

/// A listing in progress.
#[derive(Debug)]
pub struct Lister {
    username: String,
    app_id: i64,
    cookie: String,
    page: u128,
    ids: Vec<i64>,
    done: bool,
}

impl View for Lister {
    type V = ListerView;

    closed spec fn view(&self) -> ListerView {
        ListerView {
            username: self.username@,
            app_id: self.app_id,
            cookie: self.cookie@,
            page: self.page as nat,
            ids: self.ids@,
            done: self.done,
        }
    }
}

impl Lister {
    /// Every page before the next one has added at least one item.
    #[verifier::type_invariant]
    spec fn counted(&self) -> bool {
        1 <= self.page <= self.ids@.len() + 1
    }

    /// Starts the listing of the subscriptions of `username` for the
    /// application `app_id`.
    pub fn new(username: String, app_id: i64, cookie: String) -> (lister: Lister)
        ensures
            lister@ == ListerView::start(username@, app_id, cookie@),
    {
        Lister { username, app_id, cookie, page: 1, ids: Vec::new(), done: false }
    }

    /// The request to send next, or `None` when the listing is done.
    pub fn request(&self) -> (request: Option<Request>)
        ensures
            request.deep_view() == self@.request(),
    {
        if self.done {
            None
        } else {
            Some(
                Request::listing(
                    self.username.as_str(),
                    self.app_id,
                    self.cookie.as_str(),
                    self.page,
                ),
            )
        }
    }

    /// Takes the items of the page that was requested last. Returns the
    /// listing after that page and the line that reports the page.
    pub fn accept_ids(self, found: Vec<i64>) -> (next: (Lister, Option<String>))
        ensures
            next.0@ == self@.accept(found@),
            next.1.deep_view() == self@.report(found@),
    {
        proof {
            use_type_invariant(&self);
        }
        if self.done {
            return (self, None);
        }
        let Lister { username, app_id, cookie, page, ids, done: _ } = self;
        if found.len() == 0 {
            let mut line = String::from_str("All pages done. Total ");
            line.append(decimal_string(ids.len() as u128).as_str());
            line.append(" items collected");
            return (Lister { username, app_id, cookie, page, ids, done: true }, Some(line));
        }
        let mut ids = ids;
        let mut found = found;
        ids.append(&mut found);
        let mut line = String::from_str("Page ");
        line.append(decimal_string(page).as_str());
        line.append(" done.  ");
        line.append(decimal_string(ids.len() as u128).as_str());
        line.append(" items collected");
        (Lister { username, app_id, cookie, page: page + 1, ids, done: false }, Some(line))
    }

    /// Takes the markup of the page that was requested last. Returns the
    /// listing after that page and the line that reports the page, or the
    /// reason why the page's item ids cannot be read.
    pub fn accept_page(self, html: &str) -> (next: Result<(Lister, Option<String>), PageError>)
        ensures
            match next {
                Ok(taken) => self@.accept_page(html@) == Ok::<
                    (ListerView, Option<Seq<char>>),
                    PageError,
                >((taken.0@, taken.1.deep_view())),
                Err(e) => self@.accept_page(html@) == Err::<
                    (ListerView, Option<Seq<char>>),
                    PageError,
                >(e),
            },
    {
        if self.done {
            return Ok((self, None));
        }
        match page_item_ids(html) {
            Ok(found) => Ok(self.accept_ids(found)),
            Err(e) => Err(e),
        }
    }

    /// Whether a page without items has been seen.
    pub fn is_done(&self) -> (done: bool)
        ensures
            done == self@.done,
    {
        self.done
    }

    /// The number of the page to request next, counted from one.
    pub fn page(&self) -> (page: u128)
        ensures
            page == self@.page,
    {
        self.page
    }

    /// The item ids gathered so far.
    pub fn ids(&self) -> (ids: &Vec<i64>)
        ensures
            ids@ == self@.ids,
    {
        &self.ids
    }

    /// Gives up the listing for the item ids gathered so far.
    pub fn into_ids(self) -> (ids: Vec<i64>)
        ensures
            ids@ == self@.ids,
    {
        self.ids
    }
}

/// A page that yields no item ids ends the listing: what was gathered from
/// the pages before stays as it is, nothing more is requested, and the same
/// page again changes nothing.
pub proof fn lemma_empty_page_ends_listing(lister: ListerView, html: Seq<char>)
    requires
        page_ids(html) == Ok::<Seq<i64>, PageError>(Seq::empty()),
    ensures
        lister.accept_page(html) matches Ok(after) && after.0.done && after.0.ids == lister.ids
            && after.0.request() is None && after.0.accept_page(html) == Ok::<
            (ListerView, Option<Seq<char>>),
            PageError,
        >((after.0, None)),
{
}

/// Pages that all hold items are all taken: the listing is not done after
/// them, has gathered their items in order, and asks for the page after them.
proof fn lemma_run_full_pages(lister: ListerView, pages: Seq<Seq<i64>>)
    requires
        !lister.done,
        forall|j: int| 0 <= j < pages.len() ==> (#[trigger] pages[j]).len() > 0,
    ensures
        lister.run(pages) == (ListerView {
            ids: lister.ids + joined(pages),
            page: lister.page + pages.len(),
            ..lister
        }),
    decreases pages.len(),
{
    if pages.len() > 0 {
        lemma_run_full_pages(lister, pages.drop_last());
        assert(lister.ids + joined(pages.drop_last()) + pages.last() =~= lister.ids + joined(
            pages,
        ));
    }
}

/// A listing that is done stays as it is, whatever pages follow.
proof fn lemma_run_when_done(lister: ListerView, pages: Seq<Seq<i64>>)
    requires
        lister.done,
    ensures
        lister.run(pages) == lister,
    decreases pages.len(),
{
    if pages.len() > 0 {
        lemma_run_when_done(lister, pages.drop_last());
    }
}

/// Taking two runs of pages one after the other is taking them as one run.
proof fn lemma_run_in_two(lister: ListerView, first: Seq<Seq<i64>>, second: Seq<Seq<i64>>)
    ensures
        lister.run(first + second) == lister.run(first).run(second),
    decreases second.len(),
{
    if second.len() > 0 {
        lemma_run_in_two(lister, first, second.drop_last());
        assert((first + second).drop_last() =~= first + second.drop_last());
    }
}

/// Over any sequence of pages, a listing that is not done gathers exactly the
/// items of the pages before the first page without items, in order, after
/// what it had, and that page is the last one it asks for: with `k` pages
/// before it, `k + 1` requests are made.
pub proof fn lemma_listing_stops_at_first_empty_page(
    lister: ListerView,
    pages: Seq<Seq<i64>>,
    k: int,
)
    requires
        !lister.done,
        0 <= k < pages.len(),
        pages[k].len() == 0,
        forall|j: int| 0 <= j < k ==> (#[trigger] pages[j]).len() > 0,
    ensures
        lister.run(pages).done,
        lister.run(pages).ids == lister.ids + joined(pages.take(k)),
        lister.run(pages).page == lister.page + k,
        lister.run(pages).request() is None,
{
    let before = pages.take(k);
    let upto = pages.take(k + 1);
    let after = pages.skip(k + 1);
    lemma_run_full_pages(lister, before);
    assert(upto.drop_last() =~= before);
    lemma_run_when_done(lister.run(upto), after);
    lemma_run_in_two(lister, upto, after);
    assert(upto + after =~= pages);
}

} // verus!
