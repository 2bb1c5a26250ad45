//! Pages of a list endpoint, and the traversal across them.
//!
//! A traversal keeps no connection: it is a value that says what to fetch
//! next and holds the items gathered so far. The caller fetches, hands the
//! page over, and asks again, until the traversal is finished.

use vstd::prelude::*;
use crate::dispatch::Reply;
use crate::dispatch::is_success;
use crate::dispatch::rejection;
use crate::dispatch::get;
use crate::error::Error;
use crate::error::ErrorView;
use crate::query::Param;
use crate::request::Request;
use crate::request::Target;
use crate::request::same_request;

verus! {

/// One page of a list: its items in the server's order, and the token of the
/// page after it, where there is one.
#[derive(Debug, Clone, PartialEq, Eq)]
pub struct Page<T> {
    pub items: Vec<T>,
    pub next: Option<String>,
}

impl<T> Page<T> {
    /// Whether no page follows this one.
    pub fn is_last(&self) -> (r: bool)
        ensures
            r == (self.next is None),
    {
        self.next.is_none()
    }

    /// The request for the page after this one, if the server named one.
    pub fn next_request(&self) -> (r: Option<Request>)
        ensures
            match self.next {
                Some(token) => r is Some && follows(r->Some_0, token@),
                None => r is None,
            },
    {
        match &self.next {
            Some(token) => Some(Request::following(token.clone())),
            None => None,
        }
    }
}

/// Whether `request` is the fetch of the page that `token` stands for: it
/// goes to the token, with no parameters and no entity tag.
pub open spec fn follows(request: Request, token: Seq<char>) -> bool {
    &&& request.target matches Target::Continuation(t) && t@ == token
    &&& request.query@ == Seq::<Param>::empty()
    &&& request.if_none_match is None
}

/// The result of fetching one page of a list.
///
/// As a plain fetch, with the decoded items wrapped into a page that carries
/// the continuation token of the response.
pub fn list_page<T, D: Fn(&Vec<u8>) -> Option<Vec<T>>>(reply: Reply, decode: D) -> (r: Result<
    Page<T>,
    Error,
>)
    requires
        match reply {
            Reply::Failed => true,
            Reply::Received(response) => is_success(response.status) ==> decode.requires(
                (&response.body,),
            ),
        },
    ensures
        match reply {
            Reply::Failed => r is Err && r->Err_0@ == ErrorView::Transport,
            Reply::Received(response) => if is_success(response.status) {
                match r {
                    Ok(page) => page.next == response.next && decode.ensures(
                        (&response.body,),
                        Some(page.items),
                    ),
                    Err(e) => e@ == (ErrorView::Serialization { body_len: response.body@.len() })
                        && decode.ensures((&response.body,), None),
                }
            } else {
                r is Err && r->Err_0@ == rejection(response.status, response.body@)
            },
        },
{
    match get(&reply, decode) {
        Ok(items) => match reply {
            Reply::Received(response) => Ok(Page { items, next: response.next }),
            Reply::Failed => Err(Error::Transport),
        },
        Err(e) => Err(e),
    }
}

/// What a traversal fetches next.
#[derive(Debug, Clone, PartialEq, Eq)]
pub enum Cursor {
    /// Nothing was fetched yet: the first request is due.
    First,
    /// The page that the token stands for is due.
    Following(String),
    /// The last page came: nothing is due.
    Finished,
}

/// A [`Cursor`] as a mathematical value.
pub enum CursorView {
    First,
    Following(Seq<char>),
    Finished,
}

impl View for Cursor {
    type V = CursorView;

    open spec fn view(&self) -> CursorView {
        match *self {
            Cursor::First => CursorView::First,
            Cursor::Following(token) => CursorView::Following(token@),
            Cursor::Finished => CursorView::Finished,
        }
    }
}

/// A traversal as a mathematical value: the items gathered, and what is due.
pub struct Progress<T> {
    pub items: Seq<T>,
    pub cursor: CursorView,
}

/// A traversal of a list across its pages.
#[derive(Debug, Clone)]
pub struct Traversal<T> {
    items: Vec<T>,
    cursor: Cursor,
}

impl<T> View for Traversal<T> {
    type V = Progress<T>;

    closed spec fn view(&self) -> Progress<T> {
        Progress { items: self.items@, cursor: self.cursor@ }
    }
}

/// The traversal before anything was fetched.
pub open spec fn start<T>() -> Progress<T> {
    Progress { items: Seq::empty(), cursor: CursorView::First }
}

/// The traversal after `page` came in. Its items go behind those gathered
/// before, none dropped and none reordered. A finished traversal takes no
/// page: it stays as it is.
pub open spec fn step<T>(before: Progress<T>, page: Page<T>) -> Progress<T> {
    if before.cursor is Finished {
        before
    } else {
        Progress {
            items: before.items + page.items@,
            cursor: match page.next {
                Some(token) => CursorView::Following(token@),
                None => CursorView::Finished,
            },
        }
    }
}

/// The traversal after the pages of `pages` came in, one after the other.
pub open spec fn run<T>(pages: Seq<Page<T>>) -> Progress<T>
    decreases pages.len(),
{
    if pages.len() == 0 {
        start()
    } else {
        step(run(pages.drop_last()), pages.last())
    }
}

/// The items of all of `pages`: page after page, and within a page in its
/// own order.
pub open spec fn concat_items<T>(pages: Seq<Page<T>>) -> Seq<T>
    decreases pages.len(),
{
    if pages.len() == 0 {
        Seq::empty()
    } else {
        concat_items(pages.drop_last()) + pages.last().items@
    }
}

/// The sum of the item counts of `pages`.
pub open spec fn total_items<T>(pages: Seq<Page<T>>) -> nat
    decreases pages.len(),
{
    if pages.len() == 0 {
        0
    } else {
        total_items(pages.drop_last()) + pages.last().items@.len()
    }
}

/// Whether `pages` is what a server hands out for one list: every page but
/// the last names the page after it, and the last names none.
pub open spec fn is_chain<T>(pages: Seq<Page<T>>) -> bool {
    &&& pages.len() > 0
    &&& forall|i: int| 0 <= i < pages.len() - 1 ==> (#[trigger] pages[i]).next is Some
    &&& pages.last().next is None
}

impl<T> Traversal<T> {
    /// A traversal that has fetched nothing.
    pub fn begin() -> (r: Traversal<T>)
        ensures
            r@ == start::<T>(),
    {
        Traversal { items: Vec::new(), cursor: Cursor::First }
    }

    /// Whether the last page came.
    pub fn is_finished(&self) -> (r: bool)
        ensures
            r == (self@.cursor is Finished),
    {
        match self.cursor {
            Cursor::Finished => true,
            _ => false,
        }
    }

    /// The number of items gathered so far.
    pub fn len(&self) -> (r: usize)
        ensures
            r == self@.items.len(),
    {
        self.items.len()
    }

    /// The request that is due: `first` at the start, the fetch of the
    /// continuation token after a page that named one, none at the end.
    pub fn next_request(&self, first: &Request) -> (r: Option<Request>)
        ensures
            match self@.cursor {
                CursorView::First => r is Some && same_request(r->Some_0, *first),
                CursorView::Following(token) => r is Some && follows(r->Some_0, token),
                CursorView::Finished => r is None,
            },
    {
        match &self.cursor {
            Cursor::First => Some(first.duplicate()),
            Cursor::Following(token) => Some(Request::following(token.clone())),
            Cursor::Finished => None,
        }
    }

    /// Takes in the page that answered the request that was due.
    pub fn absorb(&mut self, page: Page<T>)
        ensures
            final(self)@ == step(old(self)@, page),
    {
        if !self.is_finished() {
            let mut page = page;
            self.items.append(&mut page.items);
            self.cursor = match page.next {
                Some(token) => Cursor::Following(token),
                None => Cursor::Finished,
            };
        }
    }

    /// The items gathered, in the order in which they came.
    pub fn into_items(self) -> (r: Vec<T>)
        ensures
            r@ == self@.items,
    {
        self.items
    }
}

/// The items of a whole traversal for which the server answers with `pages`,
/// in this order: those of every page up to the first that names no
/// successor, that page included.
pub fn collect<T>(pages: Vec<Page<T>>) -> (r: Vec<T>)
    ensures
        r@ == run(pages@).items,
{
    let ghost all = pages@;
    let mut traversal: Traversal<T> = Traversal::begin();
    assert(all.take(0) =~= Seq::<Page<T>>::empty());
    for page in it: pages.into_iter()
        invariant
            it.seq() == all,
            traversal@ == run(all.take(it.index() as int)),
    {
        proof {
            let k = it.index() as int;
            assert(all.take(k + 1).drop_last() =~= all.take(k));
            assert(all.take(k + 1).last() == page);
        }
        traversal.absorb(page);
    }
    assert(all.take(all.len() as int) =~= all);
    traversal.into_items()
}

/// The item count of a list of pages is the sum of the pages' counts.
pub proof fn concat_items_len<T>(pages: Seq<Page<T>>)
    ensures
        concat_items(pages).len() == total_items(pages),
    decreases pages.len(),
{
    if pages.len() > 0 {
        concat_items_len(pages.drop_last());
    }
}

/// While every page names a successor, the traversal has gathered the items
/// of all pages so far, in order, and is not finished.
pub proof fn traversal_in_progress<T>(pages: Seq<Page<T>>)
    requires
        forall|i: int| 0 <= i < pages.len() ==> (#[trigger] pages[i]).next is Some,
    ensures
        run(pages).items == concat_items(pages),
        !(run(pages).cursor is Finished),
    decreases pages.len(),
{
    if pages.len() > 0 {
        let front = pages.drop_last();
        assert forall|i: int| 0 <= i < front.len() implies (#[trigger] front[i]).next is Some by {
            assert(front[i] == pages[i]);
        }
        traversal_in_progress(front);
    }
}

/// A traversal over the pages of one list yields the items of every page,
/// page after page and within each page in its own order; their number is
/// the sum of the pages' counts; it is finished once the last page came and
/// at no point before.
pub proof fn traversal_of_chain<T>(pages: Seq<Page<T>>)
    requires
        is_chain(pages),
    ensures
        run(pages).items == concat_items(pages),
        run(pages).items.len() == total_items(pages),
        run(pages).cursor is Finished,
        forall|k: int| 0 <= k < pages.len() ==> !(#[trigger] run(pages.take(k)).cursor is Finished),
{
    let front = pages.drop_last();
    assert forall|i: int| 0 <= i < front.len() implies (#[trigger] front[i]).next is Some by {
        assert(front[i] == pages[i]);
    }
    traversal_in_progress(front);
    concat_items_len(pages);
    assert forall|k: int| 0 <= k < pages.len() implies !(#[trigger] run(pages.take(k)).cursor
        is Finished) by {
        let prefix = pages.take(k);
        assert forall|i: int| 0 <= i < prefix.len() implies (#[trigger] prefix[i]).next is Some by {
            assert(prefix[i] == pages[i]);
        }
        traversal_in_progress(prefix);
    }
}

/// A finished traversal stays as it is, whatever pages are handed to it.
pub proof fn finished_is_final<T>(pages: Seq<Page<T>>, more: Seq<Page<T>>)
    requires
        run(pages).cursor is Finished,
    ensures
        run(pages + more) == run(pages),
    decreases more.len(),
{
    if more.len() == 0 {
        assert(pages + more =~= pages);
    } else {
        finished_is_final(pages, more.drop_last());
        assert((pages + more).drop_last() =~= pages + more.drop_last());
        assert((pages + more).last() == more.last());
    }
}

} // verus!
