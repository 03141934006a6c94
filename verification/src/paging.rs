//! Walking through the pages of a collection.
//!
//! A page comes with the token of the page after it, or with none when it is
//! the last. A [`PageWalk`] holds the rules of going from page to page:
//! which parameters the next request takes, what has been collected, and
//! when the walk is over. The caller sends the requests and hands each page
//! to [`PageWalk::advance`].

use crate::model::accounts::TransactionParams;
use crate::model::accounts::TransactionParamsView;
use vstd::prelude::*;

verus! {

/// One page of a collection.
#[derive(Debug)]
pub struct CollectionPage<T> {
    /// The items of the page, in the order in which the server sent them.
    pub items: Vec<T>,
    /// The server's token for the page after this one, taken from the links
    /// of the response. `None` on the last page.
    pub next_token: Option<String>,
}

/// Mathematical model of a [`CollectionPage`].
pub ghost struct CollectionPageView<T> {
    pub items: Seq<T>,
    pub next_token: Option<Seq<char>>,
}

impl<T> View for CollectionPage<T> {
    type V = CollectionPageView<T>;

    open spec fn view(&self) -> CollectionPageView<T> {
        CollectionPageView {
            items: self.items@,
            next_token: match self.next_token {
                Some(token) => Some(token@),
                None => None,
            },
        }
    }
}

/// Mathematical model of a [`PageWalk`].
pub ghost struct PageWalkView<T> {
    /// The parameters of the next request, or of the last one once the walk
    /// is over.
    pub params: TransactionParamsView,
    /// The items of the pages taken so far, in their order.
    pub items: Seq<T>,
    /// Whether the walk is over.
    pub finished: bool,
}

impl<T> PageWalkView<T> {
    /// The walk before its first request.
    pub open spec fn start(params: TransactionParamsView) -> PageWalkView<T> {
        PageWalkView { params, items: Seq::empty(), finished: false }
    }

    /// Whether a page is the last of the walk that asked for it: it has no
    /// token, or its token is the one that it was asked for with. A server
    /// that hands the same token out again would otherwise be asked for the
    /// same page for ever.
    pub open spec fn ends_with(self, page: CollectionPageView<T>) -> bool {
        page.next_token is None || page.next_token == self.params.forward_paging_token
    }

    /// The walk after the page that was asked for came in.
    ///
    /// The items of the page follow those collected before. Unless the page
    /// is the last, its token becomes the paging token of the next request,
    /// as it is, and the other parameters stay. A walk that is over takes
    /// no further page.
    pub open spec fn step(self, page: CollectionPageView<T>) -> PageWalkView<T> {
        if self.finished {
            self
        } else if self.ends_with(page) {
            PageWalkView { items: self.items + page.items, finished: true, ..self }
        } else {
            PageWalkView {
                params: TransactionParamsView {
                    forward_paging_token: page.next_token,
                    ..self.params
                },
                items: self.items + page.items,
                finished: false,
            }
        }
    }

    /// The walk after a sequence of pages.
    pub open spec fn run(self, pages: Seq<CollectionPageView<T>>) -> PageWalkView<T>
        decreases pages.len(),
    {
        if pages.len() == 0 {
            self
        } else {
            self.run(pages.drop_last()).step(pages.last())
        }
    }
}

/// The items of a sequence of pages, one page after the other.
pub open spec fn all_items<T>(pages: Seq<CollectionPageView<T>>) -> Seq<T>
    decreases pages.len(),
{
    if pages.len() == 0 {
        Seq::empty()
    } else {
        all_items(pages.drop_last()) + pages.last().items
    }
}

/// A page without a token ends the walk.
pub proof fn lemma_page_without_token_ends_walk<T>(walk: PageWalkView<T>, items: Seq<T>)
    ensures
        walk.step(CollectionPageView { items, next_token: None }).finished,
{
}

/// The same token on two pages in a row ends the walk.
pub proof fn lemma_repeated_token_ends_walk<T>(
    walk: PageWalkView<T>,
    first: CollectionPageView<T>,
    second: CollectionPageView<T>,
)
    requires
        first.next_token == second.next_token,
    ensures
        walk.step(first).step(second).finished,
{
}

/// A walk that is over stays as it is, whatever comes.
pub proof fn lemma_finished_walk_stays<T>(walk: PageWalkView<T>, pages: Seq<CollectionPageView<T>>)
    requires
        walk.finished,
    ensures
        walk.run(pages) == walk,
    decreases pages.len(),
{
    if pages.len() > 0 {
        lemma_finished_walk_stays(walk, pages.drop_last());
    }
}

/// A walk changes nothing but the paging token: the time filters and the
/// page size of every request are those of the first.
pub proof fn lemma_walk_keeps_filters<T>(walk: PageWalkView<T>, pages: Seq<CollectionPageView<T>>)
    ensures
        walk.run(pages).params.from_booking_datetime == walk.params.from_booking_datetime,
        walk.run(pages).params.to_booking_datetime == walk.params.to_booking_datetime,
        walk.run(pages).params.page_size == walk.params.page_size,
    decreases pages.len(),
{
    if pages.len() > 0 {
        lemma_walk_keeps_filters(walk, pages.drop_last());
    }
}

/// While a walk goes on, the paging token of its next request is the token
/// of the page that came last, unchanged.
pub proof fn lemma_next_request_carries_last_token<T>(
    walk: PageWalkView<T>,
    pages: Seq<CollectionPageView<T>>,
)
    requires
        pages.len() > 0,
        !walk.run(pages).finished,
    ensures
        pages.last().next_token is Some,
        walk.run(pages).params.forward_paging_token == pages.last().next_token,
{
}

/// A walk that has not ended before its last page has collected the items
/// of all its pages, in the order of the pages.
pub proof fn lemma_walk_collects_all_items<T>(
    walk: PageWalkView<T>,
    pages: Seq<CollectionPageView<T>>,
)
    requires
        !walk.run(pages.drop_last()).finished,
        pages.len() > 0,
    ensures
        walk.run(pages).items == walk.items + all_items(pages),
    decreases pages.len(),
{
    let earlier = pages.drop_last();
    if earlier.len() > 0 {
        if walk.run(earlier.drop_last()).finished {
            lemma_finished_walk_stays(walk.run(earlier.drop_last()), seq![earlier.last()]);
            assert(seq![earlier.last()].drop_last() == Seq::<CollectionPageView<T>>::empty());
        }
        lemma_walk_collects_all_items(walk, earlier);
    } else {
        assert(all_items(earlier) == Seq::<T>::empty());
    }
    assert(walk.run(pages).items == walk.run(earlier).items + pages.last().items);
    assert(walk.items + all_items(pages) == walk.items + all_items(earlier) + pages.last().items);
}

/// The state of a walk through the pages of a transaction query.
#[derive(Debug)]
pub struct PageWalk<T> {
    params: TransactionParams,
    items: Vec<T>,
    finished: bool,
}

impl<T> View for PageWalk<T> {
    type V = PageWalkView<T>;

    closed spec fn view(&self) -> PageWalkView<T> {
        PageWalkView { params: self.params@, items: self.items@, finished: self.finished }
    }
}

impl<T> PageWalk<T> {
    /// Starts a walk. The first request takes `params` as they are.
    pub fn new(params: TransactionParams) -> (r: PageWalk<T>)
        ensures
            r@ == PageWalkView::<T>::start(params@),
    {
        PageWalk { params, items: Vec::new(), finished: false }
    }

    /// Whether the walk is over.
    pub fn is_finished(&self) -> (r: bool)
        ensures
            r == self@.finished,
    {
        self.finished
    }

    /// The parameters of the next request, or `None` when the walk is over.
    pub fn next_params(&self) -> (r: Option<TransactionParams>)
        ensures
            self@.finished ==> r is None,
            !self@.finished ==> r is Some && r->0@ == self@.params,
    {
        if self.finished {
            None
        } else {
            Some(self.params.clone())
        }
    }

    /// The items collected so far.
    pub fn items(&self) -> (r: &Vec<T>)
        ensures
            r@ == self@.items,
    {
        &self.items
    }

    /// Ends the use of the walk and hands out what it has collected.
    pub fn into_items(self) -> (r: Vec<T>)
        ensures
            r@ == self@.items,
    {
        self.items
    }

    /// Takes in the page that the last request brought.
    pub fn advance(&mut self, page: CollectionPage<T>)
        ensures
            final(self)@ == old(self)@.step(page@),
    {
        if self.finished {
            return ;
        }
        let mut page = page;
        self.items.append(&mut page.items);
        match page.next_token {
            None => {
                self.finished = true;
            },
            Some(token) => {
                let repeated = match &self.params.forward_paging_token {
                    Some(sent) => *sent == token,
                    None => false,
                };
                if repeated {
                    self.finished = true;
                } else {
                    self.params.forward_paging_token = Some(token);
                }
            },
        }
    }
}

} // verus!
