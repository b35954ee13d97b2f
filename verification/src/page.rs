//! Pages of results. A page is one batch of items and a cursor: where to fetch
//! the batch after it and the batch before it. Fetching is the caller's part;
//! this module says what to fetch and takes what came back.

use std::collections::VecDeque;
use vstd::prelude::*;
use vstd::std_specs::convert::FromSpecImpl;
use crate::errors::MastodonError;
use crate::link_header::{get_links, get_links_spec, header_error, header_view, pair_view};

verus! {

/// The method of an HTTP request.
#[derive(Clone, Copy, Debug, PartialEq, Eq)]
pub enum Method {
    Get,
}

/// What to fetch: an absolute URL and the method to ask it with.
#[derive(Clone, Debug, PartialEq, Eq)]
pub struct FetchDescriptor {
    /// The URL.
    pub url: String,
    /// The method.
    pub method: Method,
}

/// What a `FetchDescriptor` stands for.
pub struct FetchModel {
    pub url: Seq<char>,
    pub method: Method,
}

impl View for FetchDescriptor {
    type V = FetchModel;

    open spec fn view(&self) -> FetchModel {
        FetchModel { url: self.url@, method: self.method }
    }
}

/// Where the pages around a page are. An empty slot says that there is no
/// further page in that direction.
#[derive(Clone, Debug, PartialEq, Eq)]
pub struct Cursor {
    /// The page after this one.
    pub next: Option<FetchDescriptor>,
    /// The page before this one.
    pub prev: Option<FetchDescriptor>,
}

/// What a `Cursor` stands for.
pub struct CursorModel {
    pub next: Option<FetchModel>,
    pub prev: Option<FetchModel>,
}

/// What a slot of a cursor stands for.
pub open spec fn slot_view(slot: Option<FetchDescriptor>) -> Option<FetchModel> {
    match slot {
        Some(d) => Some(d@),
        None => None,
    }
}

impl View for Cursor {
    type V = CursorModel;

    open spec fn view(&self) -> CursorModel {
        CursorModel { next: slot_view(self.next), prev: slot_view(self.prev) }
    }
}

/// The slot that asks for `url` with GET, empty where there is no URL.
pub open spec fn get_slot(url: Option<Seq<char>>) -> Option<FetchModel> {
    match url {
        Some(u) => Some(FetchModel { url: u, method: Method::Get }),
        None => None,
    }
}

/// The cursor of a pair of URLs, previous first and next second.
pub open spec fn cursor_of(links: (Option<Seq<char>>, Option<Seq<char>>)) -> CursorModel {
    CursorModel { next: get_slot(links.1), prev: get_slot(links.0) }
}

/// The cursor that has no page in either direction.
pub open spec fn terminal_cursor() -> CursorModel {
    CursorModel { next: None, prev: None }
}

fn slot_of(url: Option<String>) -> (r: Option<FetchDescriptor>)
    ensures
        slot_view(r) == get_slot(
            match url {
                Some(u) => Some(u@),
                None => None,
            },
        ),
{
    match url {
        Some(u) => Some(FetchDescriptor { url: u, method: Method::Get }),
        None => None,
    }
}

impl Cursor {
    /// The cursor of a pair of URLs, previous first and next second.
    pub fn from_links(links: (Option<String>, Option<String>)) -> (c: Cursor)
        ensures
            c@ == cursor_of(pair_view(links)),
    {
        let (prev, next) = links;
        Cursor { next: slot_of(next), prev: slot_of(prev) }
    }

    /// The cursor that the `Link` header of a response gives. Without a header
    /// it has no page in either direction.
    pub fn from_link_header(link_header: Option<&str>) -> (r: Result<Cursor, MastodonError>)
        ensures
            match get_links_spec(header_view(link_header)) {
                Some(links) => r matches Ok(c) && c@ == cursor_of(links),
                None => r matches Err(e) && header_error(header_view(link_header), e),
            },
            link_header is None ==> (r matches Ok(c) && c@ == terminal_cursor()),
    {
        match get_links(link_header) {
            Ok(links) => Ok(Cursor::from_links(links)),
            Err(e) => Err(e),
        }
    }

    /// Whether there is no page in either direction.
    pub fn is_terminal(&self) -> (r: bool)
        ensures
            r == (self@ == terminal_cursor()),
    {
        self.next.is_none() && self.prev.is_none()
    }
}

/// One page of results, held together with a borrowed handle to whatever
/// fetches pages.
#[derive(Debug)]
pub struct Page<'a, T, S> {
    /// The handle of the sender.
    pub sender: &'a S,
    /// Where the pages around this one are.
    pub cursor: Cursor,
    /// The items of the page.
    pub initial_items: Vec<T>,
}

/// One page of results, held together with a handle of its own to whatever
/// fetches pages, so that it can be stored.
#[derive(Debug)]
pub struct OwnedPage<T, S> {
    /// The handle of the sender.
    pub sender: S,
    /// Where the pages around this one are.
    pub cursor: Cursor,
    /// The items of the page.
    pub initial_items: Vec<T>,
}

impl<'a, T, S> Page<'a, T, S> {
    /// The page of a response: its items, and the cursor of its `Link` header.
    pub fn new(sender: &'a S, initial_items: Vec<T>, link_header: Option<&str>) -> (r: Result<
        Self,
        MastodonError,
    >)
        ensures
            match get_links_spec(header_view(link_header)) {
                Some(links) => r matches Ok(p) && p.cursor@ == cursor_of(links) && p.initial_items
                    == initial_items && p.sender == sender,
                None => r matches Err(e) && header_error(header_view(link_header), e),
            },
            link_header is None ==> (r matches Ok(p) && p.cursor@ == terminal_cursor()),
    {
        match Cursor::from_link_header(link_header) {
            Ok(cursor) => Ok(Page { sender, cursor, initial_items }),
            Err(e) => Err(e),
        }
    }

    /// A page without items whose next page is fetched with `first`: where a
    /// walk begins before anything is fetched.
    pub fn starting_at(sender: &'a S, first: FetchDescriptor) -> (r: Self)
        ensures
            r.sender == sender,
            r.cursor.next == Some(first),
            r.cursor.prev is None,
            r.initial_items@.len() == 0,
    {
        Page { sender, cursor: Cursor { next: Some(first), prev: None }, initial_items: Vec::new() }
    }

    /// What to fetch for the next page, or `None` where there is none. The slot
    /// is emptied: a descriptor is handed out once.
    pub fn next_request(&mut self) -> (r: Option<FetchDescriptor>)
        ensures
            r == old(self).cursor.next,
            final(self).cursor.next is None,
            final(self).cursor.prev == old(self).cursor.prev,
            final(self).initial_items == old(self).initial_items,
            final(self).sender == old(self).sender,
            old(self).cursor.next is None ==> *final(self) == *old(self),
    {
        self.cursor.next.take()
    }

    /// What to fetch for the previous page, or `None` where there is none. The
    /// slot is emptied: a descriptor is handed out once.
    pub fn prev_request(&mut self) -> (r: Option<FetchDescriptor>)
        ensures
            r == old(self).cursor.prev,
            final(self).cursor.prev is None,
            final(self).cursor.next == old(self).cursor.next,
            final(self).initial_items == old(self).initial_items,
            final(self).sender == old(self).sender,
            old(self).cursor.prev is None ==> *final(self) == *old(self),
    {
        self.cursor.prev.take()
    }

    /// Takes the response to a request that this page handed out: the `Link`
    /// header of the response replaces both slots of the cursor, and the items
    /// that the body of the response held, if it held any, are the batch that
    /// is returned. Where the header is in error, the page stays as it is.
    pub fn accept_response(&mut self, link_header: Option<&str>, items: Option<Vec<T>>) -> (r:
        Result<Option<Vec<T>>, MastodonError>)
        ensures
            final(self).initial_items == old(self).initial_items,
            final(self).sender == old(self).sender,
            match get_links_spec(header_view(link_header)) {
                Some(links) => final(self).cursor@ == cursor_of(links) && r == Ok::<
                    Option<Vec<T>>,
                    MastodonError,
                >(items),
                None => final(self).cursor == old(self).cursor && (r matches Err(e) && header_error(
                    header_view(link_header),
                    e,
                )),
            },
    {
        match Cursor::from_link_header(link_header) {
            Ok(cursor) => {
                self.cursor = cursor;
                Ok(items)
            },
            Err(e) => Err(e),
        }
    }
}

impl<'a, T, S: Clone> Page<'a, T, S> {
    /// The same page with a handle of its own: the items and the cursor as
    /// they are, and a clone of the sender's handle.
    pub fn into_owned(self) -> (r: OwnedPage<T, S>)
        ensures
            r.cursor == self.cursor,
            r.initial_items == self.initial_items,
            vstd::pervasive::cloned(*self.sender, r.sender),
    {
        OwnedPage {
            sender: self.sender.clone(),
            cursor: self.cursor,
            initial_items: self.initial_items,
        }
    }
}

impl<'a, T, S: Clone> From<Page<'a, T, S>> for OwnedPage<T, S> {
    fn from(page: Page<'a, T, S>) -> (r: OwnedPage<T, S>)
        ensures
            r.cursor == page.cursor,
            r.initial_items == page.initial_items,
            vstd::pervasive::cloned(*page.sender, r.sender),
    {
        page.into_owned()
    }
}

/// The owned page is made with a clone of the handle, and a clone is not named
/// here: what the conversion returns is stated by the `ensures` of `from`.
impl<'a, T, S: Clone> FromSpecImpl<Page<'a, T, S>> for OwnedPage<T, S> {
    open spec fn obeys_from_spec() -> bool {
        false
    }

    open spec fn from_spec(page: Page<'a, T, S>) -> OwnedPage<T, S> {
        OwnedPage { sender: *page.sender, cursor: page.cursor, initial_items: page.initial_items }
    }
}

impl<T, S> OwnedPage<T, S> {
    /// The page of a response: its items, and the cursor of its `Link` header.
    pub fn new(sender: S, initial_items: Vec<T>, link_header: Option<&str>) -> (r: Result<
        Self,
        MastodonError,
    >)
        ensures
            match get_links_spec(header_view(link_header)) {
                Some(links) => r matches Ok(p) && p.cursor@ == cursor_of(links) && p.initial_items
                    == initial_items && p.sender == sender,
                None => r matches Err(e) && header_error(header_view(link_header), e),
            },
            link_header is None ==> (r matches Ok(p) && p.cursor@ == terminal_cursor()),
    {
        match Cursor::from_link_header(link_header) {
            Ok(cursor) => Ok(OwnedPage { sender, cursor, initial_items }),
            Err(e) => Err(e),
        }
    }

    /// What to fetch for the next page, or `None` where there is none. The slot
    /// is emptied: a descriptor is handed out once.
    pub fn next_request(&mut self) -> (r: Option<FetchDescriptor>)
        ensures
            r == old(self).cursor.next,
            final(self).cursor.next is None,
            final(self).cursor.prev == old(self).cursor.prev,
            final(self).initial_items == old(self).initial_items,
            final(self).sender == old(self).sender,
            old(self).cursor.next is None ==> *final(self) == *old(self),
    {
        self.cursor.next.take()
    }

    /// What to fetch for the previous page, or `None` where there is none. The
    /// slot is emptied: a descriptor is handed out once.
    pub fn prev_request(&mut self) -> (r: Option<FetchDescriptor>)
        ensures
            r == old(self).cursor.prev,
            final(self).cursor.prev is None,
            final(self).cursor.next == old(self).cursor.next,
            final(self).initial_items == old(self).initial_items,
            final(self).sender == old(self).sender,
            old(self).cursor.prev is None ==> *final(self) == *old(self),
    {
        self.cursor.prev.take()
    }

    /// Takes the response to a request that this page handed out: the `Link`
    /// header of the response replaces both slots of the cursor, and the items
    /// that the body of the response held, if it held any, are the batch that
    /// is returned. Where the header is in error, the page stays as it is.
    pub fn accept_response(&mut self, link_header: Option<&str>, items: Option<Vec<T>>) -> (r:
        Result<Option<Vec<T>>, MastodonError>)
        ensures
            final(self).initial_items == old(self).initial_items,
            final(self).sender == old(self).sender,
            match get_links_spec(header_view(link_header)) {
                Some(links) => final(self).cursor@ == cursor_of(links) && r == Ok::<
                    Option<Vec<T>>,
                    MastodonError,
                >(items),
                None => final(self).cursor == old(self).cursor && (r matches Err(e) && header_error(
                    header_view(link_header),
                    e,
                )),
            },
    {
        match Cursor::from_link_header(link_header) {
            Ok(cursor) => {
                self.cursor = cursor;
                Ok(items)
            },
            Err(e) => Err(e),
        }
    }
}

/// What an iterator over the items of all pages does next.
#[derive(Debug)]
pub enum ItemsStep<T> {
    /// This is the next item.
    Item(T),
    /// The items at hand are used up: fetch this, and hand the response in.
    Fetch(FetchDescriptor),
    /// There is no further item.
    Done,
}

/// What an `ItemsStep` stands for.
pub enum StepModel<T> {
    Item(T),
    Fetch(FetchModel),
    Done,
}

impl<T> View for ItemsStep<T> {
    type V = StepModel<T>;

    open spec fn view(&self) -> StepModel<T> {
        match self {
            ItemsStep::Item(x) => StepModel::Item(*x),
            ItemsStep::Fetch(d) => StepModel::Fetch(d@),
            ItemsStep::Done => StepModel::Done,
        }
    }
}

/// What an iterator over items holds: the items fetched and not yet handed
/// out, and the cursor.
pub struct IterState<T> {
    pub pending: Seq<T>,
    pub cursor: CursorModel,
}

/// One step of the iterator. An item at hand is handed out. Without one, the
/// next page is asked for and its slot emptied. Without either the iterator is
/// done, and stays as it is.
pub open spec fn step_spec<T>(s: IterState<T>) -> (IterState<T>, StepModel<T>) {
    if s.pending.len() > 0 {
        (IterState { pending: s.pending.drop_first(), cursor: s.cursor }, StepModel::Item(s.pending[0]))
    } else {
        match s.cursor.next {
            Some(d) => (
                IterState { pending: s.pending, cursor: CursorModel { next: None, prev: s.cursor.prev } },
                StepModel::Fetch(d),
            ),
            None => (s, StepModel::Done),
        }
    }
}

/// The iterator after a response with the links `links` and the items `items`
/// came in: both slots of the cursor are replaced, and the items wait behind
/// those at hand.
pub open spec fn response_spec<T>(
    s: IterState<T>,
    links: (Option<Seq<char>>, Option<Seq<char>>),
    items: Seq<T>,
) -> IterState<T> {
    IterState { pending: s.pending + items, cursor: cursor_of(links) }
}

/// The items of a body: those that it held, and none where it held none.
pub open spec fn batch_of<T>(items: Option<Vec<T>>) -> Seq<T> {
    match items {
        Some(batch) => batch@,
        None => Seq::empty(),
    }
}

/// Walks forward over the items of a page and of the pages after it, in order:
/// a page is asked for only when every item before it has been handed out.
#[derive(Debug)]
pub struct ItemsIter<'a, T, S> {
    /// The page, whose cursor says where to go on. Its items have moved to
    /// `pending`, and its own list stays empty.
    pub page: Page<'a, T, S>,
    /// The items fetched and not yet handed out, the next one first.
    pub pending: VecDeque<T>,
}

/// The items of `items` as a queue, the first one in front.
fn queue_of<T>(items: Vec<T>) -> (q: VecDeque<T>)
    ensures
        q@ == items@,
{
    let ghost all = items@;
    let mut items = items;
    let mut q: VecDeque<T> = VecDeque::new();
    while items.len() > 0
        invariant
            items@ + q@ == all,
        decreases items.len(),
    {
        let ghost before = items@;
        let ghost behind = q@;
        match items.pop() {
            Some(x) => {
                q.push_front(x);
                proof {
                    assert(items@ + q@ =~= before + behind);
                }
            },
            None => {},
        }
    }
    proof {
        assert(items@ + q@ =~= q@);
    }
    q
}

impl<'a, T, S> ItemsIter<'a, T, S> {
    /// What the iterator holds.
    pub open spec fn state(&self) -> IterState<T> {
        IterState { pending: self.pending@, cursor: self.page.cursor@ }
    }

    /// The iterator over the items of `page` and of the pages after it.
    pub fn new(page: Page<'a, T, S>) -> (r: Self)
        ensures
            r.state() == (IterState { pending: page.initial_items@, cursor: page.cursor@ }),
            r.page.sender == page.sender,
            r.page.initial_items@.len() == 0,
    {
        let Page { sender, cursor, initial_items } = page;
        let pending = queue_of(initial_items);
        ItemsIter { page: Page { sender, cursor, initial_items: Vec::new() }, pending }
    }

    /// Takes one step: hands out the next item at hand, or asks for the next
    /// page, or says that there is nothing more.
    pub fn step(&mut self) -> (r: ItemsStep<T>)
        ensures
            (final(self).state(), r@) == step_spec(old(self).state()),
            final(self).page.sender == old(self).page.sender,
            final(self).page.initial_items == old(self).page.initial_items,
    {
        match self.pending.pop_front() {
            Some(item) => {
                proof {
                    assert(self.pending@ =~= old(self).pending@.drop_first());
                }
                ItemsStep::Item(item)
            },
            None => match self.page.next_request() {
                Some(d) => ItemsStep::Fetch(d),
                None => ItemsStep::Done,
            },
        }
    }

    /// Takes the response to a request that `step` handed out: the `Link`
    /// header replaces both slots of the cursor, and the items that the body
    /// held, if it held any, wait to be handed out. Where the header is in
    /// error, the iterator stays as it is.
    pub fn accept_response(&mut self, link_header: Option<&str>, items: Option<Vec<T>>) -> (r:
        Result<(), MastodonError>)
        ensures
            final(self).page.sender == old(self).page.sender,
            final(self).page.initial_items == old(self).page.initial_items,
            match get_links_spec(header_view(link_header)) {
                Some(links) => r is Ok && final(self).state() == response_spec(
                    old(self).state(),
                    links,
                    batch_of(items),
                ),
                None => final(self).state() == old(self).state() && (r matches Err(e)
                    && header_error(header_view(link_header), e)),
            },
    {
        match Cursor::from_link_header(link_header) {
            Ok(cursor) => {
                self.page.cursor = cursor;
                match items {
                    Some(items) => {
                        let mut batch = queue_of(items);
                        self.pending.append(&mut batch);
                    },
                    None => {
                        proof {
                            assert(self.pending@ + Seq::<T>::empty() =~= self.pending@);
                        }
                    },
                }
                Ok(())
            },
            Err(e) => Err(e),
        }
    }

    /// Takes the outcome of the fetch that `step` asked for. A fetch that
    /// failed leaves the iterator as it is, with the slot of the next page
    /// empty: so the walk ends with the next step. A response is taken as
    /// `accept_response` takes it.
    pub fn accept_fetch(
        &mut self,
        fetched: Result<(Option<String>, Option<Vec<T>>), MastodonError>,
    ) -> (r: Result<(), MastodonError>)
        ensures
            final(self).page.sender == old(self).page.sender,
            final(self).page.initial_items == old(self).page.initial_items,
            match fetched {
                Err(e) => r == Err::<(), MastodonError>(e) && final(self).state() == old(
                    self,
                ).state(),
                Ok((header, items)) => match get_links_spec(crate::text::opt_text(header)) {
                    Some(links) => r is Ok && final(self).state() == response_spec(
                        old(self).state(),
                        links,
                        batch_of(items),
                    ),
                    None => final(self).state() == old(self).state() && (r matches Err(e)
                        && header_error(crate::text::opt_text(header), e)),
                },
            },
    {
        match fetched {
            Err(e) => Err(e),
            Ok((header, items)) => {
                let link_header = match &header {
                    Some(text) => Some(text.as_str()),
                    None => None,
                };
                self.accept_response(link_header, items)
            },
        }
    }
}

impl<'a, T, S> Page<'a, T, S> {
    /// The iterator over the items of this page and of the pages after it.
    pub fn items_iter(self) -> (r: ItemsIter<'a, T, S>)
        ensures
            r.state() == (IterState { pending: self.initial_items@, cursor: self.cursor@ }),
            r.page.sender == self.sender,
            r.page.initial_items@.len() == 0,
    {
        ItemsIter::new(self)
    }
}

/// The iterator after `n` steps, none of which is answered by a response.
pub open spec fn after_steps<T>(s: IterState<T>, n: nat) -> IterState<T>
    decreases n,
{
    if n == 0 {
        s
    } else {
        step_spec(after_steps(s, (n - 1) as nat)).0
    }
}

/// What step number `n` does, counting from 0, where no response comes in.
pub open spec fn step_at<T>(s: IterState<T>, n: nat) -> StepModel<T> {
    step_spec(after_steps(s, n)).1
}

/// The items at hand come out first, in their order, and nothing is fetched
/// before the last of them is out.
pub proof fn lemma_items_come_in_order<T>(s: IterState<T>, n: nat)
    requires
        n <= s.pending.len(),
    ensures
        after_steps(s, n) == (IterState { pending: s.pending.skip(n as int), cursor: s.cursor }),
        n < s.pending.len() ==> step_at(s, n) == StepModel::Item(s.pending[n as int]),
    decreases n,
{
    if n == 0 {
        assert(s.pending.skip(0) =~= s.pending);
    } else {
        lemma_items_come_in_order(s, (n - 1) as nat);
        assert(s.pending.skip(n - 1).drop_first() =~= s.pending.skip(n as int));
    }
}

/// Without a next page the iterator hands out the items at hand and is then
/// done for good: every later step says so and changes nothing.
pub proof fn lemma_without_next_page<T>(s: IterState<T>, n: nat)
    requires
        s.cursor.next is None,
        n >= s.pending.len(),
    ensures
        step_at(s, n) == StepModel::<T>::Done,
        after_steps(s, n) == (IterState { pending: Seq::<T>::empty(), cursor: s.cursor }),
    decreases n,
{
    if n == s.pending.len() {
        lemma_items_come_in_order(s, n);
        assert(s.pending.skip(n as int) =~= Seq::<T>::empty());
    } else {
        lemma_without_next_page(s, (n - 1) as nat);
    }
}

/// With a next page the iterator asks for it once, right after the last item
/// at hand; while no response comes in, every later step is done.
pub proof fn lemma_next_page_is_asked_once<T>(s: IterState<T>, n: nat)
    requires
        s.cursor.next is Some,
        n >= s.pending.len(),
    ensures
        n == s.pending.len() ==> step_at(s, n) == StepModel::<T>::Fetch(s.cursor.next->0),
        n > s.pending.len() ==> step_at(s, n) == StepModel::<T>::Done,
        n > s.pending.len() ==> after_steps(s, n) == (IterState {
            pending: Seq::<T>::empty(),
            cursor: CursorModel { next: None, prev: s.cursor.prev },
        }),
    decreases n,
{
    lemma_items_come_in_order(s, s.pending.len());
    assert(s.pending.skip(s.pending.len() as int) =~= Seq::<T>::empty());
    if n > s.pending.len() + 1 {
        lemma_next_page_is_asked_once(s, (n - 1) as nat);
    }
}

/// A request that is not answered, or whose answer is not taken, ends the
/// walk: the step after it says that there is nothing more.
pub proof fn lemma_unanswered_request_ends_walk<T>(s: IterState<T>)
    requires
        step_spec(s).1 is Fetch,
    ensures
        step_spec(step_spec(s).0).1 == StepModel::<T>::Done,
{
}

/// Two pages in a row: the items of the first, then one request, then, once
/// the response without a further page is in, the items of the second, then
/// done. The items come out in the order of the pages.
pub proof fn lemma_two_pages<T>(first: Seq<T>, d: FetchModel, prev: Option<FetchModel>, second: Seq<T>, n: nat)
    ensures
        ({
            let s = IterState { pending: first, cursor: CursorModel { next: Some(d), prev } };
            let asked = after_steps(s, first.len() + 1);
            let t = response_spec(asked, (None, None), second);
            &&& n < first.len() ==> step_at(s, n) == StepModel::Item(first[n as int])
            &&& step_at(s, first.len()) == StepModel::<T>::Fetch(d)
            &&& n < second.len() ==> step_at(t, n) == StepModel::Item(second[n as int])
            &&& n >= second.len() ==> step_at(t, n) == StepModel::<T>::Done
        }),
{
    let s = IterState { pending: first, cursor: CursorModel { next: Some(d), prev } };
    if n < first.len() {
        lemma_items_come_in_order(s, n);
    }
    lemma_next_page_is_asked_once(s, first.len());
    lemma_next_page_is_asked_once(s, first.len() + 1);
    let asked = after_steps(s, first.len() + 1);
    let t = response_spec(asked, (None, None), second);
    assert(t.pending =~= second);
    if n < second.len() {
        lemma_items_come_in_order(t, n);
    } else {
        lemma_without_next_page(t, n);
    }
}

} // verus!
