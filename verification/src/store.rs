//! The feed store: item records by identifier, the order in which they
//! arrived, the pagination cursor, and the single-slot lock that admits one
//! page fetch at a time.

use crate::text::{push_zero_padded, texts, zero_padded};
use vstd::hash_map::StringHashMap;
use vstd::prelude::*;
use vstd::string::*;

verus! {

/// A calendar date and a time of day.
#[derive(Clone, Copy, Debug, PartialEq, Eq)]
pub struct Timestamp {
    pub year: u16,
    pub month: u8,
    pub day: u8,
    pub hour: u8,
    pub minute: u8,
    pub second: u8,
}

impl Timestamp {
    /// The timestamp as `YYYY-MM-DD HH:MM:SS`, each field zero-padded to the
    /// width shown.
    pub open spec fn text(self) -> Seq<char> {
        zero_padded(self.year as nat, 4) + "-"@ + zero_padded(self.month as nat, 2) + "-"@
            + zero_padded(self.day as nat, 2) + " "@ + zero_padded(self.hour as nat, 2) + ":"@
            + zero_padded(self.minute as nat, 2) + ":"@ + zero_padded(self.second as nat, 2)
    }

    /// The timestamp as `YYYY-MM-DD HH:MM:SS`.
    pub fn format(&self) -> (line: String)
        ensures
            line@ == self.text(),
    {
        let mut line = String::new();
        push_zero_padded(&mut line, self.year, 4);
        line.append("-");
        push_zero_padded(&mut line, self.month as u16, 2);
        line.append("-");
        push_zero_padded(&mut line, self.day as u16, 2);
        line.append(" ");
        push_zero_padded(&mut line, self.hour as u16, 2);
        line.append(":");
        push_zero_padded(&mut line, self.minute as u16, 2);
        line.append(":");
        push_zero_padded(&mut line, self.second as u16, 2);
        assert(line@ =~= self.text());
        line
    }
}

/// One item of the feed.
#[derive(Clone, Debug, PartialEq, Eq)]
pub struct Tweet {
    pub id: String,
    pub author_username: String,
    pub author_name: Option<String>,
    pub created_at: Timestamp,
    pub text: String,
}

/// What can go wrong while loading or looking up items.
#[derive(Clone, Debug, PartialEq, Eq)]
pub enum Error {
    /// The feed provider failed; the payload is its message.
    ProviderError(String),
    /// A page fetch is already in flight.
    AlreadyLoading,
    /// A continuation was asked for, but no cursor is held.
    NoMorePages,
    /// The identifier is not in the store.
    NotFound,
}

impl Error {
    /// The line shown to the user for this error.
    pub open spec fn text(self) -> Seq<char> {
        match self {
            Error::ProviderError(message) => message@,
            Error::AlreadyLoading => "Cannot get lock"@,
            Error::NoMorePages => "No more pages"@,
            Error::NotFound => "Not found"@,
        }
    }

    /// The line shown to the user for this error.
    pub fn message(&self) -> (line: String)
        ensures
            line@ == self.text(),
    {
        match self {
            Error::ProviderError(message) => message.clone(),
            Error::AlreadyLoading => String::from_str("Cannot get lock"),
            Error::NoMorePages => String::from_str("No more pages"),
            Error::NotFound => String::from_str("Not found"),
        }
    }
}

/// One page as the feed provider returns it.
#[derive(Clone, Debug, PartialEq, Eq)]
pub struct Page {
    pub tweets: Vec<Tweet>,
    pub next_token: Option<String>,
}

/// What to ask the feed provider for: the first page (`None`) or the page
/// behind a cursor.
#[derive(Clone, Debug, PartialEq, Eq)]
pub struct PageRequest {
    pub page_token: Option<String>,
}

/// The characters of an optional string.
pub open spec fn option_text(s: Option<String>) -> Option<Seq<char>> {
    match s {
        Some(s) => Some(s@),
        None => None,
    }
}

/// The identifiers of a page, in the order received.
pub open spec fn page_ids(page: Seq<Tweet>) -> Seq<Seq<char>> {
    Seq::new(page.len(), |i: int| page[i].id@)
}

/// `items` after every item of `page` was inserted under its identifier, in
/// the order received: a later item replaces an earlier one with the same
/// identifier.
pub open spec fn merged_items(items: Map<Seq<char>, Tweet>, page: Seq<Tweet>) -> Map<
    Seq<char>,
    Tweet,
>
    decreases page.len(),
{
    if page.len() == 0 {
        items
    } else {
        merged_items(items, page.drop_last()).insert(page.last().id@, page.last())
    }
}

/// The mathematical content of a [`FeedStore`].
pub struct StoreModel {
    /// Item records by identifier.
    pub items: Map<Seq<char>, Tweet>,
    /// Identifiers in the order they were received.
    pub order: Seq<Seq<char>>,
    /// The cursor of the next page, if the provider announced one.
    pub page_cursor: Option<Seq<char>>,
    /// Whether a page fetch is in flight.
    pub loading: bool,
}

impl StoreModel {
    /// The store before anything was fetched.
    pub open spec fn empty() -> StoreModel {
        StoreModel { items: Map::empty(), order: Seq::empty(), page_cursor: None, loading: false }
    }

    /// Every identifier in `order` has a record, every record is listed in
    /// `order`, and every record is stored under its own identifier.
    pub open spec fn wf(self) -> bool {
        &&& self.items.dom().finite()
        &&& forall|i: int| 0 <= i < self.order.len() ==> self.items.contains_key(#[trigger] self.order[i])
        &&& forall|k: Seq<char>| #[trigger] self.items.contains_key(k) ==> self.order.contains(k)
        &&& forall|k: Seq<char>| #[trigger] self.items.contains_key(k) ==> self.items[k].id@ == k
    }

    /// The store after a page was merged: records inserted or overwritten,
    /// identifiers appended in the order received, cursor replaced. The lock
    /// is not touched.
    pub open spec fn merge_page(self, page: Seq<Tweet>, next_cursor: Option<Seq<char>>) -> StoreModel {
        StoreModel {
            items: merged_items(self.items, page),
            order: self.order + page_ids(page),
            page_cursor: next_cursor,
            loading: self.loading,
        }
    }

    /// What a request to load a page is answered with: refused while a fetch
    /// is in flight, refused when a continuation is asked for and no cursor
    /// is held, else the cursor to fetch with (`None` for a restart).
    pub open spec fn load_decision(self, restart: bool) -> Result<Option<Seq<char>>, Error> {
        if self.loading {
            Err(Error::AlreadyLoading)
        } else if restart {
            Ok(None)
        } else if self.page_cursor is None {
            Err(Error::NoMorePages)
        } else {
            Ok(self.page_cursor)
        }
    }

    /// The store after a request to load a page: the lock is taken exactly
    /// when the request is granted, and nothing else changes.
    pub open spec fn begin_load(self, restart: bool) -> StoreModel {
        if self.load_decision(restart) is Ok {
            StoreModel { loading: true, ..self }
        } else {
            self
        }
    }

    /// The store after a fetch came back: the page merged on success,
    /// nothing merged on failure, and the lock released either way.
    pub open spec fn complete_load(
        self,
        outcome: Result<(Seq<Tweet>, Option<Seq<char>>), Seq<char>>,
    ) -> StoreModel {
        match outcome {
            Ok((page, next_cursor)) => StoreModel {
                loading: false,
                ..self.merge_page(page, next_cursor)
            },
            Err(_) => StoreModel { loading: false, ..self },
        }
    }
}

/// The mathematical content of a fetch outcome.
pub open spec fn outcome_model(outcome: Result<Page, String>) -> Result<
    (Seq<Tweet>, Option<Seq<char>>),
    Seq<char>,
> {
    match outcome {
        Ok(page) => Ok((page.tweets@, option_text(page.next_token))),
        Err(message) => Err(message@),
    }
}

/// The shared in-memory feed: item records, their order of arrival, the
/// pagination cursor and the pagination lock.
pub struct FeedStore {
    items: StringHashMap<Tweet>,
    order: Vec<String>,
    page_cursor: Option<String>,
    loading: bool,
}

impl View for FeedStore {
    type V = StoreModel;

    closed spec fn view(&self) -> StoreModel {
        StoreModel {
            items: self.items@,
            order: texts(self.order@),
            page_cursor: option_text(self.page_cursor),
            loading: self.loading,
        }
    }
}

impl FeedStore {
    /// An empty store with no cursor and the lock free.
    pub fn new() -> (store: Self)
        ensures
            store@ == StoreModel::empty(),
            store@.wf(),
    {
        let store = FeedStore {
            items: StringHashMap::new(),
            order: Vec::new(),
            page_cursor: None,
            loading: false,
        };
        assert(store@.order =~= Seq::empty());
        store
    }

    /// Merges one page: each item is stored under its identifier (replacing
    /// a record with the same identifier), the identifiers are appended to
    /// the order in the sequence received, and the cursor is replaced.
    pub fn merge_page(&mut self, new_items: Vec<Tweet>, next_cursor: Option<String>)
        ensures
            final(self)@ == old(self)@.merge_page(new_items@, option_text(next_cursor)),
            old(self)@.wf() ==> final(self)@.wf(),
    {
        let ghost page = new_items@;
        let ghost before = self@;
        for tweet in it: new_items
            invariant
                it.seq() == page,
                self.items@ == merged_items(before.items, page.take(it.index() as int)),
                texts(self.order@) == before.order + page_ids(
                    page.take(it.index() as int),
                ),
                self.page_cursor == old(self).page_cursor,
                self.loading == old(self).loading,
        {
            let ghost done = page.take(it.index() as int);
            let ghost next = page.take(it.index() + 1);
            assert(next.drop_last() =~= done);
            assert(next.last() == tweet);
            let ghost listed = self.order@;
            assert(texts(listed).len() == listed.len());
            assert(page_ids(done).len() == done.len());
            assert(page_ids(next).len() == next.len());
            assert(listed.len() == before.order.len() + done.len());
            let id = tweet.id.clone();
            self.order.push(tweet.id.clone());
            self.items.insert(id, tweet);
            assert forall|i: int| 0 <= i < listed.len() + 1 implies #[trigger] texts(
                self.order@,
            )[i] == (before.order + page_ids(next))[i] by {
                if i < listed.len() {
                    assert(texts(listed)[i] == (before.order + page_ids(done))[i]);
                    if i >= before.order.len() {
                        assert(done[i - before.order.len()] == next[i - before.order.len()]);
                    }
                }
            }
            assert(texts(self.order@) =~= before.order + page_ids(next));
        }
        assert(page.take(page.len() as int) =~= page);
        self.page_cursor = next_cursor;
        proof {
            if before.wf() {
                lemma_merge_page_wf(before, page, option_text(next_cursor));
            }
        }
    }

    /// The record stored under `id`, or `NotFound`.
    pub fn get(&self, id: &str) -> (found: Result<&Tweet, Error>)
        ensures
            match found {
                Ok(tweet) => self@.items.contains_key(id@) && *tweet == self@.items[id@],
                Err(e) => e == Error::NotFound && !self@.items.contains_key(id@),
            },
    {
        match self.items.get(id) {
            Some(tweet) => Ok(tweet),
            None => Err(Error::NotFound),
        }
    }

    /// The order is short enough to be counted.
    pub proof fn lemma_order_fits(&self)
        ensures
            self@.order.len() <= usize::MAX,
    {
        assert(self.order.len() == self.order@.len());
        assert(texts(self.order@).len() == self.order@.len());
    }

    /// The number of identifiers in the order.
    pub fn len(&self) -> (n: usize)
        ensures
            n == self@.order.len(),
    {
        self.order.len()
    }

    /// The number of distinct records.
    pub fn item_count(&self) -> (n: usize)
        ensures
            n == self@.items.len(),
    {
        self.items.len()
    }

    /// The identifier at position `index` of the order, if there is one.
    pub fn id_at(&self, index: usize) -> (id: Option<&String>)
        ensures
            match id {
                Some(id) => index < self@.order.len() && id@ == self@.order[index as int],
                None => index >= self@.order.len(),
            },
    {
        if index < self.order.len() {
            Some(&self.order[index])
        } else {
            None
        }
    }

    /// The cursor held, if any.
    pub fn page_cursor(&self) -> (cursor: Option<&String>)
        ensures
            match cursor {
                Some(c) => self@.page_cursor == Some(c@),
                None => self@.page_cursor is None,
            },
    {
        self.page_cursor.as_ref()
    }

    /// Whether a page fetch is in flight.
    pub fn is_loading(&self) -> (loading: bool)
        ensures
            loading == self@.loading,
    {
        self.loading
    }

    /// Asks for the pagination lock in order to fetch a page, without
    /// waiting. While a fetch is in flight the answer is `AlreadyLoading`;
    /// a continuation without a cursor is answered with `NoMorePages`; in
    /// both cases the store is left as it was. Otherwise the lock is taken
    /// and the request to hand to the provider is returned.
    pub fn begin_load(&mut self, restart: bool) -> (request: Result<PageRequest, Error>)
        ensures
            final(self)@ == old(self)@.begin_load(restart),
            match request {
                Ok(r) => old(self)@.load_decision(restart) == Ok::<Option<Seq<char>>, Error>(
                    option_text(r.page_token),
                ),
                Err(e) => old(self)@.load_decision(restart) == Err::<Option<Seq<char>>, Error>(e),
            },
    {
        if self.loading {
            return Err(Error::AlreadyLoading);
        }
        if restart {
            self.loading = true;
            return Ok(PageRequest { page_token: None });
        }
        match &self.page_cursor {
            None => Err(Error::NoMorePages),
            Some(cursor) => {
                let token = cursor.clone();
                self.loading = true;
                Ok(PageRequest { page_token: Some(token) })
            },
        }
    }

    /// Takes in what a fetch came back with and releases the pagination
    /// lock: a page is merged, a failure is handed back as `ProviderError`
    /// with the provider's message.
    pub fn complete_load(&mut self, outcome: Result<Page, String>) -> (done: Result<(), Error>)
        ensures
            final(self)@ == old(self)@.complete_load(outcome_model(outcome)),
            old(self)@.wf() ==> final(self)@.wf(),
            match outcome {
                Ok(_) => done is Ok,
                Err(message) => done == Err::<(), Error>(Error::ProviderError(message)),
            },
    {
        match outcome {
            Ok(page) => {
                self.merge_page(page.tweets, page.next_token);
                self.loading = false;
                Ok(())
            },
            Err(message) => {
                self.loading = false;
                Err(Error::ProviderError(message))
            },
        }
    }
}

/// An identifier is stored after a merge exactly if it was stored before or
/// occurs in the page.
pub proof fn lemma_merged_contains(items: Map<Seq<char>, Tweet>, page: Seq<Tweet>, k: Seq<char>)
    ensures
        merged_items(items, page).contains_key(k) <==> (items.contains_key(k) || page_ids(
            page,
        ).contains(k)),
    decreases page.len(),
{
    if page.len() > 0 {
        let head = page.drop_last();
        lemma_merged_contains(items, head, k);
        if page_ids(head).contains(k) {
            let i = choose|i: int| 0 <= i < page_ids(head).len() && page_ids(head)[i] == k;
            assert(page_ids(page)[i] == k);
        }
        if k == page.last().id@ {
            assert(page_ids(page)[page.len() - 1] == k);
        }
        if page_ids(page).contains(k) && k != page.last().id@ {
            let i = choose|i: int| 0 <= i < page_ids(page).len() && page_ids(page)[i] == k;
            assert(page_ids(head)[i] == k);
        }
    }
}

/// An identifier that does not occur in the page keeps its record.
pub proof fn lemma_merged_keeps(items: Map<Seq<char>, Tweet>, page: Seq<Tweet>, k: Seq<char>)
    requires
        !page_ids(page).contains(k),
    ensures
        merged_items(items, page)[k] == items[k],
    decreases page.len(),
{
    if page.len() > 0 {
        let head = page.drop_last();
        assert(page_ids(page)[page.len() - 1] == page.last().id@);
        if page_ids(head).contains(k) {
            let i = choose|i: int| 0 <= i < page_ids(head).len() && page_ids(head)[i] == k;
            assert(page_ids(page)[i] == k);
        }
        lemma_merged_keeps(items, head, k);
    }
}

/// An identifier that occurs in the page holds, after the merge, the last
/// item of the page that carries it.
pub proof fn lemma_merged_overwrites(items: Map<Seq<char>, Tweet>, page: Seq<Tweet>, i: int)
    requires
        0 <= i < page.len(),
        forall|j: int| i < j < page.len() ==> page[j].id@ != page[i].id@,
    ensures
        merged_items(items, page)[page[i].id@] == page[i],
    decreases page.len(),
{
    if i < page.len() - 1 {
        let head = page.drop_last();
        assert(page[page.len() - 1].id@ != page[i].id@);
        assert(head[i] == page[i]);
        assert forall|j: int| i < j < head.len() implies head[j].id@ != head[i].id@ by {
            assert(head[j] == page[j]);
        }
        lemma_merged_overwrites(items, head, i);
    }
}

/// A merge adds finitely many records.
pub proof fn lemma_merged_finite(items: Map<Seq<char>, Tweet>, page: Seq<Tweet>)
    requires
        items.dom().finite(),
    ensures
        merged_items(items, page).dom().finite(),
    decreases page.len(),
{
    if page.len() > 0 {
        lemma_merged_finite(items, page.drop_last());
    }
}

/// Merging a page keeps the store well-formed: no identifier in the order is
/// left without a record, whatever the page holds.
pub proof fn lemma_merge_page_wf(
    store: StoreModel,
    page: Seq<Tweet>,
    next_cursor: Option<Seq<char>>,
)
    requires
        store.wf(),
    ensures
        store.merge_page(page, next_cursor).wf(),
    decreases page.len(),
{
    let after = store.merge_page(page, next_cursor);
    lemma_merged_finite(store.items, page);
    assert forall|i: int| 0 <= i < after.order.len() implies after.items.contains_key(
        #[trigger] after.order[i],
    ) by {
        lemma_merged_contains(store.items, page, after.order[i]);
        if i >= store.order.len() {
            assert(page_ids(page)[i - store.order.len()] == after.order[i]);
        }
    }
    assert forall|k: Seq<char>| #[trigger] after.items.contains_key(k) implies after.order.contains(
        k,
    ) by {
        lemma_merged_contains(store.items, page, k);
        if page_ids(page).contains(k) {
            let i = choose|i: int| 0 <= i < page_ids(page).len() && page_ids(page)[i] == k;
            assert(after.order[store.order.len() + i] == k);
        } else {
            let i = choose|i: int| 0 <= i < store.order.len() && store.order[i] == k;
            assert(after.order[i] == k);
        }
    }
    assert forall|k: Seq<char>| #[trigger] after.items.contains_key(k) implies after.items[k].id@
        == k by {
        lemma_merged_contains(store.items, page, k);
        if page_ids(page).contains(k) {
            lemma_last_occurrence(page, k);
            let i = choose|i: int|
                0 <= i < page.len() && page[i].id@ == k && (forall|j: int|
                    i < j < page.len() ==> page[j].id@ != k);
            lemma_merged_overwrites(store.items, page, i);
        } else {
            lemma_merged_keeps(store.items, page, k);
        }
    }
}

/// An identifier that occurs in a page has a last occurrence.
proof fn lemma_last_occurrence(page: Seq<Tweet>, k: Seq<char>)
    requires
        page_ids(page).contains(k),
    ensures
        exists|i: int|
            0 <= i < page.len() && #[trigger] page[i].id@ == k && (forall|j: int|
                i < j < page.len() ==> page[j].id@ != k),
    decreases page.len(),
{
    let w = choose|i: int| 0 <= i < page_ids(page).len() && page_ids(page)[i] == k;
    assert(page[w].id@ == k);
    let last = page.len() - 1;
    if page[last].id@ == k {
        assert(forall|j: int| last < j < page.len() ==> page[j].id@ != k);
    } else {
        let head = page.drop_last();
        assert(page_ids(head)[w] == k);
        lemma_last_occurrence(head, k);
        let i = choose|i: int|
            0 <= i < head.len() && #[trigger] head[i].id@ == k && (forall|j: int|
                i < j < head.len() ==> head[j].id@ != k);
        assert(page[i].id@ == k);
        assert forall|j: int| i < j < page.len() implies page[j].id@ != k by {
            if j < head.len() {
                assert(head[j] == page[j]);
            }
        }
    }
}

/// A run of merges: pages with their cursors, merged one after the other.
pub open spec fn merge_pages(
    store: StoreModel,
    pages: Seq<(Seq<Tweet>, Option<Seq<char>>)>,
) -> StoreModel
    decreases pages.len(),
{
    if pages.len() == 0 {
        store
    } else {
        merge_pages(store, pages.drop_last()).merge_page(pages.last().0, pages.last().1)
    }
}

/// Whatever pages are merged, in whatever number, no identifier in the
/// order is left without a record.
pub proof fn lemma_merge_pages_wf(store: StoreModel, pages: Seq<(Seq<Tweet>, Option<Seq<char>>)>)
    requires
        store.wf(),
    ensures
        merge_pages(store, pages).wf(),
    decreases pages.len(),
{
    if pages.len() > 0 {
        lemma_merge_pages_wf(store, pages.drop_last());
        lemma_merge_page_wf(
            merge_pages(store, pages.drop_last()),
            pages.last().0,
            pages.last().1,
        );
    }
}

/// The order is never shorter than the number of records, and it is exactly
/// as long when no identifier was received twice.
pub proof fn lemma_order_counts_records(store: StoreModel)
    requires
        store.wf(),
    ensures
        store.items.len() <= store.order.len(),
        store.order.len() == store.items.len() <==> store.order.no_duplicates(),
{
    assert(store.items.dom() =~= store.order.to_set());
    store.order.lemma_cardinality_of_set();
    if store.order.no_duplicates() {
        store.order.unique_seq_to_set();
    }
    if store.order.len() == store.items.len() {
        store.order.lemma_no_dup_set_cardinality();
    }
}

/// Merging a page whose identifiers are all stored already adds no record:
/// the same identifiers are stored afterwards, each identifier of the page
/// holding the page's last item for it, while the order grows by the whole
/// page.
pub proof fn lemma_merge_stored_identifiers(
    store: StoreModel,
    page: Seq<Tweet>,
    next_cursor: Option<Seq<char>>,
)
    requires
        forall|i: int| 0 <= i < page.len() ==> store.items.contains_key(#[trigger] page[i].id@),
    ensures
        store.merge_page(page, next_cursor).items.dom() == store.items.dom(),
        store.merge_page(page, next_cursor).order.len() == store.order.len() + page.len(),
{
    let after = store.merge_page(page, next_cursor);
    assert forall|k: Seq<char>| after.items.contains_key(k) <==> store.items.contains_key(k) by {
        lemma_merged_contains(store.items, page, k);
        if page_ids(page).contains(k) {
            let i = choose|i: int| 0 <= i < page_ids(page).len() && page_ids(page)[i] == k;
            assert(page[i].id@ == k);
        }
    }
    assert(after.items.dom() =~= store.items.dom());
}

/// Merging the same page a second time changes no record.
pub proof fn lemma_merge_twice(store: StoreModel, page: Seq<Tweet>, next_cursor: Option<Seq<char>>)
    ensures
        store.merge_page(page, next_cursor).merge_page(page, next_cursor).items
            == store.merge_page(page, next_cursor).items,
{
    let once = merged_items(store.items, page);
    let twice = merged_items(once, page);
    assert forall|k: Seq<char>| twice.contains_key(k) <==> once.contains_key(k) by {
        lemma_merged_contains(store.items, page, k);
        lemma_merged_contains(once, page, k);
    }
    assert forall|k: Seq<char>| twice.contains_key(k) implies twice[k] == once[k] by {
        if page_ids(page).contains(k) {
            lemma_last_occurrence(page, k);
            let i = choose|i: int|
                0 <= i < page.len() && page[i].id@ == k && (forall|j: int|
                    i < j < page.len() ==> page[j].id@ != k);
            lemma_merged_overwrites(store.items, page, i);
            lemma_merged_overwrites(once, page, i);
        } else {
            lemma_merged_keeps(once, page, k);
        }
    }
    assert(twice =~= once);
}

/// While a fetch is in flight, a further request to load is refused with
/// `AlreadyLoading` and leaves the store, its cursor and its records as they
/// were.
pub proof fn lemma_second_load_refused(store: StoreModel, first: bool, second: bool)
    requires
        store.load_decision(first) is Ok,
    ensures
        store.begin_load(first).load_decision(second) == Err::<Option<Seq<char>>, Error>(
            Error::AlreadyLoading,
        ),
        store.begin_load(first).begin_load(second) == store.begin_load(first),
        store.begin_load(first).items == store.items,
        store.begin_load(first).page_cursor == store.page_cursor,
{
}

} // verus!
