//! Pagination flattening for bucket listings.
//!
//! A bucket listing arrives from the service as a sequence of pages, each
//! holding zero or more object descriptors. [`ListingAdapter`] exposes that
//! two-level source as a flat, ordered, single-pass sequence of entries:
//! entries are yielded in the order the pages and within-page entries are
//! delivered, a page-fetch failure is reported once and terminates the
//! sequence, and empty pages yield nothing before the source advances.
//!
//! The adapter is a pull-driven state machine: the caller repeatedly asks
//! for the next step, and whenever the adapter asks for a page, the caller
//! fetches one from the service and hands the outcome back.

use vstd::prelude::*;
use vstd::string::StrSliceExecFns;

use crate::errors::ServiceError;

verus! {

/// One object descriptor from a listing page: the object's key and its
/// size in bytes, as the service reported them.
#[derive(Debug)]
pub struct ObjectSummary {
    pub key: String,
    pub size: Option<i64>,
}

/// A key matches a prefix exactly when the key starts with the literal
/// prefix string: no path-separator semantics are implied.
pub open spec fn is_key_prefix(prefix: Seq<char>, key: Seq<char>) -> bool {
    prefix.len() <= key.len() && key.subrange(0, prefix.len() as int) == prefix
}

/// Decide whether `key` starts with the literal `prefix`.
pub fn key_has_prefix(key: &str, prefix: &str) -> (r: bool)
    ensures
        r == is_key_prefix(prefix@, key@),
{
    let klen: usize = key.unicode_len();
    let plen: usize = prefix.unicode_len();
    if plen > klen {
        return false;
    }
    let mut i: usize = 0;
    while i < plen
        invariant
            i <= plen,
            plen <= klen,
            plen == prefix@.len(),
            klen == key@.len(),
            forall|j: int| 0 <= j < i ==> key@[j] == prefix@[j],
        decreases plen - i,
    {
        if key.get_char(i) != prefix.get_char(i) {
            proof {
                assert(key@.subrange(0, plen as int)[i as int] != prefix@[i as int]);
            }
            return false;
        }
        i += 1;
    }
    proof {
        assert(key@.subrange(0, plen as int) =~= prefix@);
    }
    true
}

#[verifier::external_type_specification]
#[verifier::external_body]
pub struct ExObject(aws_sdk_s3::types::Object);

pub uninterp spec fn object_key_of(o: aws_sdk_s3::types::Object) -> Option<Seq<char>>;

pub uninterp spec fn object_size_of(o: aws_sdk_s3::types::Object) -> Option<i64>;

/// Relies on `aws_sdk_s3::types::Object::key`: returns the object's key
/// field, the name under which the object is stored.
pub assume_specification<'a>[ aws_sdk_s3::types::Object::key ](
    o: &'a aws_sdk_s3::types::Object,
) -> (r: Option<&'a str>)
    ensures
        match r {
            Some(s) => object_key_of(*o) == Some(s@),
            None => object_key_of(*o) is None,
        },
;

/// Relies on `aws_sdk_s3::types::Object::size`: returns the object's
/// size field, its length in bytes as the service reported it.
pub assume_specification[ aws_sdk_s3::types::Object::size ](o: &aws_sdk_s3::types::Object) -> (r:
    Option<i64>)
    ensures
        r == object_size_of(*o),
;

/// The entries a listing page carries: the page's content list, or
/// nothing at all when the page reported no contents.
pub fn page_contents(contents: Option<Vec<aws_sdk_s3::types::Object>>) -> (r: Vec<
    aws_sdk_s3::types::Object,
>)
    ensures
        match contents {
            Some(v) => r@ == v@,
            None => r@ == Seq::<aws_sdk_s3::types::Object>::empty(),
        },
{
    match contents {
        Some(v) => v,
        None => Vec::new(),
    }
}

/// The descriptor `s` reads the fields of `o`: the same key (an absent
/// key reads as the empty string) and the same size.
pub open spec fn summary_matches(s: ObjectSummary, o: aws_sdk_s3::types::Object) -> bool {
    &&& (match object_key_of(o) {
        Some(k) => s.key@ == k,
        None => s.key@ == Seq::<char>::empty(),
    })
    &&& s.size == object_size_of(o)
}

/// Read one service object into the library's descriptor.
pub fn summarize(o: &aws_sdk_s3::types::Object) -> (s: ObjectSummary)
    ensures
        summary_matches(s, *o),
{
    let key: String = match o.key() {
        Some(k) => k.to_owned(),
        None => String::new(),
    };
    ObjectSummary { key, size: o.size() }
}

/// Read one page of service objects into descriptors, keeping order.
pub fn summarize_page(objs: Vec<aws_sdk_s3::types::Object>) -> (r: Vec<ObjectSummary>)
    ensures
        r@.len() == objs@.len(),
        forall|i: int| 0 <= i < objs@.len() ==> summary_matches(#[trigger] r@[i], objs@[i]),
{
    let mut r: Vec<ObjectSummary> = Vec::new();
    let mut i: usize = 0;
    while i < objs.len()
        invariant
            i <= objs@.len(),
            r@.len() == i,
            forall|j: int| 0 <= j < i ==> summary_matches(#[trigger] r@[j], objs@[j]),
        decreases objs@.len() - i,
    {
        let s = summarize(&objs[i]);
        r.push(s);
        i += 1;
    }
    r
}

/// The outcome of one page fetch, handed to the adapter by the caller.
pub enum PageEvent {
    /// A page arrived, holding these entries in service order.
    Page(Vec<ObjectSummary>),
    /// The page fetch failed with a structured service error.
    Failure(ServiceError),
    /// The source has no further pages.
    Exhausted,
}

/// What the adapter does on one pull.
pub enum ListStep {
    /// The next entry of the flattened listing.
    Item(ObjectSummary),
    /// The service failure, reported once; the sequence then terminates.
    Failed(ServiceError),
    /// The current page is drained: fetch the next page and hand it back.
    NeedPage,
    /// The flattened listing has ended; no further entries will come.
    Finished,
}

/// Flattens a paginated listing into a single ordered sequence of entries.
pub struct ListingAdapter {
    buffered: Vec<ObjectSummary>,
    fault: Option<ServiceError>,
    source_done: bool,
    finished: bool,
    pages: Ghost<Seq<Seq<ObjectSummary>>>,
    yielded: Ghost<Seq<ObjectSummary>>,
    reported: Ghost<Option<ServiceError>>,
}

impl ListingAdapter {
    /// The entries of each page accepted so far, in arrival order.
    pub closed spec fn pages_seen(self) -> Seq<Seq<ObjectSummary>> {
        self.pages@
    }

    /// The entries yielded so far, in yield order.
    pub closed spec fn items_yielded(self) -> Seq<ObjectSummary> {
        self.yielded@
    }

    /// The entries of the current page not yet yielded, in order.
    pub closed spec fn pending_items(self) -> Seq<ObjectSummary> {
        self.buffered@
    }

    /// A page-fetch failure accepted but not yet reported.
    pub closed spec fn fault_pending(self) -> Option<ServiceError> {
        self.fault
    }

    /// The page-fetch failure already reported to the caller, if any.
    pub closed spec fn fault_reported(self) -> Option<ServiceError> {
        self.reported@
    }

    /// True once the source will deliver no further pages.
    pub closed spec fn source_exhausted(self) -> bool {
        self.source_done
    }

    /// True once the flattened sequence has terminated.
    pub closed spec fn is_finished(self) -> bool {
        self.finished
    }

    /// True when the adapter's next pull will ask for a page.
    pub open spec fn wants_page(self) -> bool {
        &&& !self.is_finished()
        &&& self.pending_items().len() == 0
        &&& self.fault_pending() is None
        &&& !self.source_exhausted()
    }

    /// The adapter's invariant: what was yielded, followed by what is
    /// still buffered, is exactly the flattening of the pages seen; a
    /// failure is reported at most once and terminates the sequence.
    pub closed spec fn wf(self) -> bool {
        &&& self.yielded@ + self.buffered@ == self.pages@.flatten()
        &&& (self.finished ==> self.buffered@.len() == 0 && self.fault is None
            && self.source_done)
        &&& (self.fault is Some ==> self.buffered@.len() == 0 && self.source_done
            && !self.finished && self.reported@ is None)
        &&& (self.reported@ is Some ==> self.finished)
    }

    /// A fresh adapter: nothing seen, nothing yielded, nothing reported.
    pub fn new() -> (s: Self)
        ensures
            s.wf(),
            s.pages_seen() == Seq::<Seq<ObjectSummary>>::empty(),
            s.items_yielded() == Seq::<ObjectSummary>::empty(),
            s.fault_pending() is None,
            s.fault_reported() is None,
            !s.is_finished(),
            s.wants_page(),
    {
        let s = ListingAdapter {
            buffered: Vec::new(),
            fault: None,
            source_done: false,
            finished: false,
            pages: Ghost(Seq::empty()),
            yielded: Ghost(Seq::empty()),
            reported: Ghost(None),
        };
        proof {
            assert(s.yielded@ + s.buffered@ =~= s.pages@.flatten());
        }
        s
    }

    /// Pull once. Yields the next buffered entry if one is left; else
    /// reports a pending failure once and terminates; else terminates
    /// when the source is exhausted; else asks the caller for a page.
    pub fn next_step(&mut self) -> (step: ListStep)
        requires
            old(self).wf(),
        ensures
            final(self).wf(),
            final(self).pages_seen() == old(self).pages_seen(),
            final(self).source_exhausted() == old(self).source_exhausted(),
            match step {
                ListStep::Item(o) => {
                    &&& old(self).pending_items().len() > 0
                    &&& o == old(self).pending_items()[0]
                    &&& final(self).items_yielded() == old(self).items_yielded().push(o)
                    &&& final(self).pending_items() == old(self).pending_items().drop_first()
                    &&& final(self).fault_pending() == old(self).fault_pending()
                    &&& final(self).fault_reported() == old(self).fault_reported()
                    &&& !final(self).is_finished()
                },
                ListStep::Failed(e) => {
                    &&& old(self).fault_pending() == Some(e)
                    &&& old(self).pending_items().len() == 0
                    &&& final(self).fault_pending() is None
                    &&& final(self).fault_reported() == Some(e)
                    &&& final(self).is_finished()
                    &&& final(self).items_yielded() == old(self).items_yielded()
                    &&& final(self).pending_items().len() == 0
                },
                ListStep::NeedPage => {
                    &&& old(self).wants_page()
                    &&& final(self).items_yielded() == old(self).items_yielded()
                    &&& final(self).pending_items() == old(self).pending_items()
                    &&& final(self).fault_pending() == old(self).fault_pending()
                    &&& final(self).fault_reported() == old(self).fault_reported()
                    &&& !final(self).is_finished()
                },
                ListStep::Finished => {
                    &&& old(self).pending_items().len() == 0
                    &&& old(self).fault_pending() is None
                    &&& (old(self).is_finished() || old(self).source_exhausted())
                    &&& final(self).is_finished()
                    &&& final(self).items_yielded() == old(self).items_yielded()
                    &&& final(self).pending_items().len() == 0
                    &&& final(self).fault_pending() is None
                    &&& final(self).fault_reported() == old(self).fault_reported()
                },
            },
    {
        if self.finished {
            return ListStep::Finished;
        }
        if self.buffered.len() > 0 {
            let o = self.buffered.remove(0);
            proof {
                assert(old(self).buffered@.remove(0) =~= old(self).buffered@.drop_first());
            }
            self.yielded = Ghost(self.yielded@.push(o));
            proof {
                assert(self.yielded@ + self.buffered@ =~= self.pages@.flatten());
            }
            return ListStep::Item(o);
        }
        match self.fault.take() {
            Some(e) => {
                self.finished = true;
                self.reported = Ghost(Some(e));
                return ListStep::Failed(e);
            },
            None => {},
        }
        if self.source_done {
            self.finished = true;
            return ListStep::Finished;
        }
        ListStep::NeedPage
    }

    /// Accept the outcome of the page fetch the adapter asked for: a
    /// page's entries are buffered in order, a failure is held for the
    /// next pull, exhaustion ends the source.
    pub fn accept_page(&mut self, event: PageEvent)
        requires
            old(self).wf(),
            old(self).wants_page(),
        ensures
            final(self).wf(),
            final(self).items_yielded() == old(self).items_yielded(),
            final(self).fault_reported() == old(self).fault_reported(),
            !final(self).is_finished(),
            match event {
                PageEvent::Page(entries) => {
                    &&& final(self).pages_seen() == old(self).pages_seen().push(entries@)
                    &&& final(self).pending_items() == entries@
                    &&& final(self).fault_pending() is None
                    &&& !final(self).source_exhausted()
                },
                PageEvent::Failure(e) => {
                    &&& final(self).pages_seen() == old(self).pages_seen()
                    &&& final(self).pending_items().len() == 0
                    &&& final(self).fault_pending() == Some(e)
                    &&& final(self).source_exhausted()
                },
                PageEvent::Exhausted => {
                    &&& final(self).pages_seen() == old(self).pages_seen()
                    &&& final(self).pending_items().len() == 0
                    &&& final(self).fault_pending() is None
                    &&& final(self).source_exhausted()
                },
            },
    {
        match event {
            PageEvent::Page(entries) => {
                proof {
                    broadcast use Seq::lemma_flatten_push;

                    assert(self.yielded@ =~= self.yielded@ + self.buffered@);
                }
                self.pages = Ghost(self.pages@.push(entries@));
                self.buffered = entries;
                proof {
                    assert(self.yielded@ + self.buffered@ =~= self.pages@.flatten());
                }
            },
            PageEvent::Failure(e) => {
                self.fault = Some(e);
                self.source_done = true;
            },
            PageEvent::Exhausted => {
                self.source_done = true;
            },
        }
    }
}

/// Every element of a flattened sequence of pages is an element of one
/// of the pages.
proof fn lemma_flatten_index_in_page<A>(pages: Seq<Seq<A>>, k: int)
    requires
        0 <= k < pages.flatten().len(),
    ensures
        exists|i: int, j: int|
            0 <= i < pages.len() && 0 <= j < pages[i].len() && pages.flatten()[k] == #[trigger] (
            pages[i][j]),
    decreases pages.len(),
{
    let head = pages.first();
    let tail = pages.drop_first();
    if k < head.len() {
        assert(pages.flatten()[k] == pages[0][k]);
    } else {
        lemma_flatten_index_in_page(tail, k - head.len());
        let (i, j): (int, int) = choose|i: int, j: int|
            0 <= i < tail.len() && 0 <= j < tail[i].len() && tail.flatten()[k - head.len()]
                == #[trigger] (tail[i][j]);
        assert(pages[i + 1] == tail[i]);
        assert(pages.flatten()[k] == pages[i + 1][j]);
    }
}

/// A flattening of pages that are all empty is empty.
proof fn lemma_flatten_all_empty<A>(pages: Seq<Seq<A>>)
    requires
        forall|i: int| 0 <= i < pages.len() ==> #[trigger] pages[i].len() == 0,
    ensures
        pages.flatten().len() == 0,
    decreases pages.len(),
{
    if pages.len() > 0 {
        assert(forall|i: int|
            0 <= i < pages.drop_first().len() ==> #[trigger] pages.drop_first()[i].len() == 0);
        lemma_flatten_all_empty(pages.drop_first());
    }
}

/// Law: a fully drained listing has yielded exactly the entries of the
/// pages the service returned — in page order and within-page order,
/// each entry exactly once, none skipped and none repeated.
pub proof fn lemma_listing_exhaustive(m: ListingAdapter)
    requires
        m.wf(),
        m.is_finished(),
    ensures
        m.items_yielded() == m.pages_seen().flatten(),
{
    assert(m.items_yielded() =~= m.items_yielded() + m.pending_items());
}

/// Law: draining is deterministic in the pages the service delivered —
/// two full drains that saw the same pages yield the same entries.
pub proof fn lemma_listing_repeatable(a: ListingAdapter, b: ListingAdapter)
    requires
        a.wf(),
        b.wf(),
        a.is_finished(),
        b.is_finished(),
        a.pages_seen() == b.pages_seen(),
    ensures
        a.items_yielded() == b.items_yielded(),
{
    lemma_listing_exhaustive(a);
    lemma_listing_exhaustive(b);
}

/// Law: when the very first page fetch fails (a non-existent bucket),
/// the drained listing has yielded no entries: its first and only
/// event is the reported service error.
pub proof fn lemma_first_fetch_failure(m: ListingAdapter, e: ServiceError)
    requires
        m.wf(),
        m.is_finished(),
        m.pages_seen().len() == 0,
        m.fault_reported() == Some(e),
    ensures
        m.items_yielded().len() == 0,
{
    lemma_listing_exhaustive(m);
}

/// Law: a listing whose pages were all empty — an empty bucket, or a
/// prefix matching nothing — drains to no entries, and no failure was
/// reported when none arrived.
pub proof fn lemma_empty_listing(m: ListingAdapter)
    requires
        m.wf(),
        m.is_finished(),
        forall|i: int| 0 <= i < m.pages_seen().len() ==> #[trigger] m.pages_seen()[i].len() == 0,
    ensures
        m.items_yielded().len() == 0,
{
    lemma_flatten_all_empty(m.pages_seen());
    lemma_listing_exhaustive(m);
}

/// Law: if every entry of every page the service delivered has a key
/// starting with the literal prefix, then every entry the listing
/// yields has a key starting with that prefix.
pub proof fn lemma_prefix_filter(m: ListingAdapter, prefix: Seq<char>)
    requires
        m.wf(),
        forall|i: int, j: int|
            0 <= i < m.pages_seen().len() && 0 <= j < m.pages_seen()[i].len()
                ==> is_key_prefix(prefix, (#[trigger] m.pages_seen()[i][j]).key@),
    ensures
        forall|k: int|
            0 <= k < m.items_yielded().len() ==> is_key_prefix(
                prefix,
                (#[trigger] m.items_yielded()[k]).key@,
            ),
{
    let pages = m.pages_seen();
    let items = m.items_yielded();
    assert forall|k: int| 0 <= k < items.len() implies is_key_prefix(
        prefix,
        (#[trigger] items[k]).key@,
    ) by {
        assert(items[k] == pages.flatten()[k]);
        lemma_flatten_index_in_page(pages, k);
    }
}

} // verus!
