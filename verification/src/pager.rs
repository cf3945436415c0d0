//! Turning a cursor-based listing into one ordered stream of items.
//!
//! The producer fetches a page, hands its items to the consumer one at a
//! time, and fetches the next page only when the items of the current one
//! are used up and the page named a successor. A consumer that goes away
//! stops the producer where it stands: there is no other way to cancel.
//! Fetching and handing over are the caller's work; what is decided here is
//! which of the two comes next.

use crate::model::{PageParts, PageToken};
use vstd::prelude::*;

verus! {

/// The number of items that may wait between producer and consumer.
pub const CHANNEL_CAPACITY: usize = 32;

/// Where the producer stands.
#[derive(Debug, PartialEq, Eq, Clone, Copy, Structural)]
pub enum PagerPhase {
    /// No page has been asked for.
    Idle,
    /// A page has been asked for.
    AwaitingPage,
    /// An item has been handed over, and has been neither taken nor
    /// refused yet.
    AwaitingConsumer,
    /// The stream has ended.
    Finished,
}

/// What the caller reports to the producer.
pub enum PagerEvent<T, E> {
    /// The caller is ready to produce.
    Start,
    /// The page that was asked for has come.
    PageFetched(PageParts<T>),
    /// The page that was asked for could not be had.
    FetchFailed(E),
    /// The item was taken: by the consumer, or by the channel that leads to
    /// it, where there is one and it had room.
    Accepted,
    /// The item was refused, because the consumer has gone away.
    Closed,
}

/// What the caller has to do next.
pub enum PagerAction<T, E> {
    /// Fetch the first page, or the page after this cursor.
    Fetch(Option<PageToken>),
    /// Hand this item to the consumer.
    Emit(T),
    /// Hand this failure to the consumer as the last thing it gets.
    EmitError(E),
    /// End the stream.
    Stop,
}

/// The producer as a value: its phase, the items of the current page that
/// are still to be handed over, first one first, and the cursor that the
/// current page named.
pub struct PagerView<T> {
    pub phase: PagerPhase,
    pub pending: Seq<T>,
    pub cursor: Option<PageToken>,
}

/// The producer before anything has happened.
pub open spec fn initial<T>() -> PagerView<T> {
    PagerView { phase: PagerPhase::Idle, pending: Seq::empty(), cursor: None }
}

/// The producer after the stream has ended.
pub open spec fn finished<T>() -> PagerView<T> {
    PagerView { phase: PagerPhase::Finished, pending: Seq::empty(), cursor: None }
}

/// What a producer that is free to go on does: hand over the next pending
/// item; with none pending, fetch the page after the cursor; with no cursor
/// either, end the stream.
pub open spec fn proceed<T, E>(pending: Seq<T>, cursor: Option<PageToken>) -> (
    PagerView<T>,
    PagerAction<T, E>,
) {
    if pending.len() > 0 {
        (
            PagerView { phase: PagerPhase::AwaitingConsumer, pending: pending.drop_first(), cursor },
            PagerAction::Emit(pending[0]),
        )
    } else {
        match cursor {
            Some(token) => (
                PagerView { phase: PagerPhase::AwaitingPage, pending: Seq::empty(), cursor: None },
                PagerAction::Fetch(Some(token)),
            ),
            None => (finished(), PagerAction::Stop),
        }
    }
}

/// The producer and the action that follow from a producer and an event.
pub open spec fn pager_step<T, E>(pager: PagerView<T>, event: PagerEvent<T, E>) -> (
    PagerView<T>,
    PagerAction<T, E>,
) {
    match (pager.phase, event) {
        (PagerPhase::Idle, PagerEvent::Start) => (
            PagerView { phase: PagerPhase::AwaitingPage, pending: Seq::empty(), cursor: None },
            PagerAction::Fetch(None),
        ),
        (PagerPhase::AwaitingPage, PagerEvent::PageFetched(page)) => proceed(
            page.items@,
            page.next_page_token,
        ),
        (PagerPhase::AwaitingPage, PagerEvent::FetchFailed(e)) => (
            finished(),
            PagerAction::EmitError(e),
        ),
        (PagerPhase::AwaitingConsumer, PagerEvent::Accepted) => proceed(
            pager.pending,
            pager.cursor,
        ),
        _ => (finished(), PagerAction::Stop),
    }
}

/// The items of `items` in reverse order.
fn reversed<T>(items: Vec<T>) -> (r: Vec<T>)
    ensures
        r@ == items@.reverse(),
{
    let mut items = items;
    let ghost all = items@;
    let mut r: Vec<T> = Vec::new();
    while items.len() > 0
        invariant
            items@.len() <= all.len(),
            items@ == all.take(items@.len() as int),
            r@.len() + items@.len() == all.len(),
            forall|i: int| 0 <= i < r@.len() ==> r@[i] == all[all.len() - 1 - i],
        decreases items@.len(),
    {
        let item = items.pop().unwrap();
        r.push(item);
    }
    proof {
        assert(r@ =~= all.reverse());
    }
    r
}

/// The producer of one stream. Each stream starts at the first page: a
/// producer cannot be rewound.
pub struct Pager<T> {
    phase: PagerPhase,
    stack: Vec<T>,
    cursor: Option<PageToken>,
}

impl<T> View for Pager<T> {
    type V = PagerView<T>;

    closed spec fn view(&self) -> PagerView<T> {
        PagerView { phase: self.phase, pending: self.stack@.reverse(), cursor: self.cursor }
    }
}

impl<T> Pager<T> {
    /// A producer that has not asked for anything.
    pub fn new() -> (pager: Pager<T>)
        ensures
            pager@ == initial::<T>(),
    {
        let pager = Pager { phase: PagerPhase::Idle, stack: Vec::new(), cursor: None };
        proof {
            assert(pager.stack@.reverse() =~= Seq::<T>::empty());
        }
        pager
    }

    /// Where the producer stands.
    pub fn phase(&self) -> (phase: PagerPhase)
        ensures
            phase == self@.phase,
    {
        self.phase
    }

    /// Goes on after the consumer took an item or a page came.
    fn proceed<E>(stack: Vec<T>, cursor: Option<PageToken>) -> (next: (Pager<T>, PagerAction<T, E>))
        ensures
            (next.0@, next.1) == proceed::<T, E>(stack@.reverse(), cursor),
    {
        let mut stack = stack;
        let ghost pending = stack@.reverse();
        if stack.len() > 0 {
            let item = stack.pop().unwrap();
            proof {
                assert(stack@.reverse() =~= pending.drop_first());
                assert(pending[0] == item);
            }
            (Pager { phase: PagerPhase::AwaitingConsumer, stack, cursor }, PagerAction::Emit(item))
        } else {
            proof {
                assert(stack@.reverse() =~= Seq::<T>::empty());
            }
            match cursor {
                Some(token) => (
                    Pager { phase: PagerPhase::AwaitingPage, stack, cursor: None },
                    PagerAction::Fetch(Some(token)),
                ),
                None => (
                    Pager { phase: PagerPhase::Finished, stack, cursor: None },
                    PagerAction::Stop,
                ),
            }
        }
    }

    /// Takes the caller's report and says what to do next.
    pub fn step<E>(self, event: PagerEvent<T, E>) -> (next: (Pager<T>, PagerAction<T, E>))
        ensures
            (next.0@, next.1) == pager_step(self@, event),
    {
        match (self.phase, event) {
            (PagerPhase::Idle, PagerEvent::Start) => {
                let pager = Pager {
                    phase: PagerPhase::AwaitingPage,
                    stack: Vec::new(),
                    cursor: None,
                };
                proof {
                    assert(pager.stack@.reverse() =~= Seq::<T>::empty());
                }
                (pager, PagerAction::Fetch(None))
            },
            (PagerPhase::AwaitingPage, PagerEvent::PageFetched(page)) => {
                let ghost items = page.items@;
                let stack = reversed(page.items);
                proof {
                    assert(stack@.reverse() =~= items);
                }
                Self::proceed(stack, page.next_page_token)
            },
            (PagerPhase::AwaitingPage, PagerEvent::FetchFailed(e)) => {
                let pager = Pager { phase: PagerPhase::Finished, stack: Vec::new(), cursor: None };
                proof {
                    assert(pager.stack@.reverse() =~= Seq::<T>::empty());
                }
                (pager, PagerAction::EmitError(e))
            },
            (PagerPhase::AwaitingConsumer, PagerEvent::Accepted) => Self::proceed(
                self.stack,
                self.cursor,
            ),
            _ => {
                let pager = Pager { phase: PagerPhase::Finished, stack: Vec::new(), cursor: None };
                proof {
                    assert(pager.stack@.reverse() =~= Seq::<T>::empty());
                }
                (pager, PagerAction::Stop)
            },
        }
    }
}

/// The items of a run of pages, page after page.
pub open spec fn all_items<T>(pages: Seq<PageParts<T>>) -> Seq<T>
    decreases pages.len(),
{
    if pages.len() == 0 {
        Seq::empty()
    } else {
        pages[0].items@ + all_items(pages.drop_first())
    }
}

/// What bounds the steps that remain before the next page is asked for.
pub open spec fn steps_left<T, E>(pager: PagerView<T>, event: PagerEvent<T, E>) -> nat {
    match event {
        PagerEvent::PageFetched(page) => page.items@.len() + 1,
        _ => pager.pending.len(),
    }
}

/// What the consumer gets where it takes every item and the remote side
/// serves `pages` in turn: the items that are handed over from the moment
/// `event` is reported to `pager`, and the number of pages that are asked
/// for from then on.
pub open spec fn stream<T, E>(
    pager: PagerView<T>,
    event: PagerEvent<T, E>,
    pages: Seq<PageParts<T>>,
) -> (Seq<T>, nat)
    decreases pages.len(), steps_left(pager, event),
{
    let next = pager_step(pager, event);
    match next.1 {
        PagerAction::Emit(item) => {
            let rest = stream(next.0, PagerEvent::<T, E>::Accepted, pages);
            (seq![item] + rest.0, rest.1)
        },
        PagerAction::Fetch(_) => if pages.len() == 0 {
            (Seq::empty(), 1)
        } else {
            let rest = stream(
                next.0,
                PagerEvent::<T, E>::PageFetched(pages[0]),
                pages.drop_first(),
            );
            (rest.0, rest.1 + 1)
        },
        _ => (Seq::empty(), 0),
    }
}

/// Whether `pages` is a listing as the remote side serves it: every page but
/// the last names a successor, and the last names none.
pub open spec fn is_listing<T>(pages: Seq<PageParts<T>>) -> bool {
    &&& pages.len() > 0
    &&& forall|i: int| 0 <= i < pages.len() - 1 ==> (#[trigger] pages[i]).next_page_token is Some
    &&& pages.last().next_page_token is None
}

/// What follows the first page of a listing: another listing where the
/// page names a successor, nothing where it names none.
proof fn lemma_rest_of_listing<T>(pages: Seq<PageParts<T>>)
    requires
        is_listing(pages),
    ensures
        pages[0].next_page_token is Some ==> is_listing(pages.drop_first()),
        pages[0].next_page_token is None ==> pages.drop_first().len() == 0,
{
    let rest = pages.drop_first();
    if pages[0].next_page_token is Some {
        assert(pages.len() > 1);
        assert forall|i: int| 0 <= i < rest.len() - 1 implies (
        #[trigger] rest[i]).next_page_token is Some by {
            assert(rest[i] == pages[i + 1]);
        }
        assert(rest.last() == pages.last());
    } else if rest.len() > 0 {
        assert(pages[0].next_page_token is Some);
    }
}

/// What comes out once the pending items are handed over and the listing
/// goes on from `cursor`.
proof fn lemma_stream_pending<T, E>(
    pending: Seq<T>,
    cursor: Option<PageToken>,
    pages: Seq<PageParts<T>>,
)
    requires
        cursor is Some ==> is_listing(pages),
        cursor is None ==> pages.len() == 0,
    ensures
        stream(
            PagerView { phase: PagerPhase::AwaitingConsumer, pending, cursor },
            PagerEvent::<T, E>::Accepted,
            pages,
        ) == (pending + all_items(pages), pages.len()),
    decreases pages.len(), pending.len(),
{
    let pager = PagerView { phase: PagerPhase::AwaitingConsumer, pending, cursor };
    let next = pager_step(pager, PagerEvent::<T, E>::Accepted);
    if pending.len() > 0 {
        lemma_stream_pending::<T, E>(pending.drop_first(), cursor, pages);
        assert(seq![pending[0]] + (pending.drop_first() + all_items(pages)) =~= pending
            + all_items(pages));
    } else {
        match cursor {
            Some(token) => {
                lemma_stream_page::<T, E>(pages);
                assert(pending + all_items(pages) =~= all_items(pages));
            },
            None => {
                assert(pending + all_items(pages) =~= Seq::<T>::empty());
            },
        }
    }
}

/// What comes out once the first page of a listing has come.
proof fn lemma_stream_page<T, E>(pages: Seq<PageParts<T>>)
    requires
        is_listing(pages),
    ensures
        stream(
            PagerView { phase: PagerPhase::AwaitingPage, pending: Seq::empty(), cursor: None },
            PagerEvent::<T, E>::PageFetched(pages[0]),
            pages.drop_first(),
        ) == (all_items(pages), (pages.len() - 1) as nat),
    decreases pages.len() - 1, pages[0].items@.len() + 1,
{
    let page = pages[0];
    let rest = pages.drop_first();
    let pager = PagerView::<T> {
        phase: PagerPhase::AwaitingPage,
        pending: Seq::empty(),
        cursor: None,
    };
    lemma_rest_of_listing(pages);
    if page.items@.len() > 0 {
        lemma_stream_pending::<T, E>(page.items@.drop_first(), page.next_page_token, rest);
        assert(seq![page.items@[0]] + (page.items@.drop_first() + all_items(rest)) =~= page.items@
            + all_items(rest));
    } else {
        match page.next_page_token {
            Some(token) => {
                lemma_stream_page::<T, E>(rest);
                assert(page.items@ + all_items(rest) =~= all_items(rest));
            },
            None => {
                assert(all_items(rest) =~= Seq::<T>::empty());
                assert(page.items@ + all_items(rest) =~= Seq::<T>::empty());
            },
        }
    }
}

/// For a listing of any number of items split across any number of pages, a
/// consumer that takes everything gets every item, in the order of the
/// listing, after which the stream ends; and each page is asked for once.
pub proof fn lemma_pagination_complete<T, E>(pages: Seq<PageParts<T>>)
    requires
        is_listing(pages),
    ensures
        stream(initial::<T>(), PagerEvent::<T, E>::Start, pages) == (all_items(pages), pages.len()),
{
    lemma_stream_page::<T, E>(pages);
}

/// What comes of a stream of which `take` items are taken and the next one
/// is refused, while the remote side serves `pages` in turn: the items
/// that were taken, and the number of pages that are asked for, from the
/// moment `event` is reported to `pager`. The producer learns that the
/// consumer is gone when an item that it hands over is refused.
pub open spec fn cut_stream<T, E>(
    pager: PagerView<T>,
    event: PagerEvent<T, E>,
    pages: Seq<PageParts<T>>,
    take: nat,
) -> (Seq<T>, nat)
    decreases pages.len(), steps_left(pager, event),
{
    let next = pager_step(pager, event);
    match next.1 {
        PagerAction::Emit(item) => if take == 0 {
            (Seq::empty(), 0)
        } else {
            let rest = cut_stream(next.0, PagerEvent::<T, E>::Accepted, pages, (take - 1) as nat);
            (seq![item] + rest.0, rest.1)
        },
        PagerAction::Fetch(_) => if pages.len() == 0 {
            (Seq::empty(), 1)
        } else {
            let rest = cut_stream(
                next.0,
                PagerEvent::<T, E>::PageFetched(pages[0]),
                pages.drop_first(),
                take,
            );
            (rest.0, rest.1 + 1)
        },
        _ => (Seq::empty(), 0),
    }
}

/// The number of pages, from the first one on, that it takes to have `count`
/// items; all of them where there are fewer items than that.
pub open spec fn pages_needed<T>(pages: Seq<PageParts<T>>, count: nat) -> nat
    decreases pages.len(),
{
    if pages.len() == 0 {
        0
    } else if pages[0].items@.len() >= count {
        1
    } else {
        1 + pages_needed(pages.drop_first(), (count - pages[0].items@.len()) as nat)
    }
}

/// The number of items of a run of pages.
proof fn lemma_all_items_len<T>(pages: Seq<PageParts<T>>)
    ensures
        pages.len() > 0 ==> all_items(pages).len() == pages[0].items@.len() + all_items(
            pages.drop_first(),
        ).len(),
        pages.len() == 0 ==> all_items(pages).len() == 0,
{
}

/// What comes out of the pending items and the rest of the listing when the
/// consumer goes away after `take` items.
proof fn lemma_cut_pending<T, E>(
    pending: Seq<T>,
    cursor: Option<PageToken>,
    pages: Seq<PageParts<T>>,
    take: nat,
)
    requires
        cursor is Some ==> is_listing(pages),
        cursor is None ==> pages.len() == 0,
        take < pending.len() + all_items(pages).len(),
    ensures
        cut_stream(
            PagerView { phase: PagerPhase::AwaitingConsumer, pending, cursor },
            PagerEvent::<T, E>::Accepted,
            pages,
            take,
        ) == (
            (pending + all_items(pages)).take(take as int),
            if take < pending.len() {
                0nat
            } else {
                pages_needed(pages, (take - pending.len() + 1) as nat)
            },
        ),
    decreases pages.len(), pending.len(),
{
    let all = pending + all_items(pages);
    if pending.len() > 0 {
        if take == 0 {
            assert(all.take(0) =~= Seq::<T>::empty());
        } else {
            let shorter = pending.drop_first();
            lemma_cut_pending::<T, E>(shorter, cursor, pages, (take - 1) as nat);
            assert(seq![pending[0]] + (shorter + all_items(pages)).take(take - 1) =~= all.take(
                take as int,
            ));
        }
    } else {
        match cursor {
            Some(token) => {
                lemma_cut_page::<T, E>(pages, take);
                assert(all =~= all_items(pages));
            },
            None => {
                lemma_all_items_len(pages);
            },
        }
    }
}

/// What comes out of a listing whose first page has come when the consumer
/// goes away after `take` items.
proof fn lemma_cut_page<T, E>(pages: Seq<PageParts<T>>, take: nat)
    requires
        is_listing(pages),
        take < all_items(pages).len(),
    ensures
        cut_stream(
            PagerView { phase: PagerPhase::AwaitingPage, pending: Seq::empty(), cursor: None },
            PagerEvent::<T, E>::PageFetched(pages[0]),
            pages.drop_first(),
            take,
        ) == (all_items(pages).take(take as int), (pages_needed(pages, take + 1) - 1) as nat),
    decreases pages.len() - 1, pages[0].items@.len() + 1,
{
    let page = pages[0];
    let rest = pages.drop_first();
    lemma_all_items_len(pages);
    lemma_rest_of_listing(pages);
    let items = page.items@;
    if items.len() > 0 {
        if take == 0 {
            assert(all_items(pages).take(0) =~= Seq::<T>::empty());
        } else {
            let shorter = items.drop_first();
            lemma_cut_pending::<T, E>(shorter, page.next_page_token, rest, (take - 1) as nat);
            assert(seq![items[0]] + (shorter + all_items(rest)).take(take - 1) =~= all_items(
                pages,
            ).take(take as int));
        }
    } else {
        match page.next_page_token {
            Some(token) => {
                lemma_cut_page::<T, E>(rest, take);
                assert(all_items(pages) =~= all_items(rest));
            },
            None => {
                lemma_all_items_len(rest);
            },
        }
    }
}

/// Where fewer items are taken than the listing holds and the next one is
/// refused, the items taken are the first items of the listing in their
/// order, the stream ends without a failure, and no page has been asked for
/// beyond the one that holds the item that was refused.
pub proof fn lemma_cancellation<T, E>(pages: Seq<PageParts<T>>, take: nat)
    requires
        is_listing(pages),
        take < all_items(pages).len(),
    ensures
        cut_stream(initial::<T>(), PagerEvent::<T, E>::Start, pages, take) == (
            all_items(pages).take(take as int),
            pages_needed(pages, take + 1),
        ),
        pages_needed(pages, take + 1) <= pages.len(),
{
    lemma_cut_page::<T, E>(pages, take);
    lemma_pages_needed_bound(pages, take + 1);
}

/// More items never need fewer pages.
pub proof fn lemma_pages_needed_grows<T>(pages: Seq<PageParts<T>>, fewer: nat, more: nat)
    requires
        fewer <= more,
    ensures
        pages_needed(pages, fewer) <= pages_needed(pages, more),
    decreases pages.len(),
{
    if pages.len() > 0 {
        let first = pages[0].items@.len();
        if first < fewer {
            lemma_pages_needed_grows(
                pages.drop_first(),
                (fewer - first) as nat,
                (more - first) as nat,
            );
        } else if first < more {
            lemma_pages_needed_bound(pages.drop_first(), (more - first) as nat);
        }
    }
}

/// Cancellation, as the consumer sees it. Between producer and consumer
/// lies a channel that holds up to `CHANNEL_CAPACITY` items, so when the
/// consumer goes away after `consumed` items, the producer has had up to
/// that many more items taken off its hands before one is refused. Whatever
/// that number, the consumer has got the first items of the listing in
/// their order, the stream ends without a failure, and the producer has
/// asked for no more pages than the first `consumed + CHANNEL_CAPACITY + 1`
/// items of the listing need.
pub proof fn lemma_cancellation_bound<T, E>(
    pages: Seq<PageParts<T>>,
    consumed: nat,
    taken: nat,
)
    requires
        is_listing(pages),
        consumed <= taken <= consumed + CHANNEL_CAPACITY,
        taken < all_items(pages).len(),
    ensures
        cut_stream(initial::<T>(), PagerEvent::<T, E>::Start, pages, taken).0.take(
            consumed as int,
        ) == all_items(pages).take(consumed as int),
        cut_stream(initial::<T>(), PagerEvent::<T, E>::Start, pages, taken).1 <= pages_needed(
            pages,
            (consumed + CHANNEL_CAPACITY + 1) as nat,
        ),
{
    lemma_cancellation::<T, E>(pages, taken);
    lemma_pages_needed_grows(pages, taken + 1, (consumed + CHANNEL_CAPACITY + 1) as nat);
    assert(all_items(pages).take(taken as int).take(consumed as int) =~= all_items(pages).take(
        consumed as int,
    ));
}

/// No more pages are needed than there are.
pub proof fn lemma_pages_needed_bound<T>(pages: Seq<PageParts<T>>, count: nat)
    ensures
        pages_needed(pages, count) <= pages.len(),
        pages.len() > 0 ==> pages_needed(pages, count) >= 1,
    decreases pages.len(),
{
    if pages.len() > 0 && pages[0].items@.len() < count {
        lemma_pages_needed_bound(pages.drop_first(), (count - pages[0].items@.len()) as nat);
    }
}

/// A consumer that goes away ends the stream at once: the producer stops,
/// whatever is pending and whatever cursor it holds, and stays stopped
/// whatever is reported to it afterwards.
pub proof fn lemma_closed_consumer_stops<T, E>(
    pager: PagerView<T>,
    later: PagerEvent<T, E>,
)
    ensures
        pager_step(pager, PagerEvent::<T, E>::Closed) == (
            finished::<T>(),
            PagerAction::<T, E>::Stop,
        ),
        pager_step(finished::<T>(), later) == (finished::<T>(), PagerAction::<T, E>::Stop),
{
}

/// A page is asked for only when nothing is pending: the producer never
/// fetches ahead of the consumer.
pub proof fn lemma_fetch_only_when_drained<T, E>(pager: PagerView<T>, event: PagerEvent<T, E>)
    ensures
        pager_step(pager, event).1 is Fetch ==> {
            &&& pager_step(pager, event).0.pending.len() == 0
            &&& event is Accepted ==> pager.pending.len() == 0
            &&& event matches PagerEvent::PageFetched(page) ==> page.items@.len() == 0
        },
{
}

/// A failed fetch reaches the consumer as one failure, and ends the stream.
pub proof fn lemma_fetch_failure_is_terminal<T, E>(pager: PagerView<T>, e: E)
    requires
        pager.phase == PagerPhase::AwaitingPage,
    ensures
        pager_step(pager, PagerEvent::<T, E>::FetchFailed(e)) == (
            finished::<T>(),
            PagerAction::<T, E>::EmitError(e),
        ),
{
}

} // verus!
