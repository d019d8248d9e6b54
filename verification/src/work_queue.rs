//! The work queue between the listener and the workers.
//!
//! `WorkQueue` is the store: a bounded first-in first-out queue, with the
//! rules of what a dispatch and a take do to it. `Sender` and `Receiver`
//! share one store behind a lock. A producer that finds the store full and a
//! consumer that finds it empty sleep on a condition variable, and look at
//! the store again when they wake.

use std::collections::VecDeque;
use std::sync::Arc;
use std::sync::Condvar;
use std::sync::Mutex;
use std::sync::MutexGuard;
use vstd::prelude::*;

verus! {

/// How many items the queue holds for each worker.
pub const ITEMS_PER_WORKER: usize = 4;

/// The waiting items after a dispatch of `item`: it goes behind the others,
/// unless the store is full, which then stays as it is.
pub open spec fn after_dispatch<T>(waiting: Seq<T>, capacity: nat, item: T) -> Seq<T> {
    if waiting.len() < capacity {
        waiting.push(item)
    } else {
        waiting
    }
}

/// The waiting items after a take: the oldest has left.
pub open spec fn after_take<T>(waiting: Seq<T>) -> Seq<T> {
    if waiting.len() > 0 {
        waiting.drop_first()
    } else {
        waiting
    }
}

/// The store of the queue: the items that wait, oldest first, and the
/// number of items that it has room for.
pub struct WorkQueue<T> {
    items: VecDeque<T>,
    limit: usize,
}

impl<T> WorkQueue<T> {
    /// The items that wait, oldest first.
    pub closed spec fn view(&self) -> Seq<T> {
        self.items@
    }

    /// The number of items that the store has room for.
    pub closed spec fn capacity(&self) -> nat {
        self.limit as nat
    }

    /// A store for `thread_count` workers: it has room for four items per
    /// worker, and for four where the count is 0.
    pub fn new(thread_count: usize) -> (queue: Self)
        ensures
            queue@ == Seq::<T>::empty(),
            queue.capacity() == queue_capacity(thread_count),
    {
        WorkQueue { items: VecDeque::new(), limit: capacity_for(thread_count) }
    }

    /// A store with room for `size` items, and for one where `size` is 0.
    pub fn with_capacity(size: usize) -> (queue: Self)
        ensures
            queue@ == Seq::<T>::empty(),
            queue.capacity() == if size == 0 {
                1
            } else {
                size as nat
            },
    {
        let limit = if size == 0 {
            1
        } else {
            size
        };
        WorkQueue { items: VecDeque::new(), limit }
    }

    /// Number of items that wait.
    pub fn len(&self) -> (n: usize)
        ensures
            n == self@.len(),
    {
        self.items.len()
    }

    /// Whether no item waits.
    pub fn is_empty(&self) -> (empty: bool)
        ensures
            empty == (self@.len() == 0),
    {
        self.items.len() == 0
    }

    /// Whether the store has no room for another item.
    pub fn is_full(&self) -> (full: bool)
        ensures
            full == (self@.len() >= self.capacity()),
    {
        self.items.len() >= self.limit
    }

    /// Whether `limit` items wait, or more.
    pub fn is_full_at(&self, limit: usize) -> (full: bool)
        ensures
            full == (self@.len() >= limit),
    {
        self.items.len() >= limit
    }

    /// Puts `item` behind the items that wait, unless `limit` of them wait
    /// already: then the store takes nothing and hands the item back.
    pub fn dispatch_within(&mut self, item: T, limit: usize) -> (refused: Option<T>)
        ensures
            final(self)@ == after_dispatch(old(self)@, limit as nat, item),
            final(self).capacity() == old(self).capacity(),
            refused is Some <==> old(self)@.len() >= limit,
            refused matches Some(back) ==> back == item,
    {
        if self.items.len() >= limit {
            Some(item)
        } else {
            self.items.push_back(item);
            None
        }
    }

    /// Puts `item` behind the items that wait. A full store takes nothing
    /// and hands the item back.
    pub fn dispatch(&mut self, item: T) -> (refused: Option<T>)
        ensures
            final(self)@ == after_dispatch(old(self)@, old(self).capacity(), item),
            final(self).capacity() == old(self).capacity(),
            refused is Some <==> old(self)@.len() >= old(self).capacity(),
            refused matches Some(back) ==> back == item,
    {
        let limit = self.limit;
        self.dispatch_within(item, limit)
    }

    /// Takes the item that has waited longest; none where none waits.
    pub fn take(&mut self) -> (item: Option<T>)
        ensures
            final(self)@ == after_take(old(self)@),
            final(self).capacity() == old(self).capacity(),
            item is Some <==> old(self)@.len() > 0,
            item matches Some(oldest) ==> oldest == old(self)@[0],
    {
        let item = self.items.pop_front();
        proof {
            if old(self)@.len() > 0 {
                assert(self.items@ =~= old(self)@.drop_first());
            }
        }
        item
    }
}

/// The capacity of a queue that serves `threads` workers.
pub open spec fn queue_capacity(threads: usize) -> nat {
    if threads == 0 {
        ITEMS_PER_WORKER as nat
    } else if threads * ITEMS_PER_WORKER > usize::MAX {
        usize::MAX as nat
    } else {
        (threads * ITEMS_PER_WORKER) as nat
    }
}

/// The capacity of a queue that serves `threads` workers: four items per
/// worker, as far as a `usize` can count them.
pub fn capacity_for(threads: usize) -> (capacity: usize)
    ensures
        capacity == queue_capacity(threads),
        capacity >= 1,
{
    if threads == 0 {
        ITEMS_PER_WORKER
    } else if threads > usize::MAX / ITEMS_PER_WORKER {
        usize::MAX
    } else {
        threads * ITEMS_PER_WORKER
    }
}

/// The number of workers: the number asked for, or the parallelism that the
/// machine offers where none or 0 was asked for; never less than 1.
pub open spec fn workers_for(requested: Option<usize>, available: usize) -> usize {
    let wanted = match requested {
        Some(n) => if n == 0 {
            available
        } else {
            n
        },
        None => available,
    };
    if wanted == 0 {
        1
    } else {
        wanted
    }
}

/// The number of workers that the pool runs.
pub fn worker_count(requested: Option<usize>, available: usize) -> (threads: usize)
    ensures
        threads == workers_for(requested, available),
        threads >= 1,
{
    let wanted = match requested {
        Some(n) => if n == 0 {
            available
        } else {
            n
        },
        None => available,
    };
    if wanted == 0 {
        1
    } else {
        wanted
    }
}

/// What a worker takes from the queue: a job, or the signal to stop.
#[derive(Debug, Clone, Copy, PartialEq, Eq)]
pub enum Work<T> {
    Job(T),
    Quit,
}

impl<T> Work<T> {
    /// The job that a work item holds; none for the signal to stop, on
    /// which a worker leaves its loop.
    pub fn into_job(self) -> (job: Option<T>)
        ensures
            job == match self {
                Work::Job(payload) => Some(payload),
                Work::Quit => None,
            },
    {
        match self {
            Work::Job(payload) => Some(payload),
            Work::Quit => None,
        }
    }
}

/// One step in the life of a queue.
pub enum QueueEvent<T> {
    /// A producer dispatches an item.
    Dispatch(T),
    /// The worker with this number takes an item.
    Take(nat),
}

/// What has happened to a queue: the items that it accepted, in the order
/// in which they came; the items that it handed out, with the worker that
/// took each, in the order in which they left; and the items that wait.
pub struct QueueHistory<T> {
    pub accepted: Seq<T>,
    pub delivered: Seq<(nat, T)>,
    pub waiting: Seq<T>,
}

/// The items of a sequence of deliveries.
pub open spec fn items_of<T>(delivered: Seq<(nat, T)>) -> Seq<T> {
    Seq::new(delivered.len(), |i: int| delivered[i].1)
}

/// The history after one more event. A dispatch onto a full queue and a
/// take from an empty one change nothing: the producer, or the worker,
/// waits and tries again.
pub open spec fn history_step<T>(
    history: QueueHistory<T>,
    capacity: nat,
    event: QueueEvent<T>,
) -> QueueHistory<T> {
    match event {
        QueueEvent::Dispatch(item) => QueueHistory {
            accepted: if history.waiting.len() < capacity {
                history.accepted.push(item)
            } else {
                history.accepted
            },
            delivered: history.delivered,
            waiting: after_dispatch(history.waiting, capacity, item),
        },
        QueueEvent::Take(worker) => QueueHistory {
            accepted: history.accepted,
            delivered: if history.waiting.len() > 0 {
                history.delivered.push((worker, history.waiting[0]))
            } else {
                history.delivered
            },
            waiting: after_take(history.waiting),
        },
    }
}

/// The history of a queue that starts empty and sees `events` in turn.
pub open spec fn history_of<T>(capacity: nat, events: Seq<QueueEvent<T>>) -> QueueHistory<T>
    decreases events.len(),
{
    if events.len() == 0 {
        QueueHistory { accepted: Seq::empty(), delivered: Seq::empty(), waiting: Seq::empty() }
    } else {
        history_step(history_of(capacity, events.drop_last()), capacity, events.last())
    }
}

/// Whatever the producers and the workers do, and in whatever order, the
/// items that were handed out, followed by the items that wait, are the
/// items that were accepted, in the order in which they came. So no item is
/// lost, none is handed out twice, and they leave in the order of their
/// dispatch.
pub proof fn lemma_every_item_once<T>(capacity: nat, events: Seq<QueueEvent<T>>)
    ensures
        items_of(history_of(capacity, events).delivered) + history_of(capacity, events).waiting
            == history_of(capacity, events).accepted,
        history_of(capacity, events).waiting.len() <= capacity,
    decreases events.len(),
{
    let now = history_of(capacity, events);
    if events.len() == 0 {
        assert(items_of(now.delivered) + now.waiting =~= now.accepted);
    } else {
        lemma_every_item_once(capacity, events.drop_last());
        let before = history_of(capacity, events.drop_last());
        match events.last() {
            QueueEvent::Dispatch(item) => {
                assert(items_of(now.delivered) + now.waiting =~= now.accepted);
            },
            QueueEvent::Take(worker) => {
                if before.waiting.len() > 0 {
                    assert(items_of(now.delivered) =~= items_of(before.delivered).push(
                        before.waiting[0],
                    ));
                    assert(items_of(now.delivered) + now.waiting =~= items_of(before.delivered)
                        + before.waiting);
                }
            },
        }
    }
}

/// Once as many items have been handed out as were accepted, each accepted
/// item has been handed out exactly once, in its turn, and none waits.
pub proof fn lemma_all_delivered<T>(capacity: nat, events: Seq<QueueEvent<T>>)
    requires
        history_of(capacity, events).delivered.len() == history_of(capacity, events).accepted.len(),
    ensures
        items_of(history_of(capacity, events).delivered) == history_of(capacity, events).accepted,
        history_of(capacity, events).waiting.len() == 0,
{
    lemma_every_item_once(capacity, events);
    let now = history_of(capacity, events);
    assert((items_of(now.delivered) + now.waiting).len() == now.accepted.len());
    assert(items_of(now.delivered) + now.waiting =~= items_of(now.delivered));
}

#[verifier::external_type_specification]
#[verifier::external_body]
#[verifier::reject_recursive_types(T)]
pub struct ExMutex<T: ?Sized>(Mutex<T>);

#[verifier::external_type_specification]
#[verifier::external_body]
pub struct ExCondvar(Condvar);

#[verifier::external_type_specification]
#[verifier::external_body]
#[verifier::reject_recursive_types(T)]
pub struct ExMutexGuard<'a, T: ?Sized + 'a>(MutexGuard<'a, T>);

/// `Mutex::new` makes a lock around a value. Nothing is stated of the lock.
pub assume_specification<T>[ Mutex::<T>::new ](t: T) -> Mutex<T>;

/// `Condvar::new` makes a condition variable.
pub assume_specification[ Condvar::new ]() -> Condvar;

/// `Condvar::notify_one` wakes one thread that sleeps on the condition
/// variable, if there is one. It changes nothing that a contract can name.
pub assume_specification[ Condvar::notify_one ](condvar: &Condvar);

/// Calls `Mutex::lock`, which sleeps until the lock is free and hands out
/// its guard. `PoisonError::into_inner` takes the guard out of the error
/// that std gives for a lock that a panic has poisoned. That case does not
/// arise: the lock is held only inside `dispatch` and `find_work`, between
/// this call and `put_back`, and what runs there is the store's own code,
/// which is verified not to panic. Nothing is stated of the guard.
#[verifier::external_body]
fn lock<'a, T>(store: &'a Mutex<WorkQueue<T>>) -> MutexGuard<'a, WorkQueue<T>> {
    store.lock().unwrap_or_else(|poisoned| poisoned.into_inner())
}

/// Calls `Condvar::wait_while`, which gives the lock up, sleeps, and on
/// each wake-up takes the lock again and looks at the store: it returns
/// only when the store holds an item. The store is then moved out of the
/// lock by `std::mem::replace`, with `spare` left in its place; the guard
/// goes on to hold the lock, and `put_back` returns the store.
///
/// std promises that the store holds an item only where the lock is not
/// poisoned; for a poisoned lock it returns at once. The contract rests on
/// the lock never being poisoned, for the reason given at `lock`.
#[verifier::external_body]
fn wait_for_work<'a, T>(
    ready: &Condvar,
    guard: MutexGuard<'a, WorkQueue<T>>,
    spare: WorkQueue<T>,
) -> (held: (MutexGuard<'a, WorkQueue<T>>, WorkQueue<T>))
    ensures
        held.1@.len() > 0,
{
    let mut guard = ready.wait_while(guard, |queue| queue.is_empty()).unwrap_or_else(
        |poisoned| poisoned.into_inner(),
    );
    let queue = std::mem::replace(&mut *guard, spare);
    (guard, queue)
}

/// Calls `Condvar::wait_while` in the same way for a producer: it returns
/// only when fewer than `limit` items wait in the store. This too rests on
/// the lock never being poisoned.
#[verifier::external_body]
fn wait_for_space<'a, T>(
    space: &Condvar,
    guard: MutexGuard<'a, WorkQueue<T>>,
    spare: WorkQueue<T>,
    limit: usize,
) -> (held: (MutexGuard<'a, WorkQueue<T>>, WorkQueue<T>))
    ensures
        held.1@.len() < limit,
{
    let mut guard = space.wait_while(guard, |queue| queue.is_full_at(limit)).unwrap_or_else(
        |poisoned| poisoned.into_inner(),
    );
    let queue = std::mem::replace(&mut *guard, spare);
    (guard, queue)
}

/// Moves the store back behind the lock and gives the lock up, by
/// `MutexGuard`'s `deref_mut` and `drop`.
#[verifier::external_body]
fn put_back<'a, T>(guard: MutexGuard<'a, WorkQueue<T>>, queue: WorkQueue<T>) {
    let mut guard = guard;
    *guard = queue;
}

/// The producing end of a queue. It knows how many items the queue has
/// room for, and puts an item in only while fewer wait.
#[verifier::reject_recursive_types(T)]
pub struct Sender<T: Send> {
    limit: usize,
    ready: Arc<Condvar>,
    space: Arc<Condvar>,
    store: Arc<Mutex<WorkQueue<T>>>,
}

/// The consuming end of a queue. Its clones take from the same store.
#[verifier::reject_recursive_types(T)]
pub struct Receiver<T: Send> {
    ready: Arc<Condvar>,
    space: Arc<Condvar>,
    store: Arc<Mutex<WorkQueue<T>>>,
}

/// Makes a queue with room for `size` items (for one where `size` is 0),
/// and hands out its two ends, which share the one store.
pub fn make_queue<T: Send>(size: usize) -> (ends: (Sender<T>, Receiver<T>))
    ensures
        ends.0.feeds(&ends.1),
        ends.0.capacity() == if size == 0 {
            1
        } else {
            size as nat
        },
{
    let limit = if size == 0 {
        1
    } else {
        size
    };
    let store = Arc::new(Mutex::new(WorkQueue::with_capacity(limit)));
    let ready = Arc::new(Condvar::new());
    let space = Arc::new(Condvar::new());
    (
        Sender {
            limit,
            ready: Arc::clone(&ready),
            space: Arc::clone(&space),
            store: Arc::clone(&store),
        },
        Receiver { ready, space, store },
    )
}

impl<T: Send> Sender<T> {
    /// Whether what this end dispatches is what `receiver` takes: the two
    /// hold the same store behind the same lock, and the same two condition
    /// variables.
    pub closed spec fn feeds(&self, receiver: &Receiver<T>) -> bool {
        &&& self.store == receiver.store
        &&& self.ready == receiver.ready
        &&& self.space == receiver.space
    }

    /// The number of items that the queue has room for. The store never
    /// holds more: this end waits while that many items wait, and puts an
    /// item in only behind fewer.
    pub closed spec fn capacity(&self) -> nat {
        self.limit as nat
    }

    /// Puts `data` into the queue and wakes one worker that waits for work.
    /// While the queue is full the caller sleeps.
    pub fn dispatch(&self, data: T) {
        let guard = lock(&self.store);
        let (guard, mut queue) = wait_for_space(
            &self.space,
            guard,
            WorkQueue::with_capacity(0),
            self.limit,
        );
        let refused = queue.dispatch_within(data, self.limit);
        assert(refused is None);
        put_back(guard, queue);
        self.ready.notify_one();
    }
}

impl<J: Send> Sender<Work<J>> {
    /// Stops `workers` workers: puts one signal to stop into the queue for
    /// each. A worker that sleeps for work wakes on its signal and leaves.
    pub fn shutdown(&self, workers: usize) {
        let mut sent: usize = 0;
        while sent < workers
            invariant
                sent <= workers,
            decreases workers - sent,
        {
            self.dispatch(Work::Quit);
            sent = sent + 1;
        }
    }
}

impl<T: Send> Receiver<T> {
    /// Takes the item that has waited longest. While the queue is empty the
    /// caller sleeps; when it wakes it looks at the queue again, so of
    /// several workers that wake for one item one gets it and the others
    /// sleep on.
    pub fn find_work(&mut self) -> T {
        let guard = lock(&self.store);
        let (guard, mut queue) = wait_for_work(&self.ready, guard, WorkQueue::with_capacity(0));
        let work = queue.take();
        put_back(guard, queue);
        self.space.notify_one();
        match work {
            Some(item) => item,
            None => vstd::pervasive::unreached(),
        }
    }
}

impl<T: Send> Clone for Receiver<T> {
    fn clone(&self) -> (shared: Self)
        ensures
            shared == *self,
    {
        Receiver {
            ready: Arc::clone(&self.ready),
            space: Arc::clone(&self.space),
            store: Arc::clone(&self.store),
        }
    }
}

} // verus!
