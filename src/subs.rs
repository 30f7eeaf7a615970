//! Bounded multi-producer, single-consumer buffers.
//!
//! A `Subscriber` owns a bounded queue; each `DirectSubscription` it hands
//! out pushes into that queue, dropping the oldest item when it is full.
//! The number of publishers that feed a subscriber doubles as a liveness
//! signal.
use crossbeam::queue::ArrayQueue;
use std::sync::atomic::{AtomicBool, AtomicUsize, Ordering};
use std::sync::Arc;
use vstd::prelude::*;

verus! {

#[verifier::external_type_specification]
#[verifier::external_body]
#[verifier::reject_recursive_types(T)]
pub struct ExArrayQueue<T>(ArrayQueue<T>);

/// Relies on `ArrayQueue::new`, which panics on a zero capacity.
#[verifier::external_body]
fn queue_new<T>(capacity: usize) -> ArrayQueue<T>
    requires
        capacity > 0,
{
    ArrayQueue::new(capacity)
}

/// Relies on `ArrayQueue::force_push`: the item displaced from a full
/// queue, if any. Other threads share the queue, so nothing more is known.
#[verifier::external_body]
fn queue_force_push<T>(queue: &ArrayQueue<T>, value: T) -> Option<T> {
    queue.force_push(value)
}

/// Relies on `ArrayQueue::pop`: the oldest item, if any.
#[verifier::external_body]
fn queue_pop<T>(queue: &ArrayQueue<T>) -> Option<T> {
    queue.pop()
}

/// Relies on `AtomicBool::store`, which neither panics with `Release`
/// ordering nor touches any invariant.
#[verifier::external_body]
fn mark_closed(flag: &AtomicBool)
    opens_invariants none
    no_unwind
{
    flag.store(false, Ordering::Release)
}

/// Proof that the holder is a publisher; needed to change a subscription's
/// publisher count.
pub struct PublisherToken {
    _private: (),
}

impl PublisherToken {
    /// Issued to a publisher when it takes a subscription.
    pub fn new() -> PublisherToken {
        PublisherToken { _private: () }
    }
}

/// Something that values of type `Item` can be published into.
pub trait Subscription {
    type Item;

    /// Whether `value` may be pushed: adapters run functions on it first,
    /// which must accept it.
    spec fn accepts(&self, value: Self::Item) -> bool;

    /// Publishes a value; `false` once the receiving side is gone.
    fn push(&mut self, value: Self::Item) -> (r: bool)
        requires
            old(self).accepts(value),
        ensures
            forall|v: Self::Item| final(self).accepts(v) == old(self).accepts(v),
    ;

    /// Changes the item type of this subscription with `map`.
    fn map<F, O>(self, map: F) -> (r: MapSubscription<Self, F, O>) where
        Self: Sized,
        F: Fn(O) -> Self::Item,

        ensures
            r.inner == self,
            r.map == map,
    {
        MapSubscription { inner: self, map, _phantom: std::marker::PhantomData }
    }

    /// Changes the item type of this subscription with `map`; values that
    /// `map` turns into `None` are not published.
    fn filter_map<F, O>(self, map: F) -> (r: FilterMap<Self, F, O>) where
        Self: Sized,
        F: Fn(O) -> Option<Self::Item>,

        ensures
            r.inner == self,
            r.map == map,
    {
        FilterMap { inner: self, map, _phantom: std::marker::PhantomData }
    }

    /// Names this subscription.
    fn set_name_mut(&mut self, name: String)
        ensures
            forall|v: Self::Item| final(self).accepts(v) == old(self).accepts(v),
    ;

    /// Names this subscription and hands it back.
    fn set_name(self, name: String) -> (r: Self) where Self: Sized
        ensures
            forall|v: Self::Item| r.accepts(v) == self.accepts(v),
    {
        let mut s = self;
        s.set_name_mut(name);
        s
    }

    /// Records that one more publisher feeds this subscription.
    fn increment_publishers(&self, token: PublisherToken);

    /// Records that one publisher stopped feeding this subscription.
    fn decrement_publishers(&self, token: PublisherToken);
}

/// A subscription that maps each value before passing it on.
pub struct MapSubscription<I, F, O> {
    pub inner: I,
    pub map: F,
    pub _phantom: std::marker::PhantomData<O>,
}

impl<O, I, F> Subscription for MapSubscription<I, F, O> where I: Subscription, F: Fn(O) -> I::Item {
    type Item = O;

    open spec fn accepts(&self, value: O) -> bool {
        &&& self.map.requires((value,))
        &&& forall|out: I::Item|
            #![trigger self.map.ensures((value,), out)]
            self.map.ensures((value,), out) ==> self.inner.accepts(out)
    }

    /// Pushes `map(value)` into the inner subscription.
    fn push(&mut self, value: O) -> (r: bool)
        ensures
            final(self).map == old(self).map,
    {
        let mapped = (self.map)(value);
        let r = self.inner.push(mapped);
        proof {
            assert forall|v: O| #[trigger] self.accepts(v) == old(self).accepts(v) by {
                assert forall|out: I::Item| #[trigger]
                    self.inner.accepts(out) == old(self).inner.accepts(out) by {}
            }
        }
        r
    }

    fn set_name_mut(&mut self, name: String) {
        self.inner.set_name_mut(name);
        proof {
            assert forall|v: O| #[trigger] self.accepts(v) == old(self).accepts(v) by {
                assert forall|out: I::Item| #[trigger]
                    self.inner.accepts(out) == old(self).inner.accepts(out) by {}
            }
        }
    }

    fn increment_publishers(&self, token: PublisherToken) {
        self.inner.increment_publishers(token);
    }

    fn decrement_publishers(&self, token: PublisherToken) {
        self.inner.decrement_publishers(token);
    }
}

impl<I: Clone, F: Clone, O> Clone for MapSubscription<I, F, O> {
    fn clone(&self) -> Self {
        MapSubscription {
            inner: self.inner.clone(),
            map: self.map.clone(),
            _phantom: std::marker::PhantomData,
        }
    }
}

/// A subscription that maps each value and passes on only what comes out
/// as `Some`.
pub struct FilterMap<I, F, O> {
    pub inner: I,
    pub map: F,
    pub _phantom: std::marker::PhantomData<O>,
}

impl<O, I, F> Subscription for FilterMap<I, F, O> where
    I: Subscription,
    F: Fn(O) -> Option<I::Item>,
 {
    type Item = O;

    open spec fn accepts(&self, value: O) -> bool {
        &&& self.map.requires((value,))
        &&& forall|out: Option<I::Item>|
            #![trigger self.map.ensures((value,), out)]
            self.map.ensures((value,), out) && out is Some ==> self.inner.accepts(out->0)
    }

    /// Pushes what `map` makes of `value` into the inner subscription; a
    /// value filtered out counts as published and leaves it untouched.
    fn push(&mut self, value: O) -> (r: bool)
        ensures
            final(self).map == old(self).map,
            exists|out: Option<I::Item>|
                #![trigger old(self).map.ensures((value,), out)]
                old(self).map.ensures((value,), out) && (out is None ==> r && final(self).inner
                    == old(self).inner),
    {
        let out = (self.map)(value);
        let ghost produced = out;
        let r = match out {
            Some(mapped) => self.inner.push(mapped),
            None => true,
        };
        assert(old(self).map.ensures((value,), produced));
        proof {
            assert forall|v: O| #[trigger] self.accepts(v) == old(self).accepts(v) by {
                assert forall|out: I::Item| #[trigger]
                    self.inner.accepts(out) == old(self).inner.accepts(out) by {}
            }
        }
        r
    }

    fn set_name_mut(&mut self, name: String) {
        self.inner.set_name_mut(name);
        proof {
            assert forall|v: O| #[trigger] self.accepts(v) == old(self).accepts(v) by {
                assert forall|out: I::Item| #[trigger]
                    self.inner.accepts(out) == old(self).inner.accepts(out) by {}
            }
        }
    }

    fn increment_publishers(&self, token: PublisherToken) {
        self.inner.increment_publishers(token);
    }

    fn decrement_publishers(&self, token: PublisherToken) {
        self.inner.decrement_publishers(token);
    }
}

impl<I: Clone, F: Clone, O> Clone for FilterMap<I, F, O> {
    fn clone(&self) -> Self {
        FilterMap {
            inner: self.inner.clone(),
            map: self.map.clone(),
            _phantom: std::marker::PhantomData,
        }
    }
}

/// State shared by a subscriber and its subscriptions.
#[verifier::reject_recursive_types(T)]
pub struct SubscriberInner<T> {
    queue: ArrayQueue<T>,
    capacity: usize,
    pub_count: AtomicUsize,
    open: AtomicBool,
}

/// The receiving end of a bounded buffer.
#[verifier::reject_recursive_types(T)]
pub struct Subscriber<T> {
    inner: Arc<SubscriberInner<T>>,
}

/// The lag counter after one push: one more when the push displaced the
/// oldest item (saturating), reset otherwise.
pub open spec fn spec_next_lag(lag: usize, displaced: bool) -> usize {
    if !displaced {
        0
    } else if lag == usize::MAX {
        usize::MAX
    } else {
        (lag + 1) as usize
    }
}

/// Computes the lag counter after one push.
pub fn next_lag(lag: usize, displaced: bool) -> (r: usize)
    ensures
        r == spec_next_lag(lag, displaced),
{
    if displaced {
        lag.saturating_add(1)
    } else {
        0
    }
}

impl<T> Subscriber<T> {
    /// Whether this subscriber is well formed: its capacity is positive.
    pub closed spec fn wf(&self) -> bool {
        self.inner.capacity > 0
    }

    /// The capacity that this subscriber was made with.
    pub closed spec fn spec_capacity(&self) -> usize {
        self.inner.capacity
    }

    /// Creates a subscriber that buffers at most `capacity` items.
    pub fn new(capacity: usize) -> (r: Subscriber<T>)
        requires
            capacity > 0,
        ensures
            r.wf(),
            r.spec_capacity() == capacity,
    {
        let inner = SubscriberInner {
            queue: queue_new(capacity),
            capacity,
            pub_count: AtomicUsize::new(0),
            open: AtomicBool::new(true),
        };
        Subscriber { inner: Arc::new(inner) }
    }

    /// The capacity that this subscriber was made with.
    pub fn capacity(&self) -> (r: usize)
        ensures
            r == self.spec_capacity(),
    {
        self.inner.capacity
    }

    /// Hands out a subscription that feeds this subscriber.
    pub fn create_subscription(&self) -> (r: DirectSubscription<T>)
        ensures
            r.spec_lag() == 0,
            r.spec_name() is None,
    {
        DirectSubscription { sub: self.inner.clone(), name: None, lag: 0 }
    }

    /// Takes the oldest buffered item, if any, without waiting.
    pub fn try_recv(&self) -> Option<T> {
        queue_pop(&self.inner.queue)
    }

    /// The number of publishers that currently feed this subscriber.
    pub fn get_pub_count(&self) -> usize {
        self.inner.pub_count.load(Ordering::Acquire)
    }
}

impl<T> Drop for Subscriber<T> {
    fn drop(&mut self)
        opens_invariants none
        no_unwind
    {
        mark_closed(&self.inner.open);
    }
}

/// A handle that publishes into one subscriber's buffer.
#[verifier::reject_recursive_types(T)]
pub struct DirectSubscription<T> {
    sub: Arc<SubscriberInner<T>>,
    name: Option<String>,
    lag: usize,
}

impl<T> DirectSubscription<T> {
    /// How many pushes in a row displaced an unread item.
    pub closed spec fn spec_lag(&self) -> usize {
        self.lag
    }

    /// The name given to this subscription, if any.
    pub closed spec fn spec_name(&self) -> Option<String> {
        self.name
    }

    /// How many pushes in a row displaced an unread item.
    pub fn lag(&self) -> (r: usize)
        ensures
            r == self.spec_lag(),
    {
        self.lag
    }

    /// The name given to this subscription, if any.
    pub fn name(&self) -> (r: Option<&str>)
        ensures
            r is Some <==> self.spec_name() is Some,
            r matches Some(s) ==> s@ == self.spec_name()->0@,
    {
        match &self.name {
            Some(s) => Some(s.as_str()),
            None => None,
        }
    }
}

impl<T> Clone for DirectSubscription<T> {
    fn clone(&self) -> (r: Self)
        ensures
            r.spec_lag() == self.spec_lag(),
    {
        DirectSubscription { sub: self.sub.clone(), name: self.name.clone(), lag: self.lag }
    }
}

impl<T> Subscription for DirectSubscription<T> {
    type Item = T;

    open spec fn accepts(&self, value: T) -> bool {
        true
    }

    /// Pushes into the subscriber's buffer, displacing its oldest item when
    /// full; `false` once the subscriber is gone.
    fn push(&mut self, value: T) -> (r: bool)
        ensures
            r ==> (final(self).spec_lag() == spec_next_lag(old(self).spec_lag(), true)
                || final(self).spec_lag() == spec_next_lag(old(self).spec_lag(), false)),
            !r ==> final(self).spec_lag() == old(self).spec_lag(),
            final(self).spec_name() == old(self).spec_name(),
    {
        if self.sub.open.load(Ordering::Acquire) {
            let displaced = queue_force_push(&self.sub.queue, value).is_some();
            self.lag = next_lag(self.lag, displaced);
            true
        } else {
            false
        }
    }

    fn set_name_mut(&mut self, name: String)
        ensures
            final(self).spec_name() == Some(name),
            final(self).spec_lag() == old(self).spec_lag(),
    {
        self.name = Some(name);
    }

    fn increment_publishers(&self, token: PublisherToken) {
        self.sub.pub_count.fetch_add(1, Ordering::AcqRel);
    }

    fn decrement_publishers(&self, token: PublisherToken) {
        self.sub.pub_count.fetch_sub(1, Ordering::AcqRel);
    }
}

} // verus!
