//! The broadcast channel: a fixed number of subscriber slots, each with a
//! bounded queue, and a publish that never waits. A full queue gives up its
//! oldest message for the new one.

use vstd::prelude::*;

verus! {

/// Names one subscription of a channel: the index of its slot.
#[derive(Debug, Clone, Copy, PartialEq, Eq, Structural)]
pub struct SubscriptionHandle {
    pub slot: usize,
}

/// Why a subscription was refused.
#[derive(Debug, Clone, Copy, PartialEq, Eq, Structural)]
pub enum SubscribeError {
    /// Every slot is taken.
    CapacityExceeded,
}

/// The last `cap` messages of a queue, in their order.
pub open spec fn keep_last<T>(queue: Seq<T>, cap: nat) -> Seq<T> {
    if queue.len() <= cap {
        queue
    } else {
        queue.subrange(queue.len() - cap, queue.len() as int)
    }
}

/// One slot after a publish: a free slot stays free, a taken one appends the
/// message and keeps the last `cap`.
pub open spec fn slot_after_publish<T>(slot: Option<Seq<T>>, cap: nat, msg: T) -> Option<Seq<T>> {
    match slot {
        None => None,
        Some(queue) => Some(keep_last(queue.push(msg), cap)),
    }
}

/// A channel as a value: per slot the unread messages of its subscriber,
/// oldest first, or `None` where the slot is free; and the bound on each queue.
pub struct ChannelView<T> {
    pub slots: Seq<Option<Seq<T>>>,
    pub queue_cap: nat,
}

impl<T> ChannelView<T> {
    /// Whether the handle names a taken slot.
    pub open spec fn is_subscribed(self, handle: SubscriptionHandle) -> bool {
        handle.slot < self.slots.len() && self.slots[handle.slot as int] is Some
    }

    /// The unread messages of a subscription, oldest first; empty for a handle
    /// that names no subscription.
    pub open spec fn pending(self, handle: SubscriptionHandle) -> Seq<T> {
        if self.is_subscribed(handle) {
            self.slots[handle.slot as int]->0
        } else {
            Seq::empty()
        }
    }

    /// Whether no slot is free.
    pub open spec fn is_full(self) -> bool {
        forall|i: int| 0 <= i < self.slots.len() ==> (#[trigger] self.slots[i]) is Some
    }

    /// The lowest free slot, where there is one.
    pub open spec fn first_free(self) -> int {
        choose|i: int|
            0 <= i < self.slots.len() && (#[trigger] self.slots[i]) is None && forall|j: int|
                0 <= j < i ==> (#[trigger] self.slots[j]) is Some
    }

    /// The channel after it handed out the slot `slot` with an empty queue.
    pub open spec fn with_subscription(self, slot: int) -> ChannelView<T> {
        ChannelView { slots: self.slots.update(slot, Some(Seq::empty())), queue_cap: self.queue_cap }
    }

    /// What a request for a subscription is answered with: the lowest free
    /// slot, or that the capacity is exceeded where none is free.
    pub open spec fn subscribe_result(self) -> Result<SubscriptionHandle, SubscribeError> {
        if self.is_full() {
            Err(SubscribeError::CapacityExceeded)
        } else {
            Ok(SubscriptionHandle { slot: self.first_free() as usize })
        }
    }

    /// The channel after a request for a subscription: the lowest free slot
    /// taken, or no change where none is free.
    pub open spec fn after_subscribe(self) -> ChannelView<T> {
        if self.is_full() {
            self
        } else {
            self.with_subscription(self.first_free())
        }
    }

    /// The channel after the subscription `handle` ended; unchanged for a
    /// handle beyond the slots.
    pub open spec fn without_subscription(self, handle: SubscriptionHandle) -> ChannelView<T> {
        if handle.slot < self.slots.len() {
            ChannelView { slots: self.slots.update(handle.slot as int, None), queue_cap: self.queue_cap }
        } else {
            self
        }
    }

    /// The channel after `msg` went to every subscriber.
    pub open spec fn after_publish(self, msg: T) -> ChannelView<T> {
        ChannelView {
            slots: Seq::new(
                self.slots.len(),
                |i: int| slot_after_publish(self.slots[i], self.queue_cap, msg),
            ),
            queue_cap: self.queue_cap,
        }
    }

    /// The channel after the subscription `handle` took its oldest message;
    /// unchanged where it has none.
    pub open spec fn after_take(self, handle: SubscriptionHandle) -> ChannelView<T> {
        if self.pending(handle).len() > 0 {
            ChannelView {
                slots: self.slots.update(
                    handle.slot as int,
                    Some(self.pending(handle).drop_first()),
                ),
                queue_cap: self.queue_cap,
            }
        } else {
            self
        }
    }

    /// No queue is longer than the bound.
    pub open spec fn bounded(self) -> bool {
        forall|i: int|
            0 <= i < self.slots.len() ==> ((#[trigger] self.slots[i]) matches Some(queue)
                ==> queue.len() <= self.queue_cap)
    }
}

/// A queue after it was given `msgs` one by one, each time keeping the last
/// `cap`, with no read in between.
pub open spec fn after_publishes<T>(queue: Seq<T>, cap: nat, msgs: Seq<T>) -> Seq<T>
    decreases msgs.len(),
{
    if msgs.len() == 0 {
        queue
    } else {
        keep_last(after_publishes(queue, cap, msgs.drop_last()).push(msgs.last()), cap)
    }
}

/// A channel with `n` slots of which the first `k` are taken, with nothing to
/// read, and the others free.
pub open spec fn filled_to<T>(n: nat, cap: nat, k: nat) -> ChannelView<T> {
    ChannelView {
        slots: Seq::new(n, |i: int| if i < k { Some(Seq::<T>::empty()) } else { None }),
        queue_cap: cap,
    }
}

/// Where a slot is free, the lowest free slot is in range, free, and has only
/// taken slots below it.
pub proof fn lemma_first_free<T>(channel: ChannelView<T>)
    requires
        !channel.is_full(),
    ensures
        0 <= channel.first_free() < channel.slots.len(),
        channel.slots[channel.first_free()] is None,
        forall|j: int| 0 <= j < channel.first_free() ==> (#[trigger] channel.slots[j]) is Some,
{
    let free = choose|i: int| 0 <= i < channel.slots.len() && !((#[trigger] channel.slots[i]) is Some);
    lemma_lowest_free(channel, free);
}

proof fn lemma_lowest_free<T>(channel: ChannelView<T>, free: int)
    requires
        0 <= free < channel.slots.len(),
        channel.slots[free] is None,
    ensures
        exists|i: int|
            0 <= i < channel.slots.len() && (#[trigger] channel.slots[i]) is None && forall|j: int|
                0 <= j < i ==> (#[trigger] channel.slots[j]) is Some,
    decreases free,
{
    if exists|j: int| 0 <= j < free && (#[trigger] channel.slots[j]) is None {
        let lower = choose|j: int| 0 <= j < free && (#[trigger] channel.slots[j]) is None;
        lemma_lowest_free(channel, lower);
    } else {
        assert(channel.slots[free] is None && forall|j: int|
            0 <= j < free ==> (#[trigger] channel.slots[j]) is Some);
    }
}

/// A channel admits exactly as many subscriptions as it has slots: with `k`
/// of `n` slots taken, a request takes slot `k` while `k < n`, and with all
/// `n` taken it is refused and the channel stays as it is.
pub proof fn lemma_capacity_is_exact<T>(n: nat, cap: nat, k: nat)
    requires
        k <= n <= usize::MAX,
    ensures
        k < n ==> filled_to::<T>(n, cap, k).subscribe_result() == Ok::<
            SubscriptionHandle,
            SubscribeError,
        >(SubscriptionHandle { slot: k as usize }),
        k < n ==> filled_to::<T>(n, cap, k).after_subscribe() == filled_to::<T>(n, cap, k + 1),
        k == n ==> filled_to::<T>(n, cap, k).subscribe_result() == Err::<
            SubscriptionHandle,
            SubscribeError,
        >(SubscribeError::CapacityExceeded),
        k == n ==> filled_to::<T>(n, cap, k).after_subscribe() == filled_to::<T>(n, cap, k),
{
    let channel = filled_to::<T>(n, cap, k);
    if k < n {
        assert(channel.slots[k as int] is None);
        assert(!channel.is_full());
        lemma_first_free(channel);
        let f = channel.first_free();
        assert(f == k) by {
            if f < k {
                assert(channel.slots[f] is Some);
            } else if f > k {
                assert(channel.slots[k as int] is Some);
            }
        }
        assert(channel.after_subscribe().slots =~= filled_to::<T>(n, cap, k + 1).slots);
    } else {
        assert(channel.is_full());
    }
}

/// A refused request leaves nothing behind: the publisher goes on as if it
/// had not been made, and every subscriber gets the next message.
pub proof fn lemma_refusal_leaves_publisher_alone<T>(channel: ChannelView<T>, msg: T)
    requires
        channel.is_full(),
    ensures
        channel.subscribe_result() == Err::<SubscriptionHandle, SubscribeError>(
            SubscribeError::CapacityExceeded,
        ),
        channel.after_subscribe().after_publish(msg) == channel.after_publish(msg),
{
}

/// What a publish does to one subscription: the message joins its queue, of
/// which the last `queue_cap` stay. Who is subscribed does not change.
pub proof fn lemma_publish_reaches_subscriber<T>(
    channel: ChannelView<T>,
    handle: SubscriptionHandle,
    msg: T,
)
    ensures
        channel.after_publish(msg).is_subscribed(handle) == channel.is_subscribed(handle),
        channel.is_subscribed(handle) ==> channel.after_publish(msg).pending(handle) == keep_last(
            channel.pending(handle).push(msg),
            channel.queue_cap,
        ),
        channel.after_publish(msg).slots.len() == channel.slots.len(),
        channel.after_publish(msg).queue_cap == channel.queue_cap,
{
}

/// Publishes reach a subscription whatever the others do: a second
/// subscription that reads, or ends, changes nothing of what the first holds.
pub proof fn lemma_subscriptions_are_independent<T>(
    channel: ChannelView<T>,
    handle: SubscriptionHandle,
    other: SubscriptionHandle,
)
    requires
        handle.slot != other.slot,
    ensures
        channel.after_take(other).pending(handle) == channel.pending(handle),
        channel.without_subscription(other).pending(handle) == channel.pending(handle),
{
}

/// Messages given one by one to a queue that is not read leave the same as
/// all of them given at once: the last `cap` of the old queue followed by the
/// new messages, in the order in which they came.
pub proof fn lemma_unread_queue_keeps_newest<T>(queue: Seq<T>, cap: nat, msgs: Seq<T>)
    ensures
        after_publishes(queue, cap, msgs) == if msgs.len() == 0 {
            queue
        } else {
            keep_last(queue + msgs, cap)
        },
    decreases msgs.len(),
{
    if msgs.len() > 0 {
        let earlier = msgs.drop_last();
        lemma_unread_queue_keeps_newest(queue, cap, earlier);
        let so_far = after_publishes(queue, cap, earlier);
        assert(queue + msgs =~= (queue + earlier).push(msgs.last()));
        if earlier.len() == 0 {
            assert(queue + earlier =~= queue);
        } else {
            assert(keep_last(so_far.push(msgs.last()), cap) =~= keep_last(queue + msgs, cap));
        }
    }
}

/// With room for one message, a subscription that was just made and is not
/// read during two publishes holds the second message only: the newer one
/// has taken the place of the older.
pub proof fn lemma_two_publishes_keep_the_newer<T>(
    channel: ChannelView<T>,
    handle: SubscriptionHandle,
    first: T,
    second: T,
)
    requires
        channel.queue_cap == 1,
        channel.is_subscribed(handle),
        channel.pending(handle).len() == 0,
    ensures
        channel.after_publish(first).after_publish(second).pending(handle) == seq![second],
{
    lemma_publish_reaches_subscriber(channel, handle, first);
    lemma_publish_reaches_subscriber(channel.after_publish(first), handle, second);
    assert(channel.after_publish(first).after_publish(second).pending(handle) =~= seq![second]);
}

/// With room for `queue_cap` messages, a subscription that was just made and
/// is not read during two publishes holds the last `queue_cap` of the two:
/// both where there is room for two, never the older without the newer.
pub proof fn lemma_two_publishes_keep_the_last<T>(
    channel: ChannelView<T>,
    handle: SubscriptionHandle,
    first: T,
    second: T,
)
    requires
        channel.is_subscribed(handle),
        channel.pending(handle).len() == 0,
    ensures
        channel.after_publish(first).after_publish(second).pending(handle) == keep_last(
            seq![first, second],
            channel.queue_cap,
        ),
{
    lemma_publish_reaches_subscriber(channel, handle, first);
    lemma_publish_reaches_subscriber(channel.after_publish(first), handle, second);
    assert(channel.after_publish(first).after_publish(second).pending(handle) =~= keep_last(
        seq![first, second],
        channel.queue_cap,
    ));
}

/// Fan-out of messages to a fixed number of subscribers.
pub struct BroadcastChannel<T> {
    slots: Vec<Option<Vec<T>>>,
    queue_cap: usize,
}

impl<T> View for BroadcastChannel<T> {
    type V = ChannelView<T>;

    closed spec fn view(&self) -> ChannelView<T> {
        ChannelView {
            slots: Seq::new(
                self.slots@.len(),
                |i: int|
                    match self.slots@[i] {
                        Some(queue) => Some(queue@),
                        None => None,
                    },
            ),
            queue_cap: self.queue_cap as nat,
        }
    }
}

impl<T: Copy> BroadcastChannel<T> {
    /// What holds of every channel: no queue is over the bound.
    pub closed spec fn wf(&self) -> bool {
        forall|i: int|
            0 <= i < self.slots@.len() ==> ((#[trigger] self.slots@[i]) matches Some(queue)
                ==> queue@.len() <= self.queue_cap)
    }

    /// In a valid channel no queue is longer than the bound.
    pub proof fn lemma_wf_bounded(&self)
        requires
            self.wf(),
        ensures
            self@.bounded(),
    {
    }

    /// A channel with `max_subscribers` free slots, each to hold up to
    /// `queue_cap` messages.
    pub fn new(queue_cap: usize, max_subscribers: usize) -> (channel: BroadcastChannel<T>)
        ensures
            channel.wf(),
            channel@ == filled_to::<T>(max_subscribers as nat, queue_cap as nat, 0),
    {
        let mut slots: Vec<Option<Vec<T>>> = Vec::new();
        let mut i: usize = 0;
        while i < max_subscribers
            invariant
                i <= max_subscribers,
                slots@.len() == i,
                forall|k: int| 0 <= k < i ==> slots@[k] is None,
            decreases max_subscribers - i,
        {
            slots.push(None);
            i = i + 1;
        }
        let channel = BroadcastChannel { slots, queue_cap };
        proof {
            assert(channel@.slots =~= filled_to::<T>(
                max_subscribers as nat,
                queue_cap as nat,
                0,
            ).slots);
        }
        channel
    }

    /// The number of slots.
    pub fn max_subscribers(&self) -> (n: usize)
        ensures
            n == self@.slots.len(),
    {
        self.slots.len()
    }

    /// The bound on each subscriber's queue.
    pub fn queue_capacity(&self) -> (cap: usize)
        ensures
            cap == self@.queue_cap,
    {
        self.queue_cap
    }

    /// Whether the handle names a subscription of this channel.
    pub fn is_subscribed(&self, handle: SubscriptionHandle) -> (yes: bool)
        ensures
            yes == self@.is_subscribed(handle),
    {
        handle.slot < self.slots.len() && self.slots[handle.slot].is_some()
    }

    /// How many messages wait for the subscription.
    pub fn pending_len(&self, handle: SubscriptionHandle) -> (n: usize)
        ensures
            n == self@.pending(handle).len(),
    {
        if handle.slot < self.slots.len() {
            match &self.slots[handle.slot] {
                Some(queue) => queue.len(),
                None => 0,
            }
        } else {
            0
        }
    }

    /// Takes the lowest free slot and starts it with an empty queue. Where
    /// every slot is taken the channel stays as it is and the caller learns
    /// that its capacity is exceeded.
    pub fn subscribe(&mut self) -> (res: Result<SubscriptionHandle, SubscribeError>)
        requires
            old(self).wf(),
        ensures
            final(self).wf(),
            res == old(self)@.subscribe_result(),
            final(self)@ == old(self)@.after_subscribe(),
    {
        let n: usize = self.slots.len();
        let mut i: usize = 0;
        while i < n
            invariant
                i <= n,
                n == self.slots@.len(),
                *self == *old(self),
                self.wf(),
                forall|k: int| 0 <= k < i ==> (#[trigger] self.slots@[k]) is Some,
            decreases n - i,
        {
            if self.slots[i].is_none() {
                proof {
                    let v = old(self)@;
                    assert(v.slots[i as int] is None);
                    assert(forall|j: int| 0 <= j < i ==> (#[trigger] v.slots[j]) is Some);
                    let f = v.first_free();
                    assert(0 <= f < v.slots.len() && v.slots[f] is None && forall|j: int|
                        0 <= j < f ==> (#[trigger] v.slots[j]) is Some);
                    assert(f == i) by {
                        if f < i {
                            assert(v.slots[f] is Some);
                        } else if i < f {
                            assert(v.slots[i as int] is Some);
                        }
                    }
                    assert(!v.is_full());
                }
                let ghost before = *self;
                self.slots.set(i, Some(Vec::new()));
                proof {
                    assert(forall|k: int|
                        0 <= k < n && k != i ==> self.slots@[k] == before.slots@[k]);
                    assert(self.slots@[i as int]->0@.len() == 0);
                    assert(final(self)@.slots =~= old(self)@.with_subscription(i as int).slots);
                }
                return Ok(SubscriptionHandle { slot: i });
            }
            i = i + 1;
        }
        proof {
            assert(forall|k: int| 0 <= k < n ==> (#[trigger] old(self)@.slots[k]) is Some);
        }
        Err(SubscribeError::CapacityExceeded)
    }

    /// Ends a subscription: its slot is free again and what it had not read
    /// is gone. A handle beyond the slots changes nothing.
    pub fn unsubscribe(&mut self, handle: SubscriptionHandle)
        requires
            old(self).wf(),
        ensures
            final(self).wf(),
            final(self)@ == old(self)@.without_subscription(handle),
    {
        if handle.slot < self.slots.len() {
            self.slots.set(handle.slot, None);
            proof {
                assert(final(self)@.slots =~= old(self)@.without_subscription(handle).slots);
            }
        }
    }

    /// Hands `msg` to every subscriber, at once and without fail. A queue
    /// that is full loses its oldest message to make room.
    pub fn publish(&mut self, msg: T)
        requires
            old(self).wf(),
        ensures
            final(self).wf(),
            final(self)@ == old(self)@.after_publish(msg),
    {
        let n: usize = self.slots.len();
        let cap: usize = self.queue_cap;
        let mut i: usize = 0;
        while i < n
            invariant
                i <= n,
                n == self.slots@.len(),
                n == old(self).slots@.len(),
                cap == self.queue_cap,
                cap == old(self).queue_cap,
                old(self).wf(),
                self.wf(),
                forall|k: int| i <= k < n ==> self.slots@[k] == old(self).slots@[k],
                forall|k: int|
                    0 <= k < i ==> (#[trigger] self@.slots[k]) == slot_after_publish(
                        old(self)@.slots[k],
                        cap as nat,
                        msg,
                    ),
            decreases n - i,
        {
            let ghost before = *self;
            let ghost old_queue: Option<Seq<T>> = old(self)@.slots[i as int];
            assert(self.slots@[i as int] == old(self).slots@[i as int]);
            match &mut self.slots[i] {
                Some(queue) => {
                    let ghost q0 = queue@;
                    assert(q0.len() <= cap);
                    if cap > 0 {
                        if queue.len() == cap {
                            queue.remove(0);
                        }
                        queue.push(msg);
                    }
                    proof {
                        assert(queue@ =~= keep_last(q0.push(msg), cap as nat));
                    }
                },
                None => {},
            }
            proof {
                assert(forall|k: int| 0 <= k < n && k != i ==> self.slots@[k] == before.slots@[k]);
                assert(self@.slots[i as int] == slot_after_publish(old_queue, cap as nat, msg));
                assert forall|k: int| 0 <= k < i implies (#[trigger] self@.slots[k])
                    == slot_after_publish(old(self)@.slots[k], cap as nat, msg) by {
                    assert(self.slots@[k] == before.slots@[k]);
                    assert(self@.slots[k] == before@.slots[k]);
                }
            }
            i = i + 1;
        }
        proof {
            assert(final(self)@.slots =~= old(self)@.after_publish(msg).slots);
        }
    }

    /// Takes the oldest unread message of a subscription, if it has one. It
    /// never waits: with nothing to read, or for a handle that names no
    /// subscription, it returns `None` and changes nothing.
    pub fn try_next(&mut self, handle: SubscriptionHandle) -> (msg: Option<T>)
        requires
            old(self).wf(),
        ensures
            final(self).wf(),
            final(self)@ == old(self)@.after_take(handle),
            msg == if old(self)@.pending(handle).len() > 0 {
                Some(old(self)@.pending(handle)[0])
            } else {
                None
            },
    {
        if handle.slot >= self.slots.len() {
            return None;
        }
        let ghost before = *self;
        let taken = match &mut self.slots[handle.slot] {
            Some(queue) => {
                if queue.len() > 0 {
                    Some(queue.remove(0))
                } else {
                    None
                }
            },
            None => None,
        };
        proof {
            assert(forall|k: int|
                0 <= k < self.slots@.len() && k != handle.slot ==> self.slots@[k]
                    == before.slots@[k]);
            assert(final(self)@.slots =~= old(self)@.after_take(handle).slots);
        }
        taken
    }
}

} // verus!
