use vstd::prelude::*;

verus! {

/// One subscription as the bus sees it: its id, its topic, and the values
/// published since it subscribed that it has not received yet.
pub type SubscriberState = (u64, Seq<char>, Seq<u64>);

/// The subscriptions after `value` is published on `topic`: each one on that
/// topic gets the value at the end of its queue, the others are untouched.
pub open spec fn published(subs: Seq<SubscriberState>, topic: Seq<char>, value: u64) -> Seq<
    SubscriberState,
> {
    Seq::new(
        subs.len(),
        |i: int|
            if subs[i].1 == topic {
                (subs[i].0, subs[i].1, subs[i].2.push(value))
            } else {
                subs[i]
            },
    )
}

/// The subscriptions after publishing each of `values` on `topic`, in order.
pub open spec fn published_all(subs: Seq<SubscriberState>, topic: Seq<char>, values: Seq<u64>) -> Seq<
    SubscriberState,
>
    decreases values.len(),
{
    if values.len() == 0 {
        subs
    } else {
        published(published_all(subs, topic, values.drop_last()), topic, values.last())
    }
}

/// The position of the subscription with id `id`, or -1 when there is none.
pub open spec fn subscriber_index(subs: Seq<SubscriberState>, id: u64) -> int {
    if exists|i: int| 0 <= i < subs.len() && subs[i].0 == id {
        choose|i: int| 0 <= i < subs.len() && subs[i].0 == id
    } else {
        -1
    }
}

/// No two subscriptions share an id.
pub open spec fn unique_ids(subs: Seq<SubscriberState>) -> bool {
    forall|i: int, j: int| 0 <= i < subs.len() && 0 <= j < subs.len() && i != j ==> subs[i].0 != subs[j].0
}

/// What receiving for subscription `id` yields, and the subscriptions after:
/// the oldest waiting value leaves its queue. Nothing changes when the id is
/// unknown or its queue is empty.
pub open spec fn received(subs: Seq<SubscriberState>, id: u64) -> (Option<u64>, Seq<SubscriberState>) {
    let i = subscriber_index(subs, id);
    if i < 0 || subs[i].2.len() == 0 {
        (None, subs)
    } else {
        (Some(subs[i].2[0]), subs.update(i, (subs[i].0, subs[i].1, subs[i].2.drop_first())))
    }
}

/// The subscriptions after `id` unsubscribes: its subscription and queue are gone.
pub open spec fn unsubscribed(subs: Seq<SubscriberState>, id: u64) -> Seq<SubscriberState> {
    let i = subscriber_index(subs, id);
    if i < 0 {
        subs
    } else {
        subs.remove(i)
    }
}

/// Publishing a sequence of values on a topic hands each subscriber of that
/// topic exactly those values, in publish order, after what it already had
/// waiting; subscribers of other topics see none of them.
pub proof fn lemma_publish_order(subs: Seq<SubscriberState>, topic: Seq<char>, values: Seq<u64>)
    ensures
        published_all(subs, topic, values).len() == subs.len(),
        forall|i: int|
            0 <= i < subs.len() ==> #[trigger] published_all(subs, topic, values)[i] == if subs[i].1
                == topic {
                (subs[i].0, subs[i].1, subs[i].2 + values)
            } else {
                subs[i]
            },
    decreases values.len(),
{
    if values.len() > 0 {
        let prefix = values.drop_last();
        lemma_publish_order(subs, topic, prefix);
        assert forall|i: int| 0 <= i < subs.len() implies #[trigger] published_all(
            subs,
            topic,
            values,
        )[i] == if subs[i].1 == topic {
            (subs[i].0, subs[i].1, subs[i].2 + values)
        } else {
            subs[i]
        } by {
            if subs[i].1 == topic {
                assert(subs[i].2 + prefix.push(values.last()) =~= (subs[i].2 + prefix).push(
                    values.last(),
                ));
                assert(prefix.push(values.last()) =~= values);
            }
        }
    }
}

/// A subscriber that joins after some values were published never receives
/// them: its queue holds exactly the values published after it subscribed.
pub proof fn lemma_no_replay(
    subs: Seq<SubscriberState>,
    topic: Seq<char>,
    id: u64,
    before: Seq<u64>,
    after: Seq<u64>,
)
    ensures
        ({
            let joined = published_all(subs, topic, before).push((id, topic, Seq::empty()));
            published_all(joined, topic, after)[joined.len() - 1] == (id, topic, after)
        }),
{
    let earlier = published_all(subs, topic, before);
    lemma_publish_order(subs, topic, before);
    let joined = earlier.push((id, topic, Seq::empty()));
    lemma_publish_order(joined, topic, after);
    assert(Seq::<u64>::empty() + after =~= after);
    assert(published_all(joined, topic, after)[joined.len() - 1] == (
        id,
        topic,
        Seq::<u64>::empty() + after,
    ));
}

/// A subscription held by the bus: its queue is owned here, and drained by
/// the subscriber through `NotificationBus::receive`.
pub struct Subscription {
    id: u64,
    topic: String,
    pending: Vec<u64>,
}

impl View for Subscription {
    type V = SubscriberState;

    closed spec fn view(&self) -> SubscriberState {
        (self.id, self.topic@, self.pending@)
    }
}

/// The views of a sequence of subscriptions, one for one.
pub closed spec fn views_of(subs: Seq<Subscription>) -> Seq<SubscriberState> {
    subs.map_values(|s: Subscription| s@)
}

/// A topic-based publish/subscribe bus. Publishing never waits on a
/// subscriber: each subscription buffers what it has not received yet.
pub struct NotificationBus {
    subscribers: Vec<Subscription>,
    next_id: u64,
}

impl View for NotificationBus {
    type V = Seq<SubscriberState>;

    closed spec fn view(&self) -> Seq<SubscriberState> {
        views_of(self.subscribers@)
    }
}

impl NotificationBus {
    /// Ids are handed out in increasing order, each below `next_id`.
    pub closed spec fn wf(&self) -> bool {
        &&& forall|i: int|
            0 <= i < self.subscribers@.len() ==> #[trigger] self.subscribers@[i].id < self.next_id
        &&& forall|i: int, j: int|
            0 <= i < j < self.subscribers@.len() ==> self.subscribers@[i].id
                < self.subscribers@[j].id
    }

    /// Every id has been handed out: no further subscription can be made.
    pub closed spec fn exhausted(&self) -> bool {
        self.next_id == u64::MAX
    }

    proof fn lemma_wf_unique(&self)
        requires
            self.wf(),
        ensures
            unique_ids(self@),
    {
        assert forall|i: int, j: int|
            0 <= i < self@.len() && 0 <= j < self@.len() && i != j implies self@[i].0
            != self@[j].0 by {
            if i < j {
                assert(self.subscribers@[i].id < self.subscribers@[j].id);
            } else {
                assert(self.subscribers@[j].id < self.subscribers@[i].id);
            }
        }
    }

    /// A bus with no subscriptions.
    pub fn new() -> (r: NotificationBus)
        ensures
            r.wf(),
            !r.exhausted(),
            r@ == Seq::<SubscriberState>::empty(),
    {
        let r = NotificationBus { subscribers: Vec::new(), next_id: 0 };
        assert(r@ =~= Seq::<SubscriberState>::empty());
        r
    }

    fn find(&self, id: u64) -> (r: Option<usize>)
        requires
            self.wf(),
        ensures
            match r {
                Some(i) => i < self@.len() && subscriber_index(self@, id) == i,
                None => subscriber_index(self@, id) == -1,
            },
    {
        proof {
            self.lemma_wf_unique();
        }
        let mut i: usize = 0;
        while i < self.subscribers.len()
            invariant
                self.wf(),
                unique_ids(self@),
                i <= self.subscribers@.len(),
                forall|j: int| 0 <= j < i ==> self@[j].0 != id,
            decreases self.subscribers@.len() - i,
        {
            if self.subscribers[i].id == id {
                assert(self@[i as int].0 == id);
                return Some(i);
            }
            i += 1;
        }
        None
    }

    /// Opens a subscription on `topic` and returns its id. It receives only
    /// what is published from now on. `None` comes back, and nothing
    /// changes, once every id has been handed out.
    pub fn subscribe(&mut self, topic: &str) -> (r: Option<u64>)
        requires
            old(self).wf(),
        ensures
            final(self).wf(),
            r is None <==> old(self).exhausted(),
            match r {
                Some(id) => {
                    &&& final(self)@ == old(self)@.push((id, topic@, Seq::<u64>::empty()))
                    &&& forall|i: int| 0 <= i < old(self)@.len() ==> old(self)@[i].0 != id
                },
                None => final(self)@ == old(self)@,
            },
    {
        if self.next_id == u64::MAX {
            return None;
        }
        let id = self.next_id;
        self.subscribers.push(Subscription { id, topic: topic.to_owned(), pending: Vec::new() });
        self.next_id = id + 1;
        assert(self@ =~= old(self)@.push((id, topic@, Seq::<u64>::empty())));
        Some(id)
    }

    /// Ends subscription `id` and drops what it had not received. Returns
    /// whether such a subscription existed.
    pub fn unsubscribe(&mut self, id: u64) -> (r: bool)
        requires
            old(self).wf(),
        ensures
            final(self).wf(),
            r == (subscriber_index(old(self)@, id) >= 0),
            final(self)@ == unsubscribed(old(self)@, id),
            !old(self).exhausted() ==> !final(self).exhausted(),
    {
        match self.find(id) {
            Some(i) => {
                self.subscribers.remove(i);
                assert(self@ =~= old(self)@.remove(i as int));
                true
            },
            None => false,
        }
    }

    /// Appends `value` to the queue of every subscription on `topic`. With no
    /// such subscription this does nothing.
    pub fn publish(&mut self, topic: &str, value: u64)
        requires
            old(self).wf(),
        ensures
            final(self).wf(),
            final(self)@ == published(old(self)@, topic@, value),
            final(self).exhausted() == old(self).exhausted(),
    {
        let t = topic.to_owned();
        let mut i: usize = 0;
        while i < self.subscribers.len()
            invariant
                self.wf(),
                self.next_id == old(self).next_id,
                i <= self.subscribers@.len(),
                self.subscribers@.len() == old(self).subscribers@.len(),
                t@ == topic@,
                forall|j: int|
                    0 <= j < self.subscribers@.len() ==> #[trigger] self.subscribers@[j].id
                        == old(self).subscribers@[j].id,
                forall|j: int| 0 <= j < i ==> #[trigger] self@[j] == published(old(self)@, topic@, value)[j],
                forall|j: int| i <= j < self.subscribers@.len() ==> #[trigger] self@[j] == old(self)@[j],
            decreases self.subscribers@.len() - i,
        {
            let ghost before = self@;
            let ghost before_subs = self.subscribers@;
            assert(before[i as int] == old(self)@[i as int]);
            if self.subscribers[i].topic == t {
                self.subscribers[i].pending.push(value);
                assert(self.subscribers@[i as int].pending@ == before_subs[i as int].pending@.push(
                    value,
                ));
            }
            assert forall|j: int| 0 <= j < self.subscribers@.len() && j != i implies self@[j]
                == before[j] by {
                assert(self.subscribers@[j] == before_subs[j]);
            }
            assert(self@[i as int] == published(old(self)@, topic@, value)[i as int]);
            assert forall|j: int| 0 <= j <= i implies #[trigger] self@[j] == published(
                old(self)@,
                topic@,
                value,
            )[j] by {
                if j < i {
                    assert(self@[j] == before[j]);
                }
            }
            assert forall|j: int| i < j < self.subscribers@.len() implies #[trigger] self@[j]
                == old(self)@[j] by {
                assert(self@[j] == before[j]);
            }
            i += 1;
        }
        assert(self@ =~= published(old(self)@, topic@, value));
    }

    /// Takes the oldest value waiting for subscription `id`, in publish
    /// order. `None` when the id is unknown or nothing is waiting.
    pub fn receive(&mut self, id: u64) -> (r: Option<u64>)
        requires
            old(self).wf(),
        ensures
            final(self).wf(),
            (r, final(self)@) == received(old(self)@, id),
            final(self).exhausted() == old(self).exhausted(),
    {
        match self.find(id) {
            Some(i) => {
                if self.subscribers[i].pending.len() == 0 {
                    return None;
                }
                let v = self.subscribers[i].pending.remove(0);
                assert(self@ =~= old(self)@.update(
                    i as int,
                    (old(self)@[i as int].0, old(self)@[i as int].1, old(self)@[i as int].2.drop_first()),
                ));
                Some(v)
            },
            None => None,
        }
    }
}

} // verus!
