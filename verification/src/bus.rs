use vstd::prelude::*;
use crossbeam_channel::{Receiver, RecvError, Sender};

verus! {

/// The bus's source channel is closed: every sender is gone and no event is
/// left in it.
#[derive(PartialEq, Eq, Structural, Debug)]
pub struct Disconnected;

/// `after` is `before` with `msg` at its end.
pub open spec fn reached<T>(before: Seq<T>, msg: T, after: Seq<T>) -> bool {
    after == before.push(msg)
}

/// The subscribers' records of offers after `msg` was offered to every one
/// of them.
pub open spec fn offered_to_all<T>(before: Seq<Seq<T>>, msg: T) -> Seq<Seq<T>> {
    Seq::new(before.len(), |i: int| before[i].push(msg))
}

/// Whether subscriber `who` accepted, going by the answers `accepted`, one
/// per subscriber in the order of subscription. A subscriber without an
/// answer did not accept.
pub open spec fn answered(accepted: Seq<bool>, who: int) -> bool {
    0 <= who < accepted.len() && accepted[who]
}

/// The subscribers' queues after `msg` was offered and answered with
/// `accepted`: the queue of each subscriber that accepted gains `msg` at its
/// end, every other queue stays as it was.
pub open spec fn settled<T>(before: Seq<Seq<T>>, msg: T, accepted: Seq<bool>) -> Seq<Seq<T>> {
    Seq::new(
        before.len(),
        |i: int|
            if answered(accepted, i) {
                before[i].push(msg)
            } else {
                before[i]
            },
    )
}

/// How many of the first `upto` subscribers accepted.
pub open spec fn accepted_among(accepted: Seq<bool>, upto: int) -> nat
    decreases upto,
{
    if upto <= 0 {
        0
    } else {
        accepted_among(accepted, upto - 1) + if answered(accepted, upto - 1) {
            1nat
        } else {
            0nat
        }
    }
}

/// What one publication of `msg` does to the subscribers' queues: each
/// queue either gains `msg` at its end or, where its subscriber is gone,
/// stays as it was. No queue is added or removed.
pub open spec fn published<T>(before: Seq<Seq<T>>, msg: T, after: Seq<Seq<T>>) -> bool {
    &&& after.len() == before.len()
    &&& forall|i: int|
        0 <= i < before.len() ==> (#[trigger] after[i]) == before[i] || reached(
            before[i],
            msg,
            after[i],
        )
}

/// How many of the first `upto` queues grew between `before` and `after`.
pub open spec fn grown<T>(before: Seq<Seq<T>>, after: Seq<Seq<T>>, upto: int) -> nat
    decreases upto,
{
    if upto <= 0 {
        0
    } else {
        grown(before, after, upto - 1) + if after[upto - 1].len() > before[upto - 1].len() {
            1nat
        } else {
            0nat
        }
    }
}

/// The events that a queue took after it held `from` events.
pub open spec fn taken_since<T>(queue: Seq<T>, from: nat) -> Seq<T> {
    queue.skip(from as int)
}

/// The step from `queues[k]` to `queues[k + 1]` is the publication of
/// `events[k]`.
pub open spec fn published_at<T>(queues: Seq<Seq<Seq<T>>>, events: Seq<T>, k: int) -> bool {
    published(queues[k], events[k], queues[k + 1])
}

/// `queues[0]` is a bus's queues before `events` are published one after the
/// other, and `queues[k + 1]` what the publication of `events[k]` leaves.
pub open spec fn published_all<T>(queues: Seq<Seq<Seq<T>>>, events: Seq<T>) -> bool {
    &&& queues.len() == events.len() + 1
    &&& forall|k: int| 0 <= k < events.len() ==> #[trigger] published_at(queues, events, k)
}

/// Subscriber `who` took the event of the step from `queues[k]` to
/// `queues[k + 1]`.
pub open spec fn took<T>(queues: Seq<Seq<Seq<T>>>, who: int, k: int) -> bool {
    queues[k + 1][who].len() > queues[k][who].len()
}

/// Subscriber `who` took every event of the publications `queues`.
pub open spec fn stayed<T>(queues: Seq<Seq<Seq<T>>>, who: int) -> bool {
    forall|k: int| 0 <= k < queues.len() - 1 ==> #[trigger] took(queues, who, k)
}

/// One subscriber: the sending half of its channel, the record of the events
/// that were offered to that channel and the record of those it took.
#[verifier::reject_recursive_types(T)]
struct Subscriber<T> {
    sender: Sender<T>,
    offered: Ghost<Seq<T>>,
    taken: Ghost<Seq<T>>,
}

/// A fan-out of events: what arrives on one source channel is copied to every
/// subscriber's own unbounded channel. Subscribing and publishing both take
/// the bus exclusively, so a subscription is complete before the next
/// publication begins or starts after it has ended. Because every
/// subscriber's channel is unbounded, no subscriber can hold up the
/// publisher or another subscriber, however slowly it drains.
#[verifier::reject_recursive_types(T)]
pub struct Broadcast<T> where T: Clone + Send + Sync + 'static {
    receiver: Receiver<T>,
    subscribers: Vec<Subscriber<T>>,
}

impl<T> Broadcast<T> where T: Clone + Send + Sync + 'static {
    /// For each subscriber, in the order of subscription, the events of
    /// which its channel has taken a copy since it subscribed, oldest first.
    /// This is the bus's own record of the sends that succeeded; that the
    /// receiving half yields a copy of each, once and in this order, is the
    /// channel's guarantee and is not proved here.
    pub closed spec fn delivered(self) -> Seq<Seq<T>> {
        Seq::new(self.subscribers@.len(), |i: int| self.subscribers@[i].taken@)
    }

    /// For each subscriber, in the order of subscription, the events of
    /// which a copy was handed to its channel since it subscribed, whether
    /// the channel took it or not, oldest first.
    pub closed spec fn offered(self) -> Seq<Seq<T>> {
        Seq::new(self.subscribers@.len(), |i: int| self.subscribers@[i].offered@)
    }

    /// A bus without subscribers that is fed by `receiver`.
    pub fn new(receiver: Receiver<T>) -> (bus: Self)
        ensures
            bus.delivered() == Seq::<Seq<T>>::empty(),
            bus.offered() == Seq::<Seq<T>>::empty(),
    {
        let bus = Self { receiver, subscribers: Vec::new() };
        assert(bus.delivered() =~= Seq::<Seq<T>>::empty());
        assert(bus.offered() =~= Seq::<Seq<T>>::empty());
        bus
    }

    /// Adds a subscriber and returns the receiving half of its channel. The
    /// new subscriber starts with nothing: it gets no event published before.
    /// The subscribers that were there keep their queues.
    pub fn subscribe(&mut self) -> (receiver: Receiver<T>)
        ensures
            final(self).delivered() == old(self).delivered().push(Seq::empty()),
            final(self).offered() == old(self).offered().push(Seq::empty()),
    {
        let (sender, receiver) = crossbeam_channel::unbounded::<T>();
        self.subscribers.push(
            Subscriber { sender, offered: Ghost(Seq::empty()), taken: Ghost(Seq::empty()) },
        );
        assert(self.delivered() =~= old(self).delivered().push(Seq::empty()));
        assert(self.offered() =~= old(self).offered().push(Seq::empty()));
        receiver
    }

    /// The number of subscribers.
    pub fn subscribers(&self) -> (count: usize)
        ensures
            count == self.delivered().len(),
            count == self.offered().len(),
    {
        self.subscribers.len()
    }

    /// Hands a copy of `msg` to the channel of every subscriber, in the
    /// order of subscription and whatever the earlier channels answered, and
    /// returns the answers: for each subscriber, whether its channel took
    /// the copy. The answers are the channels' affair; the queues are not
    /// touched before the answers are settled.
    pub fn offer(&mut self, msg: &T) -> (accepted: Vec<bool>)
        ensures
            accepted@.len() == old(self).offered().len(),
            final(self).offered() == offered_to_all(old(self).offered(), *msg),
            final(self).delivered() == old(self).delivered(),
    {
        let ghost before = self.offered();
        let ghost queues = self.delivered();
        let count = self.subscribers.len();
        let mut accepted: Vec<bool> = Vec::new();
        let mut i: usize = 0;
        while i < count
            invariant
                i <= count,
                count == self.subscribers@.len(),
                before.len() == count,
                accepted@.len() == i,
                self.delivered() == queues,
                forall|j: int| 0 <= j < i ==> (#[trigger] self.offered()[j]) == before[j].push(*msg),
                forall|j: int| i <= j < count ==> (#[trigger] self.offered()[j]) == before[j],
            decreases count - i,
        {
            let ghost earlier = self.offered();
            let ghost subscribers = self.subscribers@;
            assert(earlier[i as int] == before[i as int]);
            assert(earlier[i as int] == subscribers[i as int].offered@);
            let copy = msg.clone();
            let answer = match self.subscribers[i].sender.send(copy) {
                Ok(_) => true,
                Err(_) => false,
            };
            let ghost record = self.subscribers@[i as int].offered@.push(*msg);
            self.subscribers[i].offered = Ghost(record);
            assert(self.subscribers@.len() == count);
            assert(self.subscribers@[i as int].offered@ == record);
            assert(forall|j: int|
                0 <= j < count ==> (#[trigger] self.subscribers@[j]).taken == subscribers[j].taken);
            assert(forall|j: int|
                0 <= j < count && j != i ==> self.subscribers@[j] == subscribers[j]);
            assert(forall|j: int|
                0 <= j < count && j != i ==> (#[trigger] self.offered()[j]) == earlier[j]);
            assert(self.delivered() =~= queues);
            accepted.push(answer);
            i = i + 1;
        }
        assert(self.offered() =~= offered_to_all(before, *msg));
        accepted
    }

    /// Settles an offer of `msg` with the channels' answers, one per
    /// subscriber in the order of subscription: the queue of every subscriber
    /// whose channel took the copy gains `msg` at its end, every other queue
    /// stays as it was, and so does a subscriber for which `accepted` holds no
    /// answer. Returns how many subscribers took the event.
    pub fn settle(&mut self, msg: &T, accepted: &Vec<bool>) -> (taken: usize)
        ensures
            final(self).delivered() == settled(old(self).delivered(), *msg, accepted@),
            final(self).offered() == old(self).offered(),
            taken == accepted_among(accepted@, old(self).delivered().len() as int),
            taken <= old(self).delivered().len(),
    {
        let ghost before = self.delivered();
        let ghost offers = self.offered();
        let count = self.subscribers.len();
        let mut taken: usize = 0;
        let mut i: usize = 0;
        while i < count
            invariant
                i <= count,
                count == self.subscribers@.len(),
                before.len() == count,
                self.offered() == offers,
                taken == accepted_among(accepted@, i as int),
                taken <= i,
                forall|j: int|
                    0 <= j < i ==> (#[trigger] self.delivered()[j]) == settled(
                        before,
                        *msg,
                        accepted@,
                    )[j],
                forall|j: int| i <= j < count ==> (#[trigger] self.delivered()[j]) == before[j],
            decreases count - i,
        {
            let ghost earlier = self.delivered();
            let ghost subscribers = self.subscribers@;
            assert(earlier[i as int] == before[i as int]);
            assert(earlier[i as int] == subscribers[i as int].taken@);
            if i < accepted.len() && accepted[i] {
                let ghost record = self.subscribers@[i as int].taken@.push(*msg);
                self.subscribers[i].taken = Ghost(record);
                assert(self.subscribers@.len() == count);
                assert(self.subscribers@[i as int].taken@ == record);
                assert(forall|j: int|
                    0 <= j < count ==> (#[trigger] self.subscribers@[j]).offered
                        == subscribers[j].offered);
                assert(forall|j: int|
                    0 <= j < count && j != i ==> self.subscribers@[j] == subscribers[j]);
                taken = taken + 1;
            }
            assert(forall|j: int|
                0 <= j < count && j != i ==> (#[trigger] self.delivered()[j]) == earlier[j]);
            assert(self.offered() =~= offers);
            i = i + 1;
        }
        assert(self.delivered() =~= settled(before, *msg, accepted@));
        taken
    }

    /// Publishes `msg`: a copy is offered to every subscriber, in the order
    /// of subscription, and every subscriber whose channel is still connected
    /// takes it. A subscriber that is gone is passed over, and the
    /// subscribers after it are offered the event all the same. Returns how
    /// many subscribers took the event.
    pub fn send(&mut self, msg: T) -> (taken: usize)
        ensures
            final(self).offered() == offered_to_all(old(self).offered(), msg),
            exists|accepted: Seq<bool>|
                {
                    &&& accepted.len() == old(self).delivered().len()
                    &&& final(self).delivered() == #[trigger] settled(
                        old(self).delivered(),
                        msg,
                        accepted,
                    )
                    &&& taken == accepted_among(accepted, old(self).delivered().len() as int)
                },
            published(old(self).delivered(), msg, final(self).delivered()),
            taken == grown(
                old(self).delivered(),
                final(self).delivered(),
                old(self).delivered().len() as int,
            ),
            taken <= old(self).delivered().len(),
    {
        let accepted = self.offer(&msg);
        let taken = self.settle(&msg, &accepted);
        proof {
            lemma_settled_is_publication(old(self).delivered(), msg, accepted@);
            assert(self.delivered() == settled(old(self).delivered(), msg, accepted@));
        }
        taken
    }

    /// Takes what the source channel yielded. An event is published as
    /// [`Broadcast::send`] publishes it, and the result is how many
    /// subscribers took it. A closed source is reported as `Disconnected`
    /// and leaves every subscriber as it is.
    pub fn forward(&mut self, received: Result<T, RecvError>) -> (outcome: Result<
        usize,
        Disconnected,
    >)
        ensures
            match received {
                Ok(msg) => {
                    &&& final(self).offered() == offered_to_all(old(self).offered(), msg)
                    &&& published(old(self).delivered(), msg, final(self).delivered())
                    &&& outcome matches Ok(taken)
                    &&& taken == grown(
                        old(self).delivered(),
                        final(self).delivered(),
                        old(self).delivered().len() as int,
                    )
                    &&& taken <= old(self).delivered().len()
                },
                Err(_) => {
                    &&& outcome == Err::<usize, Disconnected>(Disconnected)
                    &&& final(self).delivered() == old(self).delivered()
                    &&& final(self).offered() == old(self).offered()
                },
            },
    {
        match received {
            Ok(msg) => Ok(self.send(msg)),
            Err(_) => Err(Disconnected),
        }
    }

    /// Waits for the next event on the source channel and publishes it.
    /// Returns how many subscribers took it, or `Disconnected` once the source
    /// channel is closed; then the subscribers stay as they are. Whether an
    /// event arrives is the source's affair; what follows from either answer
    /// is what [`Broadcast::forward`] states.
    pub fn recv(&mut self) -> (outcome: Result<usize, Disconnected>)
        ensures
            match outcome {
                Ok(taken) => exists|msg: T|
                    {
                        &&& final(self).offered() == #[trigger] offered_to_all(
                            old(self).offered(),
                            msg,
                        )
                        &&& published(old(self).delivered(), msg, final(self).delivered())
                        &&& taken == grown(
                            old(self).delivered(),
                            final(self).delivered(),
                            old(self).delivered().len() as int,
                        )
                    },
                Err(_) => final(self).delivered() == old(self).delivered() && final(self).offered()
                    == old(self).offered(),
            },
    {
        let received = self.receiver.recv();
        let ghost event = received;
        let outcome = self.forward(received);
        proof {
            if let Ok(msg) = event {
                assert(self.offered() == offered_to_all(old(self).offered(), msg));
            }
        }
        outcome
    }
}

/// Settling an offer is a publication, and as many queues grow as there are
/// subscribers that accepted.
pub proof fn lemma_settled_is_publication<T>(before: Seq<Seq<T>>, msg: T, accepted: Seq<bool>)
    ensures
        published(before, msg, settled(before, msg, accepted)),
        forall|upto: int|
            0 <= upto <= before.len() ==> #[trigger] grown(
                before,
                settled(before, msg, accepted),
                upto,
            ) == accepted_among(accepted, upto),
{
    let after = settled(before, msg, accepted);
    assert forall|upto: int| 0 <= upto <= before.len() implies #[trigger] grown(
        before,
        after,
        upto,
    ) == accepted_among(accepted, upto) by {
        lemma_grown_counts_accepted(before, msg, accepted, upto);
    }
}

/// Among the first `upto` subscribers, as many queues grow as subscribers
/// accepted.
pub proof fn lemma_grown_counts_accepted<T>(
    before: Seq<Seq<T>>,
    msg: T,
    accepted: Seq<bool>,
    upto: int,
)
    requires
        0 <= upto <= before.len(),
    ensures
        grown(before, settled(before, msg, accepted), upto) == accepted_among(accepted, upto),
    decreases upto,
{
    if upto > 0 {
        lemma_grown_counts_accepted(before, msg, accepted, upto - 1);
    }
}

/// Where a subscriber is gone, the subscribers after it get the event all
/// the same: whatever the others answered, the queue of every subscriber
/// whose channel accepted gains the event, once.
pub proof fn lemma_refusal_stops_nobody<T>(
    before: Seq<Seq<T>>,
    msg: T,
    accepted: Seq<bool>,
    who: int,
)
    requires
        0 <= who < before.len(),
        answered(accepted, who),
    ensures
        settled(before, msg, accepted)[who] == before[who].push(msg),
        offered_to_all(before, msg)[who] == before[who].push(msg),
{
}

/// Publications neither add nor remove a subscriber.
pub proof fn lemma_subscribers_stay<T>(queues: Seq<Seq<Seq<T>>>, events: Seq<T>, k: int)
    requires
        published_all(queues, events),
        0 <= k <= events.len(),
    ensures
        queues[k].len() == queues[0].len(),
    decreases k,
{
    if k > 0 {
        lemma_subscribers_stay(queues, events, k - 1);
        assert(published_at(queues, events, k - 1));
    }
}

/// A series of publications without its last one is a series of
/// publications, and a subscriber that stayed through the whole stayed
/// through the part.
pub proof fn lemma_published_all_prefix<T>(queues: Seq<Seq<Seq<T>>>, events: Seq<T>, who: int)
    requires
        published_all(queues, events),
        events.len() > 0,
        stayed(queues, who),
    ensures
        published_all(queues.drop_last(), events.drop_last()),
        stayed(queues.drop_last(), who),
{
    let earlier_queues = queues.drop_last();
    let earlier_events = events.drop_last();
    assert forall|k: int| 0 <= k < earlier_events.len() implies #[trigger] published_at(
        earlier_queues,
        earlier_events,
        k,
    ) by {
        assert(published_at(queues, events, k));
    }
    assert forall|k: int| 0 <= k < earlier_queues.len() - 1 implies #[trigger] took(
        earlier_queues,
        who,
        k,
    ) by {
        assert(took(queues, who, k));
    }
}

/// A subscriber that takes every one of a series of publications keeps what
/// it had and gains the published events, each once, in the order of
/// publication.
pub proof fn lemma_subscriber_receives_in_order<T>(
    queues: Seq<Seq<Seq<T>>>,
    events: Seq<T>,
    who: int,
)
    requires
        published_all(queues, events),
        0 <= who < queues[0].len(),
        stayed(queues, who),
    ensures
        queues.last()[who] == queues[0][who] + events,
        taken_since(queues.last()[who], queues[0][who].len()) == events,
    decreases events.len(),
{
    let start = queues[0][who];
    if events.len() == 0 {
        assert(queues.last()[who] =~= start + events);
    } else {
        let n = events.len() as int;
        let earlier_queues = queues.drop_last();
        let earlier_events = events.drop_last();
        lemma_published_all_prefix(queues, events, who);
        lemma_subscriber_receives_in_order(earlier_queues, earlier_events, who);
        lemma_subscribers_stay(queues, events, n - 1);
        assert(earlier_queues.last() == queues[n - 1]);
        assert(earlier_queues[0] == queues[0]);
        assert(queues.last() == queues[n]);
        assert(published_at(queues, events, n - 1));
        assert(took(queues, who, n - 1));
        assert(reached(queues[n - 1][who], events[n - 1], queues[n][who]));
        assert(queues[n][who] =~= start + events);
    }
    assert(taken_since(start + events, start.len()) =~= events);
}

/// A subscriber that joins after any number of publications starts with
/// an empty queue, so it gets none of the events published before; if it
/// then takes every later publication, its queue is the later events, each
/// once, in the order of publication, and nothing else.
pub proof fn lemma_late_subscriber_misses_nothing_later<T>(
    before: Seq<Seq<T>>,
    queues: Seq<Seq<Seq<T>>>,
    events: Seq<T>,
)
    requires
        published_all(queues, events),
        queues[0] == before.push(Seq::<T>::empty()),
        stayed(queues, before.len() as int),
    ensures
        queues[0][before.len() as int].len() == 0,
        queues.last()[before.len() as int] == events,
{
    let who = before.len() as int;
    lemma_subscriber_receives_in_order(queues, events, who);
    assert(Seq::<T>::empty() + events =~= events);
}

/// Two subscribers that both take every one of a series of publications
/// each gain every published event, once, in the order of publication.
pub proof fn lemma_two_subscribers_agree<T>(
    queues: Seq<Seq<Seq<T>>>,
    events: Seq<T>,
    first: int,
    second: int,
)
    requires
        published_all(queues, events),
        0 <= first < queues[0].len(),
        0 <= second < queues[0].len(),
        stayed(queues, first),
        stayed(queues, second),
    ensures
        queues.last()[first] == queues[0][first] + events,
        queues.last()[second] == queues[0][second] + events,
        taken_since(queues.last()[first], queues[0][first].len()) == taken_since(
            queues.last()[second],
            queues[0][second].len(),
        ),
{
    lemma_subscriber_receives_in_order(queues, events, first);
    lemma_subscriber_receives_in_order(queues, events, second);
}

} // verus!
