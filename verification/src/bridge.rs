//! Callback-to-future bridge.
//!
//! Every call into the platform is answered later, through a callback that
//! runs once. A slot pairs that callback with the one caller that waits for
//! it: the callback fires a value into the slot, the caller polls the slot
//! until the value is there, and takes it. A slot is used for one call and
//! never again.
//!
//! Nothing here waits or wakes anybody. A slot is a state and four events:
//! this is the protocol that a one-shot channel keeps between a callback
//! and a caller, with the threads and the waiting left out. The channel
//! that does the waiting is `tokio`'s; what awaiting it gives enters here
//! through [`Delivery::from_received`].

use vstd::prelude::*;

verus! {

/// What a drained slot yields to its caller.
#[derive(Debug, PartialEq, Eq)]
pub enum Delivery<T> {
    /// The callback fired with this value.
    Value(T),
    /// The sending side went away without firing: the call was abandoned.
    Closed,
}

/// The error with which a `tokio` one-shot receiver stops waiting: its
/// sender was dropped without having sent. It has no content.
#[verifier::external_type_specification]
#[verifier::external_body]
pub struct ExRecvError(tokio::sync::oneshot::error::RecvError);

impl<T> Delivery<T> {
    /// What awaiting the receiver of a `tokio` one-shot channel gave, as a
    /// delivery: the value where one was sent, `Closed` where the sender
    /// went away without sending.
    pub fn from_received(received: Result<T, tokio::sync::oneshot::error::RecvError>) -> (delivery:
        Delivery<T>)
        ensures
            delivery == match received {
                Ok(value) => Delivery::Value(value),
                Err(_) => Delivery::Closed,
            },
    {
        match received {
            Ok(value) => Delivery::Value(value),
            Err(_) => Delivery::Closed,
        }
    }
}

/// The answer to one poll of a slot.
#[derive(Debug, PartialEq, Eq)]
pub enum Poll<T> {
    /// Nothing has arrived and the sender is still there: the caller is to
    /// suspend and poll again later.
    Pending,
    /// The slot is settled.
    Ready(Delivery<T>),
}

/// The state of one slot.
#[derive(Debug, PartialEq, Eq)]
pub enum Slot<T> {
    /// Fresh: the sender has not fired, the receiver has not polled a result.
    Open,
    /// The sender fired; the value waits for the receiver.
    Filled(T),
    /// The sender went away without firing; the receiver has yet to learn it.
    Closed,
    /// The receiver took the outcome. Nothing will come out again.
    Drained,
    /// The receiver gave up while the sender was still armed.
    Orphaned,
    /// The receiver gave up and the sender is spent, in either order.
    Dead,
}

impl<T> Slot<T> {
    /// The sender can still fire or go away.
    pub open spec fn sender_armed(self) -> bool {
        self is Open || self is Orphaned
    }

    /// The receiver has neither taken an outcome nor given up.
    pub open spec fn receiver_waiting(self) -> bool {
        self is Open || self is Filled || self is Closed
    }

    /// The state after the sender fires `value`.
    pub open spec fn after_fire(self, value: T) -> Slot<T> {
        match self {
            Slot::Open => Slot::Filled(value),
            Slot::Orphaned => Slot::Dead,
            other => other,
        }
    }

    /// What the sender learns from firing `value`: `Ok` where a receiver may
    /// still take it, else the value back.
    pub open spec fn fire_result(self, value: T) -> Result<(), T> {
        if self is Open {
            Ok(())
        } else {
            Err(value)
        }
    }

    /// The state after the sender goes away without firing.
    pub open spec fn after_close(self) -> Slot<T> {
        match self {
            Slot::Open => Slot::Closed,
            Slot::Orphaned => Slot::Dead,
            other => other,
        }
    }

    /// The state after one poll by the receiver.
    pub open spec fn after_poll(self) -> Slot<T> {
        match self {
            Slot::Filled(_) => Slot::Drained,
            Slot::Closed => Slot::Drained,
            other => other,
        }
    }

    /// What one poll answers.
    pub open spec fn poll_result(self) -> Poll<T> {
        match self {
            Slot::Open => Poll::Pending,
            Slot::Filled(value) => Poll::Ready(Delivery::Value(value)),
            _ => Poll::Ready(Delivery::Closed),
        }
    }

    /// The state after the receiver gives up.
    pub open spec fn after_abandon(self) -> Slot<T> {
        match self {
            Slot::Open => Slot::Orphaned,
            Slot::Filled(_) => Slot::Dead,
            Slot::Closed => Slot::Dead,
            other => other,
        }
    }

    /// A fresh slot for one call.
    pub fn new() -> (slot: Self)
        ensures
            slot == Slot::<T>::Open,
    {
        Slot::Open
    }

    /// Whether the sender can still fire or go away.
    pub fn is_sender_armed(&self) -> (armed: bool)
        ensures
            armed == self.sender_armed(),
    {
        match self {
            Slot::Open => true,
            Slot::Orphaned => true,
            _ => false,
        }
    }

    /// Whether the receiver has neither taken an outcome nor given up.
    pub fn is_receiver_waiting(&self) -> (waiting: bool)
        ensures
            waiting == self.receiver_waiting(),
    {
        match self {
            Slot::Open => true,
            Slot::Filled(_) => true,
            Slot::Closed => true,
            _ => false,
        }
    }

    /// The callback fires.
    ///
    /// In a fresh slot the value is stored for the receiver. Where the
    /// receiver has given up, or the sender has been used before, the value
    /// is handed back and will never be received.
    pub fn fire(&mut self, value: T) -> (sent: Result<(), T>)
        ensures
            *final(self) == old(self).after_fire(value),
            sent == old(self).fire_result(value),
    {
        let mut prior = Slot::Dead;
        core::mem::swap(self, &mut prior);
        match prior {
            Slot::Open => {
                *self = Slot::Filled(value);
                Ok(())
            },
            Slot::Orphaned => Err(value),
            other => {
                *self = other;
                Err(value)
            },
        }
    }

    /// The sender goes away without having fired.
    pub fn close(&mut self)
        ensures
            *final(self) == old(self).after_close(),
    {
        let mut prior = Slot::Dead;
        core::mem::swap(self, &mut prior);
        match prior {
            Slot::Open => {
                *self = Slot::Closed;
            },
            Slot::Orphaned => {},
            other => {
                *self = other;
            },
        }
    }

    /// The receiver asks for the outcome.
    ///
    /// A fresh slot answers `Pending` and stays as it is. A filled slot gives
    /// its value up, once. Every other state answers `Closed` at once: a slot
    /// that was closed, and also one that has been drained or given up
    /// before, from which nothing can come any more.
    pub fn poll(&mut self) -> (answer: Poll<T>)
        ensures
            *final(self) == old(self).after_poll(),
            answer == old(self).poll_result(),
    {
        let mut prior = Slot::Drained;
        core::mem::swap(self, &mut prior);
        match prior {
            Slot::Filled(value) => Poll::Ready(Delivery::Value(value)),
            Slot::Closed => Poll::Ready(Delivery::Closed),
            Slot::Open => {
                *self = Slot::Open;
                Poll::Pending
            },
            other => {
                *self = other;
                Poll::Ready(Delivery::Closed)
            },
        }
    }

    /// The receiver gives up. A value that waits, or comes later, is
    /// discarded.
    pub fn abandon(&mut self)
        ensures
            *final(self) == old(self).after_abandon(),
    {
        let mut prior = Slot::Dead;
        core::mem::swap(self, &mut prior);
        match prior {
            Slot::Open => {
                *self = Slot::Orphaned;
            },
            Slot::Filled(_) => {},
            Slot::Closed => {},
            other => {
                *self = other;
            },
        }
    }
}

/// The slots of all calls in flight, each known by the number it got when it
/// was created. Numbers are given out in order and never again.
pub struct Bridge<T> {
    slots: Vec<Slot<T>>,
}

/// One thing that happens to one slot of a bridge.
pub enum Event<T> {
    /// The callback of the slot fires with a value.
    Fire(int, T),
    /// The sender of the slot goes away without firing.
    Close(int),
    /// The receiver of the slot asks for the outcome.
    Poll(int),
    /// The receiver of the slot gives up.
    Abandon(int),
}

impl<T> Event<T> {
    /// The number of the slot that the event is addressed to.
    pub open spec fn slot(self) -> int {
        match self {
            Event::Fire(id, _) => id,
            Event::Close(id) => id,
            Event::Poll(id) => id,
            Event::Abandon(id) => id,
        }
    }
}

/// The state of slot `id`. A number that was never given out behaves like a
/// slot from which nothing can come.
pub open spec fn state_of<T>(slots: Seq<Slot<T>>, id: int) -> Slot<T> {
    if 0 <= id < slots.len() {
        slots[id]
    } else {
        Slot::Dead
    }
}

/// The slots after one event: the slot that the event names moves, every
/// other slot stays.
pub open spec fn step<T>(slots: Seq<Slot<T>>, event: Event<T>) -> Seq<Slot<T>> {
    let id = event.slot();
    if 0 <= id < slots.len() {
        slots.update(
            id,
            match event {
                Event::Fire(_, value) => slots[id].after_fire(value),
                Event::Close(_) => slots[id].after_close(),
                Event::Poll(_) => slots[id].after_poll(),
                Event::Abandon(_) => slots[id].after_abandon(),
            },
        )
    } else {
        slots
    }
}

/// The slots after a sequence of events, taken in order.
pub open spec fn run<T>(slots: Seq<Slot<T>>, events: Seq<Event<T>>) -> Seq<Slot<T>>
    decreases events.len(),
{
    if events.len() == 0 {
        slots
    } else {
        run(step(slots, events[0]), events.drop_first())
    }
}

/// The values that the polls of slot `id` hand to its caller in the course of
/// `events`, in order.
pub open spec fn received<T>(slots: Seq<Slot<T>>, events: Seq<Event<T>>, id: int) -> Seq<T>
    decreases events.len(),
{
    if events.len() == 0 {
        Seq::empty()
    } else {
        let rest = received(step(slots, events[0]), events.drop_first(), id);
        match (events[0], state_of(slots, id)) {
            (Event::Poll(polled), Slot::Filled(value)) if polled == id => seq![value] + rest,
            _ => rest,
        }
    }
}

/// Some event of `events` fires `value` into slot `id`.
pub open spec fn fired<T>(events: Seq<Event<T>>, id: int, value: T) -> bool {
    exists|k: int| 0 <= k < events.len() && #[trigger] events[k] == Event::Fire(id, value)
}

/// No event of `events` is addressed to slot `id`.
pub open spec fn untouched<T>(events: Seq<Event<T>>, id: int) -> bool {
    forall|k: int| 0 <= k < events.len() ==> (#[trigger] events[k]).slot() != id
}

impl<T> View for Bridge<T> {
    type V = Seq<Slot<T>>;

    closed spec fn view(&self) -> Seq<Slot<T>> {
        self.slots@
    }
}

impl<T> Bridge<T> {
    /// A bridge with no call in flight.
    pub fn new() -> (bridge: Self)
        ensures
            bridge@ == Seq::<Slot<T>>::empty(),
    {
        Bridge { slots: Vec::new() }
    }

    /// How many slots were created so far.
    pub fn len(&self) -> (n: usize)
        ensures
            n == self@.len(),
    {
        self.slots.len()
    }

    /// Creates the slot for one new call and gives its number. The slots of
    /// the other calls are not touched.
    pub fn create(&mut self) -> (id: usize)
        ensures
            final(self)@ == old(self)@.push(Slot::Open),
            id == old(self)@.len(),
    {
        let id = self.slots.len();
        self.slots.push(Slot::Open);
        id
    }

    /// The callback of slot `id` fires with `value`.
    pub fn fire(&mut self, id: usize, value: T) -> (sent: Result<(), T>)
        ensures
            final(self)@ == step(old(self)@, Event::Fire(id as int, value)),
            sent == state_of(old(self)@, id as int).fire_result(value),
    {
        if id < self.slots.len() {
            let sent = self.slots[id].fire(value);
            proof {
                assert(self.slots@ =~= step(old(self)@, Event::Fire(id as int, value)));
            }
            sent
        } else {
            Err(value)
        }
    }

    /// The sender of slot `id` goes away without having fired.
    pub fn close(&mut self, id: usize)
        ensures
            final(self)@ == step(old(self)@, Event::Close(id as int)),
    {
        if id < self.slots.len() {
            self.slots[id].close();
            proof {
                assert(self.slots@ =~= step(old(self)@, Event::<T>::Close(id as int)));
            }
        }
    }

    /// The receiver of slot `id` asks for the outcome.
    pub fn poll(&mut self, id: usize) -> (answer: Poll<T>)
        ensures
            final(self)@ == step(old(self)@, Event::Poll(id as int)),
            answer == state_of(old(self)@, id as int).poll_result(),
    {
        if id < self.slots.len() {
            let answer = self.slots[id].poll();
            proof {
                assert(self.slots@ =~= step(old(self)@, Event::<T>::Poll(id as int)));
            }
            answer
        } else {
            Poll::Ready(Delivery::Closed)
        }
    }

    /// The receiver of slot `id` gives up.
    pub fn abandon(&mut self, id: usize)
        ensures
            final(self)@ == step(old(self)@, Event::Abandon(id as int)),
    {
        if id < self.slots.len() {
            self.slots[id].abandon();
            proof {
                assert(self.slots@ =~= step(old(self)@, Event::<T>::Abandon(id as int)));
            }
        }
    }
}

/// One event moves at most the slot it names.
pub proof fn lemma_step_frame<T>(slots: Seq<Slot<T>>, event: Event<T>, id: int)
    ensures
        step(slots, event).len() == slots.len(),
        event.slot() != id ==> state_of(step(slots, event), id) == state_of(slots, id),
{
}

/// Once the receiver of a slot is no longer waiting, it never waits again,
/// and once a slot is closed it never holds a value.
proof fn lemma_settled_receives_nothing<T>(slots: Seq<Slot<T>>, events: Seq<Event<T>>, id: int)
    requires
        !(state_of(slots, id) is Open),
        !(state_of(slots, id) is Filled),
    ensures
        received(slots, events, id) == Seq::<T>::empty(),
    decreases events.len(),
{
    if events.len() > 0 {
        lemma_step_frame(slots, events[0], id);
        lemma_settled_receives_nothing(step(slots, events[0]), events.drop_first(), id);
    }
}

/// A value that waits in a slot is the only one its caller can ever get.
proof fn lemma_filled_receives_its_value<T>(
    slots: Seq<Slot<T>>,
    events: Seq<Event<T>>,
    id: int,
    value: T,
)
    requires
        state_of(slots, id) == Slot::Filled(value),
    ensures
        received(slots, events, id) == Seq::<T>::empty() || received(slots, events, id)
            == seq![value],
    decreases events.len(),
{
    if events.len() > 0 {
        let next = step(slots, events[0]);
        let rest = events.drop_first();
        lemma_step_frame(slots, events[0], id);
        if state_of(next, id) == Slot::Filled(value) {
            lemma_filled_receives_its_value(next, rest, id, value);
        } else {
            lemma_settled_receives_nothing(next, rest, id);
            assert(seq![value] + Seq::<T>::empty() =~= seq![value]);
        }
    }
}

/// A witness for `fired` among the later events is one among all events.
proof fn lemma_fired_later<T>(events: Seq<Event<T>>, id: int, value: T)
    requires
        events.len() > 0,
        fired(events.drop_first(), id, value),
    ensures
        fired(events, id, value),
{
    let rest = events.drop_first();
    let k = choose|k: int| 0 <= k < rest.len() && #[trigger] rest[k] == Event::Fire(id, value);
    assert(events[k + 1] == rest[k]);
}

/// **At most once.** Whatever happens to a bridge, in whatever order, the
/// caller of a slot is handed at most one value.
pub proof fn law_at_most_once<T>(slots: Seq<Slot<T>>, events: Seq<Event<T>>, id: int)
    ensures
        received(slots, events, id).len() <= 1,
    decreases events.len(),
{
    match state_of(slots, id) {
        Slot::Filled(value) => {
            lemma_filled_receives_its_value(slots, events, id, value);
        },
        Slot::Open => {
            if events.len() > 0 {
                lemma_step_frame(slots, events[0], id);
                law_at_most_once(step(slots, events[0]), events.drop_first(), id);
            }
        },
        _ => {
            lemma_settled_receives_nothing(slots, events, id);
        },
    }
}

/// **No cross-delivery.** A value that the caller of a fresh slot is handed
/// was fired into that very slot. What is fired into other slots, before or
/// after, never reaches it.
pub proof fn law_no_cross_delivery<T>(slots: Seq<Slot<T>>, events: Seq<Event<T>>, id: int)
    requires
        state_of(slots, id) is Open,
    ensures
        forall|k: int|
            0 <= k < received(slots, events, id).len() ==> fired(
                events,
                id,
                #[trigger] received(slots, events, id)[k],
            ),
    decreases events.len(),
{
    if events.len() > 0 {
        let next = step(slots, events[0]);
        let rest = events.drop_first();
        lemma_step_frame(slots, events[0], id);
        assert(received(slots, events, id) == received(next, rest, id));
        match state_of(next, id) {
            Slot::Open => {
                law_no_cross_delivery(next, rest, id);
                assert forall|k: int| 0 <= k < received(slots, events, id).len() implies fired(
                    events,
                    id,
                    #[trigger] received(slots, events, id)[k],
                ) by {
                    lemma_fired_later(events, id, received(next, rest, id)[k]);
                }
            },
            Slot::Filled(value) => {
                assert(events[0] == Event::Fire(id, value));
                lemma_filled_receives_its_value(next, rest, id, value);
            },
            _ => {
                lemma_settled_receives_nothing(next, rest, id);
            },
        }
    }
}

/// **Non-interference.** Events addressed to other slots leave a slot as it
/// is and hand its caller nothing.
pub proof fn law_other_slots_do_not_interfere<T>(
    slots: Seq<Slot<T>>,
    events: Seq<Event<T>>,
    id: int,
)
    requires
        untouched(events, id),
    ensures
        state_of(run(slots, events), id) == state_of(slots, id),
        received(slots, events, id) == Seq::<T>::empty(),
    decreases events.len(),
{
    if events.len() > 0 {
        let rest = events.drop_first();
        assert(events[0].slot() != id);
        lemma_step_frame(slots, events[0], id);
        assert forall|k: int| 0 <= k < rest.len() implies (#[trigger] rest[k]).slot() != id by {
            assert(rest[k] == events[k + 1]);
        }
        law_other_slots_do_not_interfere(step(slots, events[0]), rest, id);
    }
}

/// Running two sequences of events one after the other is running their
/// concatenation, and the caller of a slot is handed what the first hands it
/// and then what the second hands it.
pub proof fn lemma_run_concat<T>(
    slots: Seq<Slot<T>>,
    first: Seq<Event<T>>,
    second: Seq<Event<T>>,
    id: int,
)
    ensures
        run(slots, first + second) == run(run(slots, first), second),
        received(slots, first + second, id) == received(slots, first, id) + received(
            run(slots, first),
            second,
            id,
        ),
    decreases first.len(),
{
    if first.len() == 0 {
        assert(first + second =~= second);
        assert(Seq::<T>::empty() + received(slots, second, id) =~= received(slots, second, id));
    } else {
        let all = first + second;
        assert(all[0] == first[0]);
        assert(all.drop_first() =~= first.drop_first() + second);
        lemma_run_concat(step(slots, first[0]), first.drop_first(), second, id);
        let tail = received(step(slots, first[0]), first.drop_first(), id);
        let after = received(run(slots, first), second, id);
        match (first[0], state_of(slots, id)) {
            (Event::Poll(polled), Slot::Filled(value)) if polled == id => {
                assert(seq![value] + (tail + after) =~= (seq![value] + tail) + after);
            },
            _ => {},
        }
    }
}

/// Running one event is taking one step.
pub proof fn lemma_run_single<T>(slots: Seq<Slot<T>>, event: Event<T>, id: int)
    ensures
        run(slots, seq![event]) == step(slots, event),
        received(slots, seq![event], id) == match (event, state_of(slots, id)) {
            (Event::Poll(polled), Slot::Filled(value)) if polled == id => seq![value],
            _ => Seq::<T>::empty(),
        },
{
    let events = seq![event];
    assert(events.drop_first() =~= Seq::<Event<T>>::empty());
    assert(run(step(slots, event), events.drop_first()) == step(slots, event));
    assert(received(step(slots, event), events.drop_first(), id) == Seq::<T>::empty());
    match (event, state_of(slots, id)) {
        (Event::Poll(polled), Slot::Filled(value)) if polled == id => {
            assert(seq![value] + Seq::<T>::empty() =~= seq![value]);
        },
        _ => {},
    }
}

/// **Exactly once.** Take a fresh slot and any course of events in which its
/// callback fires `value` and its caller polls afterwards, while everything
/// before and between is addressed to other slots. Then the caller is handed
/// `value` and nothing else, whatever comes later.
pub proof fn law_exactly_once<T>(
    slots: Seq<Slot<T>>,
    before: Seq<Event<T>>,
    between: Seq<Event<T>>,
    later: Seq<Event<T>>,
    id: int,
    value: T,
)
    requires
        0 <= id < slots.len(),
        slots[id] is Open,
        untouched(before, id),
        untouched(between, id),
    ensures
        received(
            slots,
            before + seq![Event::Fire(id, value)] + between + seq![Event::Poll(id)] + later,
            id,
        ) == seq![value],
{
    let fire = seq![Event::Fire(id, value)];
    let poll = seq![Event::<T>::Poll(id)];
    let s1 = run(slots, before);
    let s2 = run(s1, fire);
    let s3 = run(s2, between);
    let s4 = run(s3, poll);
    law_other_slots_do_not_interfere(slots, before, id);
    lemma_run_single(s1, Event::Fire(id, value), id);
    assert(state_of(s2, id) == Slot::Filled(value));
    law_other_slots_do_not_interfere(s2, between, id);
    lemma_run_single(s3, Event::<T>::Poll(id), id);
    assert(state_of(s4, id) is Drained);
    lemma_settled_receives_nothing(s4, later, id);
    lemma_run_concat(slots, before, fire, id);
    lemma_run_concat(slots, before + fire, between, id);
    lemma_run_concat(slots, before + fire + between, poll, id);
    lemma_run_concat(slots, before + fire + between + poll, later, id);
    assert(received(slots, before + fire + between + poll + later, id) =~= seq![value]);
}

/// **An abandoned call is an error, not a hang.** Where the sender of a fresh
/// slot goes away without firing, the next poll does not answer `Pending`: it
/// reports that the channel was closed.
pub proof fn law_closed_slot_reports_at_once<T>(slot: Slot<T>)
    requires
        slot is Open,
    ensures
        slot.after_close().poll_result() == Poll::<T>::Ready(Delivery::Closed),
        slot.after_close().after_poll() is Drained,
{
}

/// Only a fresh slot makes its caller wait: every poll of any other state is
/// answered at once, and a drained slot never yields a value again.
pub proof fn law_only_a_fresh_slot_suspends<T>(slot: Slot<T>)
    ensures
        slot.poll_result() is Pending <==> slot is Open,
        !(slot.after_poll().poll_result() matches Poll::Ready(Delivery::Value(_))),
{
}

} // verus!
