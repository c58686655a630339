//! The batching of the event dispatcher: events are gathered and handed
//! on to the hooks in batches, when a batch is full or when the flush
//! interval ticks.
use vstd::prelude::*;

verus! {

/// What the batching loop receives: an event, or a tick of the flush
/// interval.
pub enum BatchInput<T> {
    Event(T),
    Tick,
}

/// One step of the batching loop: from the events still waiting, the
/// batch size and an input, the batches handed on (none or one) and the
/// events left waiting. An event joins the waiting ones, which are handed
/// on together as soon as there are `size` of them; a tick hands on
/// whatever is waiting, if anything is.
pub open spec fn batch_step<T>(pending: Seq<T>, size: nat, input: BatchInput<T>) -> (Seq<Seq<T>>, Seq<T>) {
    match input {
        BatchInput::Event(e) => {
            let p = pending.push(e);
            if p.len() >= size {
                (seq![p], Seq::empty())
            } else {
                (Seq::empty(), p)
            }
        },
        BatchInput::Tick => {
            if pending.len() > 0 {
                (seq![pending], Seq::empty())
            } else {
                (Seq::empty(), pending)
            }
        },
    }
}

/// The batching loop run over a sequence of inputs: all batches handed
/// on, in order, and the events left waiting.
pub open spec fn batch_run<T>(pending: Seq<T>, size: nat, inputs: Seq<BatchInput<T>>) -> (Seq<Seq<T>>, Seq<T>)
    decreases inputs.len(),
{
    if inputs.len() == 0 {
        (Seq::empty(), pending)
    } else {
        let (out, p) = batch_step(pending, size, inputs[0]);
        let (rest, q) = batch_run(p, size, inputs.drop_first());
        (out + rest, q)
    }
}

/// The events among the inputs, in the order they arrived.
pub open spec fn received<T>(inputs: Seq<BatchInput<T>>) -> Seq<T>
    decreases inputs.len(),
{
    if inputs.len() == 0 {
        Seq::empty()
    } else {
        match inputs[0] {
            BatchInput::Event(e) => seq![e] + received(inputs.drop_first()),
            BatchInput::Tick => received(inputs.drop_first()),
        }
    }
}

/// The batches laid end to end.
pub open spec fn flatten<T>(batches: Seq<Seq<T>>) -> Seq<T>
    decreases batches.len(),
{
    if batches.len() == 0 {
        Seq::empty()
    } else {
        batches[0] + flatten(batches.drop_first())
    }
}

/// The events waiting in the batching loop, and the batch size.
pub struct BatchBuffer<T> {
    batch: Vec<T>,
    batch_size: usize,
}

impl<T> BatchBuffer<T> {
    /// The events waiting to be handed on.
    pub closed spec fn pending(&self) -> Seq<T> {
        self.batch@
    }

    pub closed spec fn size(&self) -> nat {
        self.batch_size as nat
    }

    /// An empty buffer that hands events on `batch_size` at a time.
    pub fn new(batch_size: usize) -> (r: Self)
        ensures
            r.pending() == Seq::<T>::empty(),
            r.size() == batch_size,
    {
        BatchBuffer { batch: Vec::new(), batch_size }
    }

    pub fn batch_size(&self) -> (r: usize)
        ensures
            r == self.size(),
    {
        self.batch_size
    }

    /// Takes in `event`; returns the batch to hand on, if it is now full.
    pub fn on_event(&mut self, event: T) -> (r: Option<Vec<T>>)
        ensures
            final(self).size() == old(self).size(),
            ({
                let (out, p) = batch_step(old(self).pending(), old(self).size(), BatchInput::Event(event));
                &&& final(self).pending() == p
                &&& match r {
                    Some(b) => out == seq![b@],
                    None => out.len() == 0,
                }
            }),
    {
        self.batch.push(event);
        if self.batch.len() >= self.batch_size {
            let mut full: Vec<T> = Vec::new();
            std::mem::swap(&mut full, &mut self.batch);
            Some(full)
        } else {
            None
        }
    }

    /// A tick of the flush interval; returns the waiting events, if any.
    pub fn on_tick(&mut self) -> (r: Option<Vec<T>>)
        ensures
            final(self).size() == old(self).size(),
            ({
                let (out, p) = batch_step(old(self).pending(), old(self).size(), BatchInput::<T>::Tick);
                &&& final(self).pending() == p
                &&& match r {
                    Some(b) => out == seq![b@],
                    None => out.len() == 0,
                }
            }),
    {
        if self.batch.len() > 0 {
            let mut waiting: Vec<T> = Vec::new();
            std::mem::swap(&mut waiting, &mut self.batch);
            Some(waiting)
        } else {
            None
        }
    }
}

/// No event is lost, repeated or reordered by the batching: the batches
/// handed on, laid end to end and followed by the events still waiting,
/// are the events that were waiting followed by those received.
pub proof fn lemma_batching_keeps_every_event<T>(pending: Seq<T>, size: nat, inputs: Seq<BatchInput<T>>)
    ensures
        flatten(batch_run(pending, size, inputs).0) + batch_run(pending, size, inputs).1
            == pending + received(inputs),
    decreases inputs.len(),
{
    if inputs.len() > 0 {
        let (out, p) = batch_step(pending, size, inputs[0]);
        lemma_batching_keeps_every_event(p, size, inputs.drop_first());
        let (rest, q) = batch_run(p, size, inputs.drop_first());
        lemma_flatten_append(out, rest);
        match inputs[0] {
            BatchInput::Event(e) => {
                assert(flatten(out) + p =~= pending.push(e)) by {
                    if pending.push(e).len() >= size {
                        lemma_flatten_single(pending.push(e));
                    } else {
                        assert(flatten(out) =~= Seq::<T>::empty());
                    }
                }
                assert(pending + received(inputs) =~= pending.push(e) + received(inputs.drop_first()));
            },
            BatchInput::Tick => {
                assert(flatten(out) + p =~= pending) by {
                    if pending.len() > 0 {
                        lemma_flatten_single(pending);
                    } else {
                        assert(flatten(out) =~= Seq::<T>::empty());
                    }
                }
            },
        }
        assert(flatten(out + rest) + q =~= flatten(out) + p + received(inputs.drop_first()));
    } else {
        assert(received(inputs) =~= Seq::<T>::empty());
        assert(flatten(Seq::<Seq<T>>::empty()) =~= Seq::<T>::empty());
    }
}

proof fn lemma_flatten_single<T>(x: Seq<T>)
    ensures
        flatten(seq![x]) == x,
{
    assert(seq![x].drop_first() =~= Seq::<Seq<T>>::empty());
    assert(flatten(Seq::<Seq<T>>::empty()) =~= Seq::<T>::empty());
    assert(x + Seq::<T>::empty() =~= x);
}

proof fn lemma_flatten_append<T>(a: Seq<Seq<T>>, b: Seq<Seq<T>>)
    ensures
        flatten(a + b) == flatten(a) + flatten(b),
    decreases a.len(),
{
    if a.len() == 0 {
        assert(a + b =~= b);
        assert(flatten(a) =~= Seq::<T>::empty());
        assert(flatten(a) + flatten(b) =~= flatten(b));
    } else {
        lemma_flatten_append(a.drop_first(), b);
        assert((a + b).drop_first() =~= a.drop_first() + b);
        assert(flatten(a) + flatten(b) =~= a[0] + (flatten(a.drop_first()) + flatten(b)));
    }
}

/// With a positive batch size, fewer than a full batch of events ever
/// wait, and every batch handed on is non-empty and at most a full batch.
pub proof fn lemma_batches_are_bounded<T>(pending: Seq<T>, size: nat, inputs: Seq<BatchInput<T>>)
    requires
        size > 0,
        pending.len() < size,
    ensures
        batch_run(pending, size, inputs).1.len() < size,
        forall|i: int|
            0 <= i < batch_run(pending, size, inputs).0.len() ==> {
                let b = #[trigger] batch_run(pending, size, inputs).0[i];
                0 < b.len() <= size
            },
    decreases inputs.len(),
{
    if inputs.len() > 0 {
        let (out, p) = batch_step(pending, size, inputs[0]);
        lemma_batches_are_bounded(p, size, inputs.drop_first());
        let (rest, q) = batch_run(p, size, inputs.drop_first());
        assert forall|i: int| 0 <= i < (out + rest).len() implies {
            let b = #[trigger] (out + rest)[i];
            0 < b.len() <= size
        } by {
            if i >= out.len() {
                assert((out + rest)[i] == rest[i - out.len()]);
            }
        }
    }
}

/// Where one delivery of a batched event goes: to the hook at an index of
/// the dispatcher's list, or to the event bus.
#[derive(Debug, Clone, Copy, PartialEq, Eq, Structural)]
pub enum DeliveryTarget {
    Handler(usize),
    Bus,
}

/// The deliveries of the event at `index` in its batch: to each of the
/// `handlers` hooks in their order, then to the bus.
pub open spec fn event_deliveries(index: usize, handlers: nat) -> Seq<(usize, DeliveryTarget)> {
    Seq::new(handlers, |j: int| (index, DeliveryTarget::Handler(j as usize))).push((index, DeliveryTarget::Bus))
}

/// The deliveries of the first `events` events of a batch: those of each
/// event in turn, in the order in which the events were dispatched.
pub open spec fn batch_deliveries(events: nat, handlers: nat) -> Seq<(usize, DeliveryTarget)>
    decreases events,
{
    if events == 0 {
        Seq::empty()
    } else {
        batch_deliveries((events - 1) as nat, handlers) + event_deliveries((events - 1) as usize, handlers)
    }
}

/// The order in which a batch of `events` events is handed on to
/// `handlers` hooks and the bus: each event, by its index in the batch,
/// goes to every hook in turn and then to the bus before the next event
/// is handed on.
pub fn delivery_order(events: usize, handlers: usize) -> (r: Vec<(usize, DeliveryTarget)>)
    ensures
        r@ == batch_deliveries(events as nat, handlers as nat),
{
    let mut r: Vec<(usize, DeliveryTarget)> = Vec::new();
    let mut i: usize = 0;
    while i < events
        invariant
            i <= events,
            r@ == batch_deliveries(i as nat, handlers as nat),
        decreases events - i,
    {
        let ghost start = r@;
        let mut j: usize = 0;
        while j < handlers
            invariant
                i < events,
                j <= handlers,
                start == batch_deliveries(i as nat, handlers as nat),
                r@ == start + Seq::new(j as nat, |k: int| (i, DeliveryTarget::Handler(k as usize))),
            decreases handlers - j,
        {
            r.push((i, DeliveryTarget::Handler(j)));
            assert(Seq::new(j as nat, |k: int| (i, DeliveryTarget::Handler(k as usize))).push(
                (i, DeliveryTarget::Handler(j)),
            ) =~= Seq::new((j + 1) as nat, |k: int| (i, DeliveryTarget::Handler(k as usize))));
            j = j + 1;
        }
        r.push((i, DeliveryTarget::Bus));
        assert(r@ =~= batch_deliveries((i + 1) as nat, handlers as nat));
        i = i + 1;
    }
    r
}

/// Each dispatched event reaches every hook, in the hooks' order, and
/// then the bus, and the events of a batch are handed on one after the
/// other in the order they were dispatched: in the deliveries of a batch,
/// the one at `i * (handlers + 1) + j` takes event `i` to hook `j`, or to
/// the bus when `j == handlers`, and there are no others.
pub proof fn lemma_deliveries_in_dispatch_order(events: usize, handlers: usize, i: usize, j: usize)
    requires
        i < events,
        j <= handlers,
    ensures
        batch_deliveries(events as nat, handlers as nat).len() == events * (handlers + 1),
        batch_deliveries(events as nat, handlers as nat)[i * (handlers + 1) + j] == (
        i,
        if j < handlers {
            DeliveryTarget::Handler(j)
        } else {
            DeliveryTarget::Bus
        },
    ),
    decreases events,
{
    lemma_deliveries_len(events as nat, handlers as nat);
    let prev = batch_deliveries((events - 1) as nat, handlers as nat);
    let last = event_deliveries((events - 1) as usize, handlers as nat);
    lemma_deliveries_len((events - 1) as nat, handlers as nat);
    assert(prev.len() == (events - 1) * (handlers + 1));
    if i + 1 < events {
        lemma_deliveries_in_dispatch_order((events - 1) as usize, handlers, i, j);
        assert(i * (handlers + 1) + j < (events - 1) * (handlers + 1)) by (nonlinear_arith)
            requires
                i + 1 < events,
                j <= handlers,
        ;
    } else {
        assert(i * (handlers + 1) + j == (events - 1) * (handlers + 1) + j) by (nonlinear_arith)
            requires
                i + 1 == events,
        ;
        assert((prev + last)[i * (handlers + 1) + j] == last[j as int]);
    }
}

proof fn lemma_deliveries_len(events: nat, handlers: nat)
    ensures
        batch_deliveries(events, handlers).len() == events * (handlers + 1),
    decreases events,
{
    if events > 0 {
        lemma_deliveries_len((events - 1) as nat, handlers);
        assert(event_deliveries((events - 1) as usize, handlers).len() == handlers + 1);
        assert(events * (handlers + 1) == (events - 1) * (handlers + 1) + handlers + 1) by (nonlinear_arith);
    } else {
        assert(events * (handlers + 1) == 0) by (nonlinear_arith)
            requires
                events == 0,
        ;
    }
}

/// A tick hands on every waiting event at once: with events waiting, the
/// batch handed on is exactly the waiting events, in the order they
/// arrived, and none is left waiting; with none waiting, nothing is handed
/// on. The batch size stays as it was.
pub proof fn lemma_tick_hands_on_every_waiting_event<T>(buffer: &mut BatchBuffer<T>, r: Option<Vec<T>>)
    requires
        call_ensures(BatchBuffer::<T>::on_tick, (buffer,), r),
    ensures
        final(buffer).size() == old(buffer).size(),
        old(buffer).pending().len() > 0 ==> (r matches Some(b) && b@ == old(buffer).pending()
            && final(buffer).pending().len() == 0),
        old(buffer).pending().len() == 0 ==> (r is None && final(buffer).pending() == old(buffer).pending()),
{
    let out = batch_step(old(buffer).pending(), old(buffer).size(), BatchInput::<T>::Tick).0;
    if let Some(b) = r {
        assert(seq![b@].len() == 1);
        assert(seq![b@][0] == out[0]);
    }
}

/// An event joins the waiting events, after those already waiting; once
/// a full batch is waiting, exactly those events are handed on together
/// and none is left waiting.
pub proof fn lemma_event_fills_batch<T>(buffer: &mut BatchBuffer<T>, event: T, r: Option<Vec<T>>)
    requires
        call_ensures(BatchBuffer::<T>::on_event, (buffer, event), r),
    ensures
        final(buffer).size() == old(buffer).size(),
        old(buffer).pending().len() + 1 >= old(buffer).size() ==> (r matches Some(b) && b@ == old(
            buffer,
        ).pending().push(event) && final(buffer).pending().len() == 0),
        old(buffer).pending().len() + 1 < old(buffer).size() ==> (r is None && final(buffer).pending() == old(
            buffer,
        ).pending().push(event)),
{
    let out = batch_step(old(buffer).pending(), old(buffer).size(), BatchInput::Event(event)).0;
    if let Some(b) = r {
        assert(seq![b@].len() == 1);
        assert(seq![b@][0] == out[0]);
    }
}

/// The order that [`delivery_order`] returns: `events * (handlers + 1)`
/// deliveries, the one at `i * (handlers + 1) + j` taking event `i` to
/// hook `j`, or to the bus when `j == handlers`.
pub proof fn lemma_delivery_order_hands_each_event_to_every_hook_then_the_bus(
    events: usize,
    handlers: usize,
    r: Vec<(usize, DeliveryTarget)>,
    i: usize,
    j: usize,
)
    requires
        call_ensures(delivery_order, (events, handlers), r),
        i < events,
        j <= handlers,
    ensures
        r@.len() == events * (handlers + 1),
        r@[i * (handlers + 1) + j] == (
        i,
        if j < handlers {
            DeliveryTarget::Handler(j)
        } else {
            DeliveryTarget::Bus
        },
    ),
{
    lemma_deliveries_in_dispatch_order(events, handlers, i, j);
}

} // verus!
