//! The bounded event queue between the keyboard interrupt handler and the
//! mainline loop.
//!
//! The queue is a ring of [`QUEUE_CAPACITY`] slots with a read cursor, a write
//! cursor and an explicit element count, so every slot is usable. When it is
//! full the newest item is dropped: the producer never blocks and never
//! overwrites unread data.

use vstd::prelude::*;

verus! {

/// Number of scancodes the queue can hold.
pub const QUEUE_CAPACITY: usize = 16;

/// Fixed-capacity first-in first-out queue of raw scancodes.
pub struct ScancodeBuffer {
    buffer: [u8; 16],
    head: usize,
    tail: usize,
    count: usize,
}

/// What a push does to the queued items: append when there is room, else nothing.
pub open spec fn push_model(items: Seq<u8>, scancode: u8) -> Seq<u8> {
    if items.len() < QUEUE_CAPACITY {
        items.push(scancode)
    } else {
        items
    }
}

/// Whether a push onto the queued items is accepted.
pub open spec fn push_accepts(items: Seq<u8>) -> bool {
    items.len() < QUEUE_CAPACITY
}

/// What a pop leaves in the queue: everything but the oldest item.
pub open spec fn pop_model(items: Seq<u8>) -> Seq<u8> {
    if items.len() > 0 {
        items.drop_first()
    } else {
        items
    }
}

/// What a pop hands out: the oldest item, if there is one.
pub open spec fn pop_value(items: Seq<u8>) -> Option<u8> {
    if items.len() > 0 {
        Some(items[0])
    } else {
        None
    }
}

/// The queue after pushing every item of `items`, first to last.
pub open spec fn push_all(queue: Seq<u8>, items: Seq<u8>) -> Seq<u8>
    decreases items.len(),
{
    if items.len() == 0 {
        queue
    } else {
        push_all(push_model(queue, items[0]), items.drop_first())
    }
}

/// Whether every push of `items`, first to last, is accepted.
pub open spec fn push_all_accepted(queue: Seq<u8>, items: Seq<u8>) -> bool
    decreases items.len(),
{
    if items.len() == 0 {
        true
    } else {
        push_accepts(queue) && push_all_accepted(push_model(queue, items[0]), items.drop_first())
    }
}

/// What `n` pops in a row hand out, first pop first.
pub open spec fn pop_values(queue: Seq<u8>, n: nat) -> Seq<Option<u8>>
    decreases n,
{
    if n == 0 {
        Seq::empty()
    } else {
        seq![pop_value(queue)] + pop_values(pop_model(queue), (n - 1) as nat)
    }
}

/// The queue after `n` pops in a row.
pub open spec fn pop_rest(queue: Seq<u8>, n: nat) -> Seq<u8>
    decreases n,
{
    if n == 0 {
        queue
    } else {
        pop_rest(pop_model(queue), (n - 1) as nat)
    }
}

impl View for ScancodeBuffer {
    type V = Seq<u8>;

    /// The queued scancodes, oldest first.
    closed spec fn view(&self) -> Seq<u8> {
        Seq::new(self.count as nat, |i: int| self.buffer@[(self.head + i) % 16])
    }
}

impl ScancodeBuffer {
    #[verifier::type_invariant]
    spec fn well_formed(&self) -> bool {
        &&& self.head < 16
        &&& self.tail < 16
        &&& self.count <= 16
        &&& self.tail == (self.head + self.count) % 16
    }

    /// An empty queue.
    pub fn new() -> (queue: Self)
        ensures
            queue@ == Seq::<u8>::empty(),
    {
        ScancodeBuffer { buffer: [0; 16], head: 0, tail: 0, count: 0 }
    }

    /// Number of queued scancodes.
    pub fn len(&self) -> (n: usize)
        ensures
            n == self@.len(),
            n <= QUEUE_CAPACITY,
    {
        proof {
            use_type_invariant(self);
        }
        self.count
    }

    /// Whether nothing is queued.
    pub fn is_empty(&self) -> (empty: bool)
        ensures
            empty == (self@.len() == 0),
    {
        self.count == 0
    }

    /// Whether the next push would be dropped.
    pub fn is_full(&self) -> (full: bool)
        ensures
            full == !push_accepts(self@),
    {
        proof {
            use_type_invariant(self);
        }
        self.count == 16
    }

    /// Appends `scancode` unless the queue is full.
    ///
    /// Returns whether the scancode was queued. A full queue is left exactly as
    /// it was and the new scancode is dropped.
    pub fn push(&mut self, scancode: u8) -> (accepted: bool)
        ensures
            accepted == push_accepts(old(self)@),
            final(self)@ == push_model(old(self)@, scancode),
            accepted ==> final(self)@ == old(self)@.push(scancode),
            !accepted ==> old(self)@.len() == QUEUE_CAPACITY && final(self)@ == old(self)@,
            final(self)@.len() <= QUEUE_CAPACITY,
    {
        proof {
            use_type_invariant(&*self);
        }
        if self.count < 16 {
            let ghost before = *self;
            let next_tail: usize = (self.tail + 1) % 16;
            let mut slots: [u8; 16] = self.buffer;
            slots[self.tail] = scancode;
            *self = ScancodeBuffer {
                buffer: slots,
                head: self.head,
                tail: next_tail,
                count: self.count + 1,
            };
            assert(self@ =~= before@.push(scancode));
            true
        } else {
            false
        }
    }

    /// Removes and returns the oldest scancode, or returns `None` when the queue
    /// is empty, which leaves the queue as it was.
    pub fn pop(&mut self) -> (scancode: Option<u8>)
        ensures
            scancode == pop_value(old(self)@),
            final(self)@ == pop_model(old(self)@),
            old(self)@.len() == 0 ==> scancode is None && final(self)@ == old(self)@,
            old(self)@.len() > 0 ==> scancode == Some(old(self)@[0]) && final(self)@
                == old(self)@.drop_first(),
    {
        proof {
            use_type_invariant(&*self);
        }
        if self.count > 0 {
            let ghost before = *self;
            let scancode: u8 = self.buffer[self.head];
            *self = ScancodeBuffer {
                buffer: self.buffer,
                head: (self.head + 1) % 16,
                tail: self.tail,
                count: self.count - 1,
            };
            assert(self@ =~= before@.drop_first());
            Some(scancode)
        } else {
            None
        }
    }
}

/// Pushes that fit are all accepted and land behind what was queued, in the
/// order in which they were pushed.
pub proof fn lemma_push_all_appends(queue: Seq<u8>, items: Seq<u8>)
    requires
        queue.len() + items.len() <= QUEUE_CAPACITY,
    ensures
        push_all_accepted(queue, items),
        push_all(queue, items) == queue + items,
    decreases items.len(),
{
    if items.len() == 0 {
        assert(queue + items =~= queue);
    } else {
        lemma_push_all_appends(queue.push(items[0]), items.drop_first());
        assert(queue.push(items[0]) + items.drop_first() =~= queue + items);
    }
}

/// Pops hand out the queued items oldest first: `n` pops on a queue of at
/// least `n` items return its first `n` items in order and leave the rest.
pub proof fn lemma_pops_in_order(queue: Seq<u8>, n: nat)
    requires
        n <= queue.len(),
    ensures
        pop_values(queue, n) == Seq::new(n, |i: int| Some(queue[i])),
        pop_rest(queue, n) == queue.skip(n as int),
    decreases n,
{
    if n == 0 {
        assert(pop_values(queue, n) =~= Seq::new(n, |i: int| Some(queue[i])));
        assert(queue.skip(0) =~= queue);
    } else {
        let rest = queue.drop_first();
        lemma_pops_in_order(rest, (n - 1) as nat);
        assert(pop_values(queue, n) =~= Seq::new(n, |i: int| Some(queue[i])));
        assert(rest.skip(n - 1) =~= queue.skip(n as int));
    }
}

/// First in, first out: whatever is pushed onto an empty queue without
/// exceeding its capacity is accepted, comes back out of as many pops in the
/// order in which it went in, and leaves the queue empty.
pub proof fn lemma_fifo(items: Seq<u8>)
    requires
        items.len() <= QUEUE_CAPACITY,
    ensures
        push_all_accepted(Seq::empty(), items),
        pop_values(push_all(Seq::empty(), items), items.len()) == Seq::new(
            items.len(),
            |i: int| Some(items[i]),
        ),
        pop_rest(push_all(Seq::empty(), items), items.len()) == Seq::<u8>::empty(),
{
    lemma_push_all_appends(Seq::empty(), items);
    assert(Seq::<u8>::empty() + items =~= items);
    lemma_pops_in_order(items, items.len());
    assert(items.skip(items.len() as int) =~= Seq::<u8>::empty());
}

/// A push onto a full queue is refused and changes nothing, so whatever is read
/// back afterwards is what was queued before the overflow.
pub proof fn lemma_overflow_keeps_contents(queue: Seq<u8>, scancode: u8, n: nat)
    requires
        queue.len() == QUEUE_CAPACITY,
    ensures
        !push_accepts(queue),
        push_model(queue, scancode) == queue,
        pop_values(push_model(queue, scancode), n) == pop_values(queue, n),
{
}

/// Popping an empty queue hands out nothing and leaves it empty, however often
/// it is repeated.
pub proof fn lemma_pop_empty_repeats(n: nat)
    ensures
        pop_values(Seq::empty(), n) == Seq::new(n, |i: int| None::<u8>),
        pop_rest(Seq::empty(), n) == Seq::<u8>::empty(),
    decreases n,
{
    if n == 0 {
        assert(pop_values(Seq::empty(), n) =~= Seq::new(n, |i: int| None::<u8>));
    } else {
        lemma_pop_empty_repeats((n - 1) as nat);
        assert(pop_values(Seq::empty(), n) =~= Seq::new(n, |i: int| None::<u8>));
    }
}

} // verus!
