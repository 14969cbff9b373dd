//! The two bounded queues that decouple the hardware-facing tasks from the
//! network sessions. Both are heapless's lock-free MPMC rings.
//!
//! Policy when full: the newest item is dropped. An enqueue on a full queue
//! leaves the queue as it was and hands the item back; it never blocks.
use vstd::prelude::*;
use heapless::mpmc::MpMcQueue;

verus! {

/// Room of the queue of button presses.
pub const BUTTON_PRESS_CAPACITY: usize = 64;

/// Room of the queue of LED commands.
pub const LED_COMMAND_CAPACITY: usize = 16;

#[verifier::external_type_specification]
#[verifier::external_body]
#[verifier::reject_recursive_types(T)]
pub struct ExMpMcQueue<T, const N: usize>(MpMcQueue<T, N>);

/// The items of a button press ring, oldest first.
pub uninterp spec fn press_ring_items(q: MpMcQueue<(u8, u64), 64>) -> Seq<(u8, u64)>;

/// The items of an LED command ring, oldest first.
pub uninterp spec fn led_ring_items(q: MpMcQueue<(u8, bool), 16>) -> Seq<(u8, bool)>;

/// What a queue with room for `cap` items holds after an attempt to add
/// `item` to `q`: the item goes last if there is room, else it is dropped.
pub open spec fn enqueued<T>(q: Seq<T>, item: T, cap: nat) -> Seq<T> {
    if q.len() < cap {
        q.push(item)
    } else {
        q
    }
}

/// What a queue with room for `cap` items holds after attempts to add each
/// of `items` in turn, starting from `q`.
pub open spec fn enqueued_all<T>(q: Seq<T>, items: Seq<T>, cap: nat) -> Seq<T>
    decreases items.len(),
{
    if items.len() == 0 {
        q
    } else {
        enqueued(enqueued_all(q, items.drop_last(), cap), items.last(), cap)
    }
}

/// Backpressure: whatever is offered to an empty queue, it keeps the oldest
/// items up to its room and drops the rest.
pub proof fn lemma_keeps_oldest<T>(items: Seq<T>, cap: nat)
    ensures
        enqueued_all(Seq::empty(), items, cap) =~= items.take(
            if items.len() <= cap {
                items.len() as int
            } else {
                cap as int
            },
        ),
    decreases items.len(),
{
    if items.len() > 0 {
        let init = items.drop_last();
        lemma_keeps_oldest(init, cap);
        if items.len() <= cap {
            assert(init.take(init.len() as int).push(items.last()) =~= items.take(
                items.len() as int,
            ));
        } else if init.len() > cap {
            assert(init.take(cap as int) =~= items.take(cap as int));
        } else {
            assert(init.take(init.len() as int) =~= items.take(cap as int));
        }
    }
}

/// Relies on heapless's `MpMcQueue::new`: the ring starts empty.
#[verifier::external_body]
fn press_ring_new() -> (r: MpMcQueue<(u8, u64), 64>)
    ensures
        press_ring_items(r) == Seq::<(u8, u64)>::empty(),
{
    MpMcQueue::new()
}

/// Relies on heapless's `MpMcQueue::enqueue`: with room left the item goes
/// last; on a full ring (64 items) it is handed back and the ring is kept.
#[verifier::external_body]
fn press_ring_enqueue(q: &mut MpMcQueue<(u8, u64), 64>, item: (u8, u64)) -> (r: Result<(), (u8, u64)>)
    requires
        press_ring_items(*old(q)).len() <= 64,
    ensures
        64 > press_ring_items(*old(q)).len() ==> r is Ok && press_ring_items(*final(q))
            == press_ring_items(*old(q)).push(item),
        press_ring_items(*old(q)).len() == 64 ==> r is Err && r->Err_0 == item && press_ring_items(*final(q))
            == press_ring_items(*old(q)),
{
    q.enqueue(item)
}

/// Relies on heapless's `MpMcQueue::dequeue`: the oldest item leaves, and an
/// empty ring gives `None`.
#[verifier::external_body]
fn press_ring_dequeue(q: &mut MpMcQueue<(u8, u64), 64>) -> (r: Option<(u8, u64)>)
    ensures
        press_ring_items(*old(q)).len() == 0 ==> r is None && press_ring_items(*final(q))
            == press_ring_items(*old(q)),
        press_ring_items(*old(q)).len() > 0 ==> r == Some(press_ring_items(*old(q))[0])
            && press_ring_items(*final(q)) == press_ring_items(*old(q)).drop_first(),
{
    q.dequeue()
}

/// Relies on heapless's `MpMcQueue::new`: the ring starts empty.
#[verifier::external_body]
fn led_ring_new() -> (r: MpMcQueue<(u8, bool), 16>)
    ensures
        led_ring_items(r) == Seq::<(u8, bool)>::empty(),
{
    MpMcQueue::new()
}

/// Relies on heapless's `MpMcQueue::enqueue`: with room left the item goes
/// last; on a full ring (16 items) it is handed back and the ring is kept.
#[verifier::external_body]
fn led_ring_enqueue(q: &mut MpMcQueue<(u8, bool), 16>, item: (u8, bool)) -> (r: Result<(), (u8, bool)>)
    requires
        led_ring_items(*old(q)).len() <= 16,
    ensures
        16 > led_ring_items(*old(q)).len() ==> r is Ok && led_ring_items(*final(q))
            == led_ring_items(*old(q)).push(item),
        led_ring_items(*old(q)).len() == 16 ==> r is Err && r->Err_0 == item && led_ring_items(*final(q))
            == led_ring_items(*old(q)),
{
    q.enqueue(item)
}

/// Relies on heapless's `MpMcQueue::dequeue`: the oldest item leaves, and an
/// empty ring gives `None`.
#[verifier::external_body]
fn led_ring_dequeue(q: &mut MpMcQueue<(u8, bool), 16>) -> (r: Option<(u8, bool)>)
    ensures
        led_ring_items(*old(q)).len() == 0 ==> r is None && led_ring_items(*final(q))
            == led_ring_items(*old(q)),
        led_ring_items(*old(q)).len() > 0 ==> r == Some(led_ring_items(*old(q))[0])
            && led_ring_items(*final(q)) == led_ring_items(*old(q)).drop_first(),
{
    q.dequeue()
}

/// Raw button presses, `(button_id, press_time)`, on their way from the
/// debounce producer to the transmit session.
pub struct ButtonPressQueue {
    ring: MpMcQueue<(u8, u64), 64>,
}

impl View for ButtonPressQueue {
    type V = Seq<(u8, u64)>;

    closed spec fn view(&self) -> Seq<(u8, u64)> {
        press_ring_items(self.ring)
    }
}

impl ButtonPressQueue {
    pub open spec fn wf(&self) -> bool {
        self@.len() <= BUTTON_PRESS_CAPACITY
    }

    pub fn new() -> (r: ButtonPressQueue)
        ensures
            r.wf(),
            r@ == Seq::<(u8, u64)>::empty(),
    {
        ButtonPressQueue { ring: press_ring_new() }
    }

    /// Adds a press at the end; on a full queue the press is dropped and
    /// `false` comes back.
    pub fn enqueue(&mut self, button_id: u8, press_time: u64) -> (r: bool)
        requires
            old(self).wf(),
        ensures
            final(self).wf(),
            final(self)@ == enqueued(old(self)@, (button_id, press_time), BUTTON_PRESS_CAPACITY as nat),
            r == (old(self)@.len() < BUTTON_PRESS_CAPACITY),
    {
        let r = press_ring_enqueue(&mut self.ring, (button_id, press_time));
        r.is_ok()
    }

    /// Takes the oldest press out, or gives `None` on an empty queue.
    pub fn dequeue(&mut self) -> (r: Option<(u8, u64)>)
        requires
            old(self).wf(),
        ensures
            final(self).wf(),
            old(self)@.len() == 0 ==> r is None && final(self)@ == old(self)@,
            old(self)@.len() > 0 ==> r == Some(old(self)@[0]) && final(self)@ == old(self)@.drop_first(),
    {
        press_ring_dequeue(&mut self.ring)
    }
}

/// LED commands, `(button_id, on)`, on their way from the receive session
/// to the LED sink.
pub struct LedCommandQueue {
    ring: MpMcQueue<(u8, bool), 16>,
}

impl View for LedCommandQueue {
    type V = Seq<(u8, bool)>;

    closed spec fn view(&self) -> Seq<(u8, bool)> {
        led_ring_items(self.ring)
    }
}

impl LedCommandQueue {
    pub open spec fn wf(&self) -> bool {
        self@.len() <= LED_COMMAND_CAPACITY
    }

    pub fn new() -> (r: LedCommandQueue)
        ensures
            r.wf(),
            r@ == Seq::<(u8, bool)>::empty(),
    {
        LedCommandQueue { ring: led_ring_new() }
    }

    /// Adds a command at the end; on a full queue the command is dropped and
    /// `false` comes back.
    pub fn enqueue(&mut self, button_id: u8, on: bool) -> (r: bool)
        requires
            old(self).wf(),
        ensures
            final(self).wf(),
            final(self)@ == enqueued(old(self)@, (button_id, on), LED_COMMAND_CAPACITY as nat),
            r == (old(self)@.len() < LED_COMMAND_CAPACITY),
    {
        let r = led_ring_enqueue(&mut self.ring, (button_id, on));
        r.is_ok()
    }

    /// Takes the oldest command out, or gives `None` on an empty queue.
    pub fn dequeue(&mut self) -> (r: Option<(u8, bool)>)
        requires
            old(self).wf(),
        ensures
            final(self).wf(),
            old(self)@.len() == 0 ==> r is None && final(self)@ == old(self)@,
            old(self)@.len() > 0 ==> r == Some(old(self)@[0]) && final(self)@ == old(self)@.drop_first(),
    {
        led_ring_dequeue(&mut self.ring)
    }
}

} // verus!
