//! The keyboard device: a queue of key events that the processor reads byte
//! by byte, and an interrupt for as long as there is something new in it.

use vstd::prelude::*;
use crate::hassel::key::Key;
use crate::memory::{InterruptType, MemoryBus, MemoryMappedDevice, SteppedDevice};

verus! {

/// The byte that announces a key that went down.
pub const KEY_DOWN_INTERRUPT: u8 = 0x01;

/// The byte that announces a key that went up.
pub const KEY_UP_INTERRUPT: u8 = 0x02;

/// The queue takes a response only while it stays shorter than this.
pub const MAX_RESPONSE_QUEUE_SIZE: usize = 32;

/// The model of the keyboard device.
pub struct IoModel {
    /// The bytes that wait to be read, the next one first
    pub response_queue: Seq<u8>,
    /// The length of the queue when the device last asked for an interrupt,
    /// or what is left of it after the reads since
    pub last_interrupt_size: nat,
}

impl IoModel {
    /// The device with a response behind the others in its queue; a response
    /// that would bring the queue to its limit is dropped.
    pub open spec fn pushed(self, values: Seq<u8>) -> IoModel {
        if self.response_queue.len() + values.len() < MAX_RESPONSE_QUEUE_SIZE {
            IoModel { response_queue: self.response_queue + values, ..self }
        } else {
            self
        }
    }

    /// What a normal read returns and leaves: the first byte of the queue,
    /// which leaves the queue without a new interrupt being due; 0 from an
    /// empty queue.
    pub open spec fn read(self) -> (u8, IoModel) {
        if self.response_queue.len() == 0 {
            (0, self)
        } else {
            (
                self.response_queue[0],
                IoModel {
                    response_queue: self.response_queue.drop_first(),
                    last_interrupt_size: (self.response_queue.len() - 1) as nat,
                },
            )
        }
    }

    /// The device after it was told of each key of `keys` that is not among
    /// `others`, in the order of `keys`, by a response of the given kind.
    pub open spec fn announced(self, kind: u8, keys: Seq<Key>, others: Seq<Key>) -> IoModel
        decreases keys.len(),
    {
        if keys.len() == 0 {
            self
        } else {
            let before = self.announced(kind, keys.drop_last(), others);
            if others.contains(keys.last()) {
                before
            } else {
                before.pushed(seq![kind, keys.last().spec_code()])
            }
        }
    }

    /// The device after the keys that are down changed from `previous_keys`
    /// to `keys_down`: each key that is newly down is announced, then each
    /// key that is no longer down.
    pub open spec fn keys_changed(self, previous_keys: Seq<Key>, keys_down: Seq<Key>) -> IoModel {
        self.announced(KEY_DOWN_INTERRUPT, keys_down, previous_keys).announced(
            KEY_UP_INTERRUPT,
            previous_keys,
            keys_down,
        )
    }

    /// Whether an interrupt is due: the queue is not empty and has not the
    /// length that it had at the last interrupt.
    pub open spec fn interrupt_due(self) -> bool {
        self.response_queue.len() != 0 && self.last_interrupt_size != self.response_queue.len()
    }

    /// What a step returns and leaves: a maskable interrupt if one is due.
    pub open spec fn stepped(self) -> (Option<InterruptType>, IoModel) {
        if self.interrupt_due() {
            (
                Some(InterruptType::Maskable),
                IoModel { last_interrupt_size: self.response_queue.len(), ..self },
            )
        } else {
            (None, self)
        }
    }
}

/// The keyboard device.
pub struct IODevice {
    response_queue: Vec<u8>,
    last_interrupt_size: usize,
}

impl View for IODevice {
    type V = IoModel;

    closed spec fn view(&self) -> IoModel {
        IoModel {
            response_queue: self.response_queue@,
            last_interrupt_size: self.last_interrupt_size as nat,
        }
    }
}

impl IODevice {
    pub fn new() -> (r: IODevice)
        ensures
            r@ == (IoModel { response_queue: Seq::empty(), last_interrupt_size: 0 }),
    {
        IODevice { response_queue: Vec::new(), last_interrupt_size: 0 }
    }

    /// Tells the device that a key went down.
    pub fn key_down(&mut self, key: Key)
        ensures
            final(self)@ == old(self)@.pushed(seq![KEY_DOWN_INTERRUPT, key.spec_code()]),
    {
        let values: [u8; 2] = [KEY_DOWN_INTERRUPT, key.code()];
        proof {
            assert(values@ =~= seq![KEY_DOWN_INTERRUPT, key.spec_code()]);
        }
        self.push_response(values.as_slice());
    }

    /// Tells the device that a key went up.
    pub fn key_up(&mut self, key: Key)
        ensures
            final(self)@ == old(self)@.pushed(seq![KEY_UP_INTERRUPT, key.spec_code()]),
    {
        let values: [u8; 2] = [KEY_UP_INTERRUPT, key.code()];
        proof {
            assert(values@ =~= seq![KEY_UP_INTERRUPT, key.spec_code()]);
        }
        self.push_response(values.as_slice());
    }

    /// Tells the device which keys are down now and which were down when it
    /// was last told: it queues a key-down event for each key that is newly
    /// down and a key-up event for each that is no longer down.
    pub fn keys_changed(&mut self, previous_keys: &[Key], keys_down: &[Key])
        ensures
            final(self)@ == old(self)@.keys_changed(previous_keys@, keys_down@),
    {
        self.announce(KEY_DOWN_INTERRUPT, keys_down, previous_keys);
        self.announce(KEY_UP_INTERRUPT, previous_keys, keys_down);
    }

    fn announce(&mut self, kind: u8, keys: &[Key], others: &[Key])
        ensures
            final(self)@ == old(self)@.announced(kind, keys@, others@),
    {
        let n: usize = keys.len();
        let mut i: usize = 0;
        proof {
            assert(keys@.take(0) =~= Seq::<Key>::empty());
        }
        while i < n
            invariant
                i <= n,
                n == keys@.len(),
                self@ == old(self)@.announced(kind, keys@.take(i as int), others@),
            decreases n - i,
        {
            proof {
                let next = keys@.take(i as int + 1);
                assert(next.drop_last() =~= keys@.take(i as int));
                assert(next.last() == keys@[i as int]);
            }
            if !contains_key(others, keys[i]) {
                let values: [u8; 2] = [kind, keys[i].code()];
                proof {
                    assert(values@ =~= seq![kind, keys@[i as int].spec_code()]);
                }
                self.push_response(values.as_slice());
            }
            i += 1;
        }
        proof {
            assert(keys@.take(n as int) =~= keys@);
        }
    }

    fn push_response(&mut self, values: &[u8])
        ensures
            final(self)@ == old(self)@.pushed(values@),
    {
        // If our queue is full, we will start dropping responses
        if self.response_queue.len() < MAX_RESPONSE_QUEUE_SIZE && values.len()
            < MAX_RESPONSE_QUEUE_SIZE - self.response_queue.len() {
            let n: usize = values.len();
            let mut i: usize = 0;
            while i < n
                invariant
                    i <= n,
                    n == values@.len(),
                    self.last_interrupt_size == old(self).last_interrupt_size,
                    self.response_queue@ == old(self).response_queue@ + values@.take(i as int),
                decreases n - i,
            {
                self.response_queue.push(values[i]);
                proof {
                    assert(values@.take(i as int + 1) =~= values@.take(i as int).push(
                        values@[i as int],
                    ));
                    assert(self.response_queue@ =~= old(self).response_queue@ + values@.take(
                        i as int + 1,
                    ));
                }
                i += 1;
            }
            proof {
                assert(values@.take(n as int) =~= values@);
            }
        }
    }
}

/// Whether a key is among the keys.
pub fn contains_key(keys: &[Key], key: Key) -> (r: bool)
    ensures
        r == keys@.contains(key),
{
    let n: usize = keys.len();
    let mut i: usize = 0;
    while i < n
        invariant
            i <= n,
            n == keys@.len(),
            forall|j: int| 0 <= j < i ==> keys@[j] != key,
        decreases n - i,
    {
        if keys[i] == key {
            return true;
        }
        i += 1;
    }
    false
}

impl MemoryMappedDevice for IODevice {
    open spec fn peek_model(state: IoModel, addr: u16) -> u8 {
        0
    }

    open spec fn read_model(state: IoModel, addr: u16) -> (u8, IoModel) {
        state.read()
    }

    open spec fn write_model(state: IoModel, addr: u16, val: u8) -> IoModel {
        state
    }

    open spec fn needs_step() -> bool {
        true
    }

    fn read_byte(&self, _addr: u16) -> (r: u8) {
        0
    }

    fn read_byte_mut(&mut self, _addr: u16) -> (r: u8) {
        if self.response_queue.len() == 0 {
            0
        } else {
            // Avoid re-interrupting
            self.last_interrupt_size = self.response_queue.len() - 1;
            let r: u8 = self.response_queue.remove(0);
            proof {
                assert(self.response_queue@ =~= old(self).response_queue@.drop_first());
            }
            r
        }
    }

    fn write_byte(&mut self, _addr: u16, _val: u8) {
        // No-op for now
    }

    fn requires_step(&self) -> (r: bool) {
        true
    }

}

impl<M: MemoryBus> SteppedDevice<M> for IODevice {
    /// A step asks for a maskable interrupt if one is due, and leaves the
    /// memory alone.
    open spec fn step_model(state: IoModel, memory: M::V) -> (Option<InterruptType>, IoModel, M::V) {
        (state.stepped().0, state.stepped().1, memory)
    }

    proof fn lemma_step_keeps_layout(state: IoModel, memory: M::V) {
    }

    fn step(&mut self, _memory: &mut M) -> (r: Option<InterruptType>) {
        if self.response_queue.len() != 0 && self.last_interrupt_size
            != self.response_queue.len() {
            self.last_interrupt_size = self.response_queue.len();
            Some(InterruptType::Maskable)
        } else {
            None
        }
    }
}

} // verus!
