//! The bus: a 16-bit address space that answers reads and writes, and what
//! reads of words and of ranges make of its bytes.

use vstd::prelude::*;

verus! {

/// Types of interrupts possible on the 6502
#[derive(Copy, Clone, Debug, PartialEq, Eq, Structural)]
pub enum InterruptType {
    /// The normal maskable interrupt that
    /// can be enabled/disabled with CLI and SEI
    Maskable,
    /// The non-maskable interrupt
    NonMaskable,
}

impl InterruptType {
    /// The one request that is left of two that came up in the same step: a
    /// non-maskable request that was recorded stays, and otherwise the later
    /// request replaces the earlier one.
    pub open spec fn spec_merge(
        recorded: Option<InterruptType>,
        request: Option<InterruptType>,
    ) -> Option<InterruptType> {
        if request is Some && recorded != Some(InterruptType::NonMaskable) {
            request
        } else {
            recorded
        }
    }

    /// Folds the request of one more device into what was recorded so far.
    pub fn merge(recorded: Option<InterruptType>, request: Option<InterruptType>) -> (r: Option<
        InterruptType,
    >)
        ensures
            r == Self::spec_merge(recorded, request),
    {
        match request {
            Some(interrupt) => {
                match recorded {
                    Some(InterruptType::NonMaskable) => recorded,
                    _ => Some(interrupt),
                }
            },
            None => recorded,
        }
    }
}

/// The 16-bit word that two bytes make, low byte first.
pub open spec fn word_of(lsb: u8, msb: u8) -> u16 {
    (msb as int * 256 + lsb as int) as u16
}

/// Joins two bytes into a word, low byte first.
pub fn make_word(lsb: u8, msb: u8) -> (r: u16)
    ensures
        r == word_of(lsb, msb),
{
    let r: u16 = (msb as u16) << 8 | (lsb as u16);
    assert(r == (msb as u16) * 256 + (lsb as u16)) by (bit_vector)
        requires
            r == (msb as u16) << 8 | (lsb as u16),
    ;
    r
}

/// What kind of device backs a segment; a ROM counts with its contents.
pub enum DeviceKind {
    Ram,
    Rom(Seq<u8>),
    Null,
    Peripheral,
}

/// What stays fixed about a segment while reads, writes and steps go on.
pub struct SegmentLayout {
    pub start: u16,
    pub end_inclusive: u16,
    pub requires_step: bool,
    pub kind: DeviceKind,
}

/// A 16-bit address space that answers reads and writes. The memory map is
/// one; a device that is being stepped sees the rest of the system as one.
///
/// The view of a bus is its model. The model functions say what each
/// operation returns and what it leaves behind; the layout of a bus never
/// changes.
pub trait MemoryBus: View + Sized {
    /// Whether a model is one that a bus can be in.
    spec fn valid_model(state: Self::V) -> bool;

    /// The segments of the bus, in address order.
    spec fn layout_model(state: Self::V) -> Seq<SegmentLayout>;

    /// What a debug read returns.
    spec fn peek_model(state: Self::V, addr: u16) -> u8;

    /// What a normal read returns, and the state that it leaves.
    spec fn read_model(state: Self::V, addr: u16) -> (u8, Self::V);

    /// The state that a write leaves.
    spec fn write_model(state: Self::V, addr: u16, val: u8) -> Self::V;

    /// Reads and writes lead from valid states to valid states of the same
    /// layout.
    proof fn lemma_models_keep_layout(state: Self::V, addr: u16, val: u8)
        requires
            Self::valid_model(state),
        ensures
            Self::valid_model(Self::read_model(state, addr).1),
            Self::layout_model(Self::read_model(state, addr).1) == Self::layout_model(state),
            Self::valid_model(Self::write_model(state, addr, val)),
            Self::layout_model(Self::write_model(state, addr, val)) == Self::layout_model(state),
    ;

    /// Reads a byte without any effect on the devices behind the bus.
    fn debug_byte(&self, addr: u16) -> (r: u8)
        requires
            Self::valid_model(self@),
        ensures
            r == Self::peek_model(self@, addr),
    ;

    /// Reads a byte as the processor does: a peripheral may change by it.
    fn read_byte(&mut self, addr: u16) -> (r: u8)
        requires
            Self::valid_model(old(self)@),
        ensures
            (r, final(self)@) == Self::read_model(old(self)@, addr),
            Self::valid_model(final(self)@),
            Self::layout_model(final(self)@) == Self::layout_model(old(self)@),
    ;

    /// Writes a byte.
    fn write_byte(&mut self, addr: u16, val: u8)
        requires
            Self::valid_model(old(self)@),
        ensures
            final(self)@ == Self::write_model(old(self)@, addr, val),
            Self::valid_model(final(self)@),
            Self::layout_model(final(self)@) == Self::layout_model(old(self)@),
    ;
}

/// Whether no read changes the memory in this state: so it is in a memory
/// of RAM and ROM.
pub open spec fn reads_change_nothing<M: MemoryBus>(state: M::V) -> bool {
    forall|addr: u16| (#[trigger] M::read_model(state, addr)).1 == state
}

/// The address after `addr` in the page of `addr`: the low byte goes from
/// 0xFF back to 0x00 and the high byte stays.
pub open spec fn spec_next_in_page(addr: u16) -> u16 {
    if addr % 256 == 255 {
        (addr - 255) as u16
    } else {
        (addr + 1) as u16
    }
}

/// The address after `addr` in the page of `addr`.
#[verifier::when_used_as_spec(spec_next_in_page)]
pub fn next_in_page(addr: u16) -> (r: u16)
    ensures
        r == spec_next_in_page(addr),
{
    let r: u16 = (addr & 0xFF00) | (addr.wrapping_add(1) & 0x00FF);
    assert(r == (if addr % 256 == 255 {
        (addr - 255) as u16
    } else {
        (addr + 1) as u16
    })) by (bit_vector)
        requires
            r == (addr & 0xFF00) | (if addr == 0xFFFF { 0u16 } else { (addr + 1) as u16 } & 0x00FF),
    ;
    r
}

/// What reading a word returns: the byte at `addr`, then the byte at the next
/// address of the 16-bit space, each by a normal read.
pub open spec fn read_word_model<M: MemoryBus>(state: M::V, addr: u16) -> (u16, M::V) {
    let (lsb, s1) = M::read_model(state, addr);
    let (msb, s2) = M::read_model(s1, addr.wrapping_add(1));
    (word_of(lsb, msb), s2)
}

/// What reading a word in page zero returns: the high byte comes from the
/// next offset within the page.
pub open spec fn read_word_zero_page_model<M: MemoryBus>(state: M::V, addr: u8) -> (u16, M::V) {
    let (lsb, s1) = M::read_model(state, addr as u16);
    let (msb, s2) = M::read_model(s1, addr.wrapping_add(1) as u16);
    (word_of(lsb, msb), s2)
}

/// What reading a word returns when the high byte is taken from the page of
/// the low byte.
pub open spec fn read_word_same_page_model<M: MemoryBus>(state: M::V, addr: u16) -> (u16, M::V) {
    let (lsb, s1) = M::read_model(state, addr);
    let (msb, s2) = M::read_model(s1, spec_next_in_page(addr));
    (word_of(lsb, msb), s2)
}

/// What reading `n` bytes from `addr` on returns, and the state after the
/// last of the reads.
pub open spec fn read_slice_model<M: MemoryBus>(state: M::V, addr: u16, n: nat) -> (
    Seq<u8>,
    M::V,
)
    decreases n,
{
    if n == 0 {
        (Seq::empty(), state)
    } else {
        let (bytes, s1) = read_slice_model::<M>(state, addr, (n - 1) as nat);
        let (val, s2) = M::read_model(s1, ((addr + (n - 1)) % 0x10000) as u16);
        (bytes.push(val), s2)
    }
}

/// Reads a 16-bit word at the requested address, low byte first. The
/// address of the high byte wraps round the end of the address space.
pub fn read_word<M: MemoryBus>(memory: &mut M, addr: u16) -> (r: u16)
    requires
        M::valid_model(old(memory)@),
    ensures
        (r, final(memory)@) == read_word_model::<M>(old(memory)@, addr),
        M::valid_model(final(memory)@),
        M::layout_model(final(memory)@) == M::layout_model(old(memory)@),
{
    let lsb: u8 = memory.read_byte(addr);
    let msb: u8 = memory.read_byte(addr.wrapping_add(1));
    make_word(lsb, msb)
}

/// Reads a 16-bit word at the requested zero-page offset. The address of
/// the high byte wraps within page zero.
pub fn read_word_zero_page<M: MemoryBus>(memory: &mut M, addr: u8) -> (r: u16)
    requires
        M::valid_model(old(memory)@),
    ensures
        (r, final(memory)@) == read_word_zero_page_model::<M>(old(memory)@, addr),
        M::valid_model(final(memory)@),
        M::layout_model(final(memory)@) == M::layout_model(old(memory)@),
{
    let lsb: u8 = memory.read_byte(addr as u16);
    let msb: u8 = memory.read_byte(addr.wrapping_add(1) as u16);
    make_word(lsb, msb)
}

/// Reads a 16-bit word whose high byte lies in the page of its low byte:
/// the address of the high byte wraps within the page.
pub fn read_word_same_page<M: MemoryBus>(memory: &mut M, addr: u16) -> (r: u16)
    requires
        M::valid_model(old(memory)@),
    ensures
        (r, final(memory)@) == read_word_same_page_model::<M>(old(memory)@, addr),
        M::valid_model(final(memory)@),
        M::layout_model(final(memory)@) == M::layout_model(old(memory)@),
{
    let lsb: u8 = memory.read_byte(addr);
    let msb: u8 = memory.read_byte(next_in_page(addr));
    make_word(lsb, msb)
}

/// Reads an entire slice from memory into the given buffer: one normal
/// read for each of its bytes, at ascending addresses that wrap round the
/// end of the address space.
pub fn read_slice<M: MemoryBus>(memory: &mut M, into: &mut [u8], dma_addr: u16)
    requires
        M::valid_model(old(memory)@),
    ensures
        final(into)@.len() == old(into)@.len(),
        (final(into)@, final(memory)@) == read_slice_model::<M>(
            old(memory)@,
            dma_addr,
            old(into)@.len(),
        ),
        M::valid_model(final(memory)@),
        M::layout_model(final(memory)@) == M::layout_model(old(memory)@),
{
    let n: usize = into.len();
    let mut i: usize = 0;
    let mut addr: u16 = dma_addr;
    proof {
        assert(into@.take(0) =~= Seq::<u8>::empty());
    }
    while i < n
        invariant
            i <= n,
            addr == (dma_addr + i) % 0x10000,
            into@.len() == n,
            n == old(into)@.len(),
            M::valid_model(memory@),
            M::layout_model(memory@) == M::layout_model(old(memory)@),
            into@.take(i as int) == read_slice_model::<M>(old(memory)@, dma_addr, i as nat).0,
            memory@ == read_slice_model::<M>(old(memory)@, dma_addr, i as nat).1,
        decreases n - i,
    {
        let ghost before = into@;
        let ghost state = memory@;
        into[i] = memory.read_byte(addr);
        proof {
            assert(into@.take(i as int + 1) =~= before.take(i as int).push(into@[i as int]));
            assert(into@[i as int] == M::read_model(state, addr).0);
        }
        addr = addr.wrapping_add(1);
        i += 1;
    }
    proof {
        assert(into@.take(n as int) =~= into@);
    }
}

/// Reading a slice leads from a valid state to a valid state of the same
/// layout, and returns as many bytes as were asked for.
pub proof fn lemma_read_slice_keeps_layout<M: MemoryBus>(state: M::V, addr: u16, n: nat)
    requires
        M::valid_model(state),
    ensures
        M::valid_model(read_slice_model::<M>(state, addr, n).1),
        M::layout_model(read_slice_model::<M>(state, addr, n).1) == M::layout_model(state),
        read_slice_model::<M>(state, addr, n).0.len() == n,
    decreases n,
{
    if n > 0 {
        lemma_read_slice_keeps_layout::<M>(state, addr, (n - 1) as nat);
        M::lemma_models_keep_layout(
            read_slice_model::<M>(state, addr, (n - 1) as nat).1,
            ((addr + (n - 1)) % 0x10000) as u16,
            0,
        );
    }
}

/// Two normal reads with debug reads between them: for any addresses, the
/// normal reads return what they would have returned without the debug
/// reads, and leave the memory as they would have left it. Returns the bytes
/// of the two normal reads.
pub fn read_around_debug_reads<M: MemoryBus>(
    memory: &mut M,
    first: u16,
    inspected: &[u16],
    second: u16,
) -> (r: (u8, u8))
    requires
        M::valid_model(old(memory)@),
    ensures
        r.0 == M::read_model(old(memory)@, first).0,
        (r.1, final(memory)@) == M::read_model(M::read_model(old(memory)@, first).1, second),
        M::valid_model(final(memory)@),
        M::layout_model(final(memory)@) == M::layout_model(old(memory)@),
{
    let before: u8 = memory.read_byte(first);
    let n: usize = inspected.len();
    let mut i: usize = 0;
    while i < n
        invariant
            i <= n,
            n == inspected@.len(),
            M::valid_model(memory@),
            memory@ == M::read_model(old(memory)@, first).1,
        decreases n - i,
    {
        let _: u8 = memory.debug_byte(inspected[i]);
        i += 1;
    }
    let after: u8 = memory.read_byte(second);
    (before, after)
}

/// What reading `n` bytes from `addr` on returns, and the state after the
/// last of the reads, where `read` says what one read returns and leaves. The
/// addresses wrap round the end of the address space.
pub open spec fn read_slice_with<V>(
    read: spec_fn(V, u16) -> (u8, V),
    state: V,
    addr: u16,
    n: nat,
) -> (Seq<u8>, V)
    decreases n,
{
    if n == 0 {
        (Seq::empty(), state)
    } else {
        let (bytes, s1) = read_slice_with(read, state, addr, (n - 1) as nat);
        let (val, s2) = read(s1, ((addr + (n - 1)) % 0x10000) as u16);
        (bytes.push(val), s2)
    }
}

/// Reading a slice with the normal read of a bus is reading it from the bus.
pub proof fn lemma_read_slice_with_bus<M: MemoryBus>(
    read: spec_fn(M::V, u16) -> (u8, M::V),
    state: M::V,
    addr: u16,
    n: nat,
)
    requires
        forall|s: M::V, a: u16| #[trigger] read(s, a) == M::read_model(s, a),
    ensures
        read_slice_with(read, state, addr, n) == read_slice_model::<M>(state, addr, n),
    decreases n,
{
    if n > 0 {
        lemma_read_slice_with_bus::<M>(read, state, addr, (n - 1) as nat);
    }
}

/// Exposes only non-mutable read operations.
/// Useful for debugging or introspection where you don't
/// want to modify the behavior of the system by observing it
/// (since reading a peripheral's memory address can change its
/// state under normal conditions). This shouldn't be used by
/// the emulator or its devices.
///
/// The view of the implementor is the model of the memory that it reads.
pub trait ReadMemory: View {
    /// Whether a model is one that the memory can be in.
    spec fn valid(state: Self::V) -> bool;

    /// What a debug read returns.
    spec fn peek(state: Self::V, addr: u16) -> u8;

    /// Reads a byte at the requested address
    fn byte(&self, addr: u16) -> (r: u8)
        requires
            Self::valid(self@),
        ensures
            r == Self::peek(self@, addr),
    ;

    /// Reads a 16-bit word at the requested address
    fn word(&self, addr: u16) -> (r: u16)
        requires
            Self::valid(self@),
        ensures
            r == word_of(Self::peek(self@, addr), Self::peek(self@, addr.wrapping_add(1))),
    ;

    /// Reads a 16-bit word at the requested zero-page offset
    fn word_zero_page(&self, addr: u8) -> (r: u16)
        requires
            Self::valid(self@),
        ensures
            r == word_of(
                Self::peek(self@, addr as u16),
                Self::peek(self@, addr.wrapping_add(1) as u16),
            ),
    ;

    /// Reads an entire slice from memory into the given buffer
    fn dma_slice(&self, into: &mut [u8], dma_addr: u16)
        requires
            Self::valid(self@),
        ensures
            final(into)@ == Seq::new(
                old(into)@.len(),
                |i: int| Self::peek(self@, ((dma_addr + i) % 0x10000) as u16),
            ),
    ;
}

/// Read memory operations
///
/// The view of the implementor is the model of the memory that it reads.
pub trait ReadMemoryMut: View {
    /// Whether a model is one that the memory can be in.
    spec fn valid(state: Self::V) -> bool;

    /// What a normal read returns, and the state that it leaves.
    spec fn read(state: Self::V, addr: u16) -> (u8, Self::V);

    /// Reads a byte at the requested address
    fn byte(&mut self, addr: u16) -> (r: u8)
        requires
            Self::valid(old(self)@),
        ensures
            Self::valid(final(self)@),
            (r, final(self)@) == Self::read(old(self)@, addr),
    ;

    /// Reads a 16-bit word at the requested address
    fn word(&mut self, addr: u16) -> (r: u16)
        requires
            Self::valid(old(self)@),
        ensures
            Self::valid(final(self)@),
            r == word_of(
                Self::read(old(self)@, addr).0,
                Self::read(Self::read(old(self)@, addr).1, addr.wrapping_add(1)).0,
            ),
            final(self)@ == Self::read(Self::read(old(self)@, addr).1, addr.wrapping_add(1)).1,
    ;

    /// Reads a 16-bit word at the requested zero-page offset
    fn word_zero_page(&mut self, addr: u8) -> (r: u16)
        requires
            Self::valid(old(self)@),
        ensures
            Self::valid(final(self)@),
            r == word_of(
                Self::read(old(self)@, addr as u16).0,
                Self::read(
                    Self::read(old(self)@, addr as u16).1,
                    addr.wrapping_add(1) as u16,
                ).0,
            ),
            final(self)@ == Self::read(
                Self::read(old(self)@, addr as u16).1,
                addr.wrapping_add(1) as u16,
            ).1,
    ;

    /// Reads an entire slice from memory into the given buffer, by one normal
    /// read for each of its bytes, at ascending addresses that wrap round the
    /// end of the address space.
    fn dma_slice(&mut self, into: &mut [u8], dma_addr: u16)
        requires
            Self::valid(old(self)@),
        ensures
            Self::valid(final(self)@),
            (final(into)@, final(self)@) == read_slice_with(
                |state: Self::V, addr: u16| Self::read(state, addr),
                old(self)@,
                dma_addr,
                old(into)@.len(),
            ),
    ;
}

/// Write memory operations
///
/// The view of the implementor is the model of the memory that it writes to.
pub trait WriteMemory: View {
    /// Whether a model is one that the memory can be in.
    spec fn valid(state: Self::V) -> bool;

    /// The state that a write leaves.
    spec fn written(state: Self::V, addr: u16, val: u8) -> Self::V;

    /// Writes a byte to the requested address
    fn byte(&mut self, addr: u16, val: u8)
        requires
            Self::valid(old(self)@),
        ensures
            Self::valid(final(self)@),
            final(self)@ == Self::written(old(self)@, addr, val),
    ;
}

} // verus!
