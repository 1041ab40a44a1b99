//! The segmented memory map: RAM, ROM and peripheral devices behind one
//! 16-bit address space.
//!
//! The model of a memory map is a sequence of [`SegmentModel`]s in ascending
//! address order. What a read returns and what a write changes are spec
//! functions on that model ([`map_read`], [`map_peek`], [`map_write`]), and
//! so is what a step of the devices leaves ([`map_step`]).

use vstd::prelude::*;
pub use crate::bus::{
    DeviceKind, InterruptType, MemoryBus, ReadMemory, ReadMemoryMut, SegmentLayout, WriteMemory,
    lemma_read_slice_keeps_layout, lemma_read_slice_with_bus, make_word, next_in_page,
    read_around_debug_reads, read_slice, read_slice_model, read_slice_with, read_word,
    read_word_model, read_word_same_page, read_word_same_page_model, read_word_zero_page,
    read_word_zero_page_model, reads_change_nothing, spec_next_in_page, word_of,
};
pub use crate::device::{
    BlockModel, Device, DeviceModel, MemoryMappedDevice, NullDevice, RAMDevice, ROMDevice,
    SteppedDevice, device_peek, device_read, device_write,
};

verus! {

/// The model of one segment of the memory map.
pub struct SegmentModel<S> {
    pub start: u16,
    pub end_inclusive: u16,
    pub requires_step: bool,
    pub device: DeviceModel<S>,
}

impl<S> SegmentModel<S> {
    /// Whether the address lies in the segment.
    pub open spec fn contains(self, addr: u16) -> bool {
        self.start <= addr <= self.end_inclusive
    }

    /// Whether the segment holds no address: its end lies before its start.
    pub open spec fn is_empty(self) -> bool {
        self.end_inclusive < self.start
    }

    /// Whether RAM or ROM in the segment has a byte for each of its addresses.
    pub open spec fn fits(self) -> bool {
        match self.device {
            DeviceModel::Ram(ram) => ram.fits(self.start, self.end_inclusive),
            DeviceModel::Rom(rom) => rom.fits(self.start, self.end_inclusive),
            _ => true,
        }
    }

    /// What stays fixed about the segment.
    pub open spec fn layout(self) -> SegmentLayout {
        SegmentLayout {
            start: self.start,
            end_inclusive: self.end_inclusive,
            requires_step: self.requires_step,
            kind: self.device.kind(),
        }
    }

    /// The segment with another device in it.
    pub open spec fn with_device(self, device: DeviceModel<S>) -> SegmentModel<S> {
        SegmentModel { device: device, ..self }
    }
}

/// The layout of a whole map.
pub open spec fn layout_of<S>(m: Seq<SegmentModel<S>>) -> Seq<SegmentLayout> {
    Seq::new(m.len(), |i: int| m[i].layout())
}

/// Whether the segments, in this order, cover the 16-bit address space with
/// no gap and no overlap, each RAM and ROM filling its segment. A segment may
/// hold no address: its end then lies directly before its start, and the
/// segment behind it starts at the same address.
pub open spec fn map_wf<S>(m: Seq<SegmentModel<S>>) -> bool {
    &&& m.len() > 0
    &&& m[0].start == 0
    &&& m[m.len() - 1].end_inclusive == 0xFFFF
    &&& forall|i: int| 0 <= i < m.len() ==> (#[trigger] m[i]).start <= m[i].end_inclusive + 1
    &&& forall|i: int| 0 <= i < m.len() ==> (#[trigger] m[i]).fits()
    &&& forall|i: int| 0 <= i < m.len() - 1 ==> (#[trigger] m[i + 1]).start == m[i].end_inclusive + 1
}

/// The index of the segment that holds an address.
pub open spec fn segment_of<S>(m: Seq<SegmentModel<S>>, addr: u16) -> int {
    choose|i: int| 0 <= i < m.len() && (#[trigger] m[i]).contains(addr)
}

/// What a debug read of the map returns.
pub open spec fn map_peek<P: MemoryMappedDevice>(m: Seq<SegmentModel<P::V>>, addr: u16) -> u8 {
    device_peek::<P>(m[segment_of(m, addr)].device, addr)
}

/// What a normal read of the map returns, and the map after it.
pub open spec fn map_read<P: MemoryMappedDevice>(m: Seq<SegmentModel<P::V>>, addr: u16) -> (
    u8,
    Seq<SegmentModel<P::V>>,
) {
    let i = segment_of(m, addr);
    let (val, device) = device_read::<P>(m[i].device, addr);
    (val, m.update(i, m[i].with_device(device)))
}

/// The map after a write.
pub open spec fn map_write<P: MemoryMappedDevice>(
    m: Seq<SegmentModel<P::V>>,
    addr: u16,
    val: u8,
) -> Seq<SegmentModel<P::V>> {
    let i = segment_of(m, addr);
    m.update(i, m[i].with_device(device_write::<P>(m[i].device, addr, val)))
}

/// In a well-formed map the segments lie in ascending order.
pub proof fn lemma_segments_ascend<S>(m: Seq<SegmentModel<S>>, i: int, j: int)
    requires
        map_wf(m),
        0 <= i < j < m.len(),
    ensures
        m[i].end_inclusive < m[j].start,
    decreases j - i,
{
    if i + 1 < j {
        lemma_segments_ascend(m, i, j - 1);
        assert(m[j - 1 + 1].start == m[j - 1].end_inclusive + 1);
        assert(m[j - 1].start <= m[j - 1].end_inclusive + 1);
    } else {
        assert(m[i + 1].start == m[i].end_inclusive + 1);
    }
}

/// In a well-formed map the segments up to `k` cover every address up to the
/// end of segment `k`.
proof fn lemma_prefix_covers<S>(m: Seq<SegmentModel<S>>, k: int, addr: u16)
    requires
        map_wf(m),
        0 <= k < m.len(),
        addr <= m[k].end_inclusive,
    ensures
        exists|i: int| 0 <= i <= k && (#[trigger] m[i]).contains(addr),
    decreases k,
{
    if m[k].start <= addr {
        assert(m[k].contains(addr));
    } else {
        assert(k > 0);
        assert(m[k - 1 + 1].start == m[k - 1].end_inclusive + 1);
        lemma_prefix_covers(m, k - 1, addr);
    }
}

/// In a well-formed map every address lies in exactly one segment, the one
/// that `segment_of` names.
pub proof fn lemma_segment_of<S>(m: Seq<SegmentModel<S>>, addr: u16)
    requires
        map_wf(m),
    ensures
        0 <= segment_of(m, addr) < m.len(),
        m[segment_of(m, addr)].contains(addr),
        forall|j: int| 0 <= j < m.len() && (#[trigger] m[j]).contains(addr) ==> j == segment_of(m, addr),
{
    lemma_prefix_covers(m, m.len() - 1, addr);
    let i = segment_of(m, addr);
    assert forall|j: int| 0 <= j < m.len() && (#[trigger] m[j]).contains(addr) implies j == i by {
        if j < i {
            lemma_segments_ascend(m, j, i);
        } else if i < j {
            lemma_segments_ascend(m, i, j);
        }
    }
}

/// One segment of the memory map: an address range, the device behind it, and
/// what the device said of its need for steps when the segment was made.
pub struct MemorySegment<P> {
    start: u16,
    end_inclusive: u16,
    device: Device<P>,
    requires_step: bool,
}

impl<P: MemoryMappedDevice> View for MemorySegment<P> {
    type V = SegmentModel<P::V>;

    closed spec fn view(&self) -> SegmentModel<P::V> {
        SegmentModel {
            start: self.start,
            end_inclusive: self.end_inclusive,
            requires_step: self.requires_step,
            device: self.device@,
        }
    }
}

impl<P: MemoryMappedDevice> MemorySegment<P> {
    /// A segment for the device, which is asked once whether it needs steps.
    pub fn new(start: u16, end_inclusive: u16, device: Device<P>) -> (r: MemorySegment<P>)
        ensures
            r@.start == start,
            r@.end_inclusive == end_inclusive,
            r@.device == device@,
            r@.requires_step == (device is Peripheral && P::needs_step()),
    {
        let requires_step = device.requires_step();
        MemorySegment {
            start: start,
            end_inclusive: end_inclusive,
            device: device,
            requires_step: requires_step,
        }
    }

    /// Whether the segment's device is stepped.
    pub fn requires_step(&self) -> (r: bool)
        ensures
            r == self@.requires_step,
    {
        self.requires_step
    }
}

/// The models of the segments of a vector, in the same order.
pub open spec fn segment_models<P: MemoryMappedDevice>(segments: Seq<MemorySegment<P>>) -> Seq<
    SegmentModel<P::V>,
> {
    Seq::new(segments.len(), |i: int| segments[i]@)
}

/// A memory mapping representing a system architecture
/// for the MOS 6502 processor.
pub struct MemoryMap<P> {
    segments: Vec<MemorySegment<P>>,
}

impl<P: MemoryMappedDevice> View for MemoryMap<P> {
    type V = Seq<SegmentModel<P::V>>;

    closed spec fn view(&self) -> Seq<SegmentModel<P::V>> {
        segment_models(self.segments@)
    }
}

impl<P: MemoryMappedDevice> MemoryMap<P> {
    /// Whether the map covers the address space exactly. Every map that
    /// the builder hands out does, and nothing that this crate offers on a
    /// map ends that.
    pub open spec fn wf(&self) -> bool {
        map_wf(self@)
    }

    fn segment_index(&self, addr: u16) -> (i: usize)
        requires
            self.wf(),
        ensures
            i == segment_of(self@, addr),
            i < self.segments.len(),
            self@[i as int].contains(addr),
    {
        let n: usize = self.segments.len();
        let mut i: usize = 0;
        while i < n
            invariant
                n == self.segments.len(),
                i <= n,
                map_wf(self@),
                forall|j: int| 0 <= j < i ==> !(#[trigger] self@[j]).contains(addr),
            decreases n - i,
        {
            if self.segments[i].start <= addr && self.segments[i].end_inclusive >= addr {
                proof {
                    lemma_segment_of(self@, addr);
                    assert(self@[i as int].contains(addr));
                }
                return i;
            }
            i += 1;
        }
        proof {
            lemma_segment_of(self@, addr);
            assert(false);
        }
        0
    }
}

/// A read leaves the layout of the map as it was, and a well-formed map
/// well-formed.
pub proof fn lemma_read_keeps_layout<P: MemoryMappedDevice>(m: Seq<SegmentModel<P::V>>, addr: u16)
    requires
        map_wf(m),
    ensures
        map_wf(map_read::<P>(m, addr).1),
        layout_of(map_read::<P>(m, addr).1) == layout_of(m),
{
    lemma_segment_of(m, addr);
    let after = map_read::<P>(m, addr).1;
    let i = segment_of(m, addr);
    assert forall|j: int| 0 <= j < after.len() implies (#[trigger] after[j]).layout()
        == m[j].layout() && after[j].fits() by {
        assert(m[j].fits());
    }
    assert forall|j: int| 0 <= j < after.len() - 1 implies (#[trigger] after[j + 1]).start
        == after[j].end_inclusive + 1 by {
        assert(m[j + 1].start == m[j].end_inclusive + 1);
    }
    assert forall|j: int| 0 <= j < after.len() implies (#[trigger] after[j]).start
        <= after[j].end_inclusive + 1 by {
        assert(m[j].start <= m[j].end_inclusive + 1);
    }
    assert(layout_of(after) =~= layout_of(m));
}

/// A write leaves the layout of the map as it was, and a well-formed map
/// well-formed.
pub proof fn lemma_write_keeps_layout<P: MemoryMappedDevice>(
    m: Seq<SegmentModel<P::V>>,
    addr: u16,
    val: u8,
)
    requires
        map_wf(m),
    ensures
        map_wf(map_write::<P>(m, addr, val)),
        layout_of(map_write::<P>(m, addr, val)) == layout_of(m),
{
    lemma_segment_of(m, addr);
    let after = map_write::<P>(m, addr, val);
    let i = segment_of(m, addr);
    assert forall|j: int| 0 <= j < after.len() implies (#[trigger] after[j]).layout()
        == m[j].layout() && after[j].fits() by {
        assert(m[j].fits());
    }
    assert forall|j: int| 0 <= j < after.len() - 1 implies (#[trigger] after[j + 1]).start
        == after[j].end_inclusive + 1 by {
        assert(m[j + 1].start == m[j].end_inclusive + 1);
    }
    assert forall|j: int| 0 <= j < after.len() implies (#[trigger] after[j]).start
        <= after[j].end_inclusive + 1 by {
        assert(m[j].start <= m[j].end_inclusive + 1);
    }
    assert(layout_of(after) =~= layout_of(m));
}

impl<P: MemoryMappedDevice> MemoryBus for MemoryMap<P> {
    open spec fn valid_model(state: Seq<SegmentModel<P::V>>) -> bool {
        map_wf(state)
    }

    open spec fn layout_model(state: Seq<SegmentModel<P::V>>) -> Seq<SegmentLayout> {
        layout_of(state)
    }

    open spec fn peek_model(state: Seq<SegmentModel<P::V>>, addr: u16) -> u8 {
        map_peek::<P>(state, addr)
    }

    open spec fn read_model(state: Seq<SegmentModel<P::V>>, addr: u16) -> (
        u8,
        Seq<SegmentModel<P::V>>,
    ) {
        map_read::<P>(state, addr)
    }

    open spec fn write_model(state: Seq<SegmentModel<P::V>>, addr: u16, val: u8) -> Seq<
        SegmentModel<P::V>,
    > {
        map_write::<P>(state, addr, val)
    }

    proof fn lemma_models_keep_layout(state: Seq<SegmentModel<P::V>>, addr: u16, val: u8) {
        lemma_read_keeps_layout::<P>(state, addr);
        lemma_write_keeps_layout::<P>(state, addr, val);
    }

    fn debug_byte(&self, addr: u16) -> (r: u8) {
        let i: usize = self.segment_index(addr);
        self.segments[i].device.read_byte(addr)
    }

    fn read_byte(&mut self, addr: u16) -> (r: u8) {
        let i: usize = self.segment_index(addr);
        proof {
            lemma_read_keeps_layout::<P>(self@, addr);
        }
        read_segment(&mut self.segments, i, addr)
    }

    fn write_byte(&mut self, addr: u16, val: u8) {
        let i: usize = self.segment_index(addr);
        proof {
            lemma_write_keeps_layout::<P>(self@, addr, val);
        }
        write_segment(&mut self.segments, i, addr, val);
    }
}

/// A normal read of the device of one segment.
fn read_segment<P: MemoryMappedDevice>(
    segments: &mut Vec<MemorySegment<P>>,
    i: usize,
    addr: u16,
) -> (r: u8)
    requires
        i < old(segments).len(),
    ensures
        r == device_read::<P>(old(segments)[i as int]@.device, addr).0,
        segment_models(final(segments)@) == segment_models(old(segments)@).update(
            i as int,
            old(segments)[i as int]@.with_device(
                device_read::<P>(old(segments)[i as int]@.device, addr).1,
            ),
        ),
{
    let r: u8 = segments[i].device.read_byte_mut(addr);
    proof {
        assert(segment_models(segments@) =~= segment_models(old(segments)@).update(
            i as int,
            old(segments)[i as int]@.with_device(
                device_read::<P>(old(segments)[i as int]@.device, addr).1,
            ),
        ));
    }
    r
}

/// A write to the device of one segment.
fn write_segment<P: MemoryMappedDevice>(
    segments: &mut Vec<MemorySegment<P>>,
    i: usize,
    addr: u16,
    val: u8,
)
    requires
        i < old(segments).len(),
    ensures
        segment_models(final(segments)@) == segment_models(old(segments)@).update(
            i as int,
            old(segments)[i as int]@.with_device(
                device_write::<P>(old(segments)[i as int]@.device, addr, val),
            ),
        ),
{
    segments[i].device.write_byte(addr, val);
    proof {
        assert(segment_models(segments@) =~= segment_models(old(segments)@).update(
            i as int,
            old(segments)[i as int]@.with_device(
                device_write::<P>(old(segments)[i as int]@.device, addr, val),
            ),
        ));
    }
}

/// Why a memory map could not be built.
#[derive(Copy, Clone, Debug, PartialEq, Eq, Structural)]
pub enum MemoryMapError {
    /// RAM or ROM was given with its end before its start.
    InvalidRange,
    /// The given rom is not the right size for its address range.
    RomSize,
    /// A segment does not start where the one before it ends: there is a gap
    /// or an overlap.
    Gap,
    /// The segments do not reach the end of the address range.
    Coverage,
}

/// The model of a builder: the segments added so far, in address order, and
/// the first mistake that was made, if any.
pub struct BuilderModel<S> {
    pub segments: Seq<SegmentModel<S>>,
    pub error: Option<MemoryMapError>,
}

/// Where a segment that starts at `start` goes among segments in address
/// order: behind the last one that starts at or before it.
pub open spec fn sorted_position<S>(m: Seq<SegmentModel<S>>, start: u16) -> int
    decreases m.len(),
{
    if m.len() == 0 {
        0
    } else if m.last().start <= start {
        m.len() as int
    } else {
        sorted_position(m.drop_last(), start)
    }
}

/// Whether the segments are in address order.
pub open spec fn segments_sorted<S>(m: Seq<SegmentModel<S>>) -> bool {
    forall|i: int, j: int| 0 <= i <= j < m.len() ==> (#[trigger] m[i]).start <= (#[trigger] m[j]).start
}

/// Whether some segment holds the address.
pub open spec fn address_covered<S>(m: Seq<SegmentModel<S>>, addr: u16) -> bool {
    exists|i: int| 0 <= i < m.len() && (#[trigger] m[i]).contains(addr)
}

/// Whether segment `i` is in its place as far as it holds no address: its end
/// then lies directly before its start, and the segment behind it, in address
/// order, starts at the same address. A segment that holds addresses is
/// always in its place.
pub open spec fn segment_in_place<S>(m: Seq<SegmentModel<S>>, i: int) -> bool {
    m[i].is_empty() ==> m[i].end_inclusive + 1 == m[i].start && i + 1 < m.len() && m[i
        + 1].start == m[i].start
}

/// Whether the segments tile the address range 0x0000 to 0xFFFF exactly:
/// every address lies in one of them and in no other, and a segment that
/// holds no address lies at the start of the segment behind it.
pub open spec fn segments_tile<S>(m: Seq<SegmentModel<S>>) -> bool {
    &&& forall|i: int| 0 <= i < m.len() ==> #[trigger] segment_in_place(m, i)
    &&& forall|addr: u16| #[trigger] address_covered(m, addr)
    &&& forall|addr: u16, i: int, j: int|
        0 <= i < m.len() && 0 <= j < m.len() && #[trigger] m[i].contains(addr)
            && #[trigger] m[j].contains(addr) ==> i == j
}

/// Whether some segment, taken in address order, does not start where the
/// one before it ends, or the first does not start at address 0.
pub open spec fn segments_have_gap<S>(m: Seq<SegmentModel<S>>) -> bool {
    exists|i: int| 0 <= i < m.len() && #[trigger] segment_misplaced(m, i)
}

/// Whether segment `i` does not start where segment `i - 1` ends.
pub open spec fn segment_misplaced<S>(m: Seq<SegmentModel<S>>, i: int) -> bool {
    m[i].start != (if i == 0 {
        0
    } else {
        m[i - 1].end_inclusive + 1
    })
}

impl<S> BuilderModel<S> {
    /// Whether the builder is in a state that its functions lead to.
    pub open spec fn wf(self) -> bool {
        &&& segments_sorted(self.segments)
        &&& forall|i: int| 0 <= i < self.segments.len() ==> (#[trigger] self.segments[i]).fits()
    }

    /// The builder after it was told of a mistake: the first one stays.
    pub open spec fn fail(self, error: MemoryMapError) -> BuilderModel<S> {
        if self.error is Some {
            self
        } else {
            BuilderModel { error: Some(error), ..self }
        }
    }

    /// The builder after a segment was added, whatever its range is: the
    /// segment stands behind the segments that start at or before its start.
    pub open spec fn add(self, segment: SegmentModel<S>) -> BuilderModel<S> {
        BuilderModel {
            segments: self.segments.insert(
                sorted_position(self.segments, segment.start),
                segment,
            ),
            ..self
        }
    }

    /// What keeps the builder from building, if anything: the first mistake
    /// made while adding, else a gap or an overlap, else an end before 0xFFFF.
    pub open spec fn build_error(self) -> Option<MemoryMapError> {
        if self.error is Some {
            self.error
        } else if segments_have_gap(self.segments) {
            Some(MemoryMapError::Gap)
        } else if self.segments.len() == 0 || self.segments.last().end_inclusive != 0xFFFF {
            Some(MemoryMapError::Coverage)
        } else {
            None
        }
    }
}

/// The model of RAM that was just made: zeros from `start` to `end_inclusive`.
pub open spec fn fresh_ram<S>(start: u16, end_inclusive: u16) -> SegmentModel<S> {
    SegmentModel {
        start: start,
        end_inclusive: end_inclusive,
        requires_step: false,
        device: DeviceModel::Ram(
            BlockModel {
                start: start,
                bytes: Seq::new((end_inclusive - start + 1) as nat, |i: int| 0u8),
            },
        ),
    }
}

/// The model of ROM that holds `data` from `start` on.
pub open spec fn fresh_rom<S>(start: u16, end_inclusive: u16, data: Seq<u8>) -> SegmentModel<S> {
    SegmentModel {
        start: start,
        end_inclusive: end_inclusive,
        requires_step: false,
        device: DeviceModel::Rom(BlockModel { start: start, bytes: data }),
    }
}

/// Builder interface for constructing a memory map
pub struct MemoryMapBuilder<P> {
    segments: Vec<MemorySegment<P>>,
    error: Option<MemoryMapError>,
}

impl<P: MemoryMappedDevice> View for MemoryMapBuilder<P> {
    type V = BuilderModel<P::V>;

    closed spec fn view(&self) -> BuilderModel<P::V> {
        BuilderModel { segments: segment_models(self.segments@), error: self.error }
    }
}

/// Where the segment goes lies within the sequence, and the sequence with the
/// segment there is in address order again.
pub proof fn lemma_sorted_insert<S>(m: Seq<SegmentModel<S>>, segment: SegmentModel<S>)
    requires
        segments_sorted(m),
    ensures
        0 <= sorted_position(m, segment.start) <= m.len(),
        forall|i: int| 0 <= i < sorted_position(m, segment.start) ==> (#[trigger] m[i]).start <= segment.start,
        forall|i: int| sorted_position(m, segment.start) <= i < m.len() ==> (#[trigger] m[i]).start > segment.start,
        segments_sorted(m.insert(sorted_position(m, segment.start), segment)),
    decreases m.len(),
{
    let pos = sorted_position(m, segment.start);
    if m.len() == 0 {
    } else if m.last().start <= segment.start {
        assert forall|i: int| 0 <= i < pos implies (#[trigger] m[i]).start <= segment.start by {
            assert(m[i].start <= m[m.len() - 1].start);
        }
    } else {
        let shorter = m.drop_last();
        assert forall|i: int, j: int| 0 <= i <= j < shorter.len() implies (#[trigger] shorter[i]).start <= (#[trigger] shorter[j]).start by {
            assert(m[i].start <= m[j].start);
        }
        lemma_sorted_insert(shorter, segment);
        assert forall|i: int| 0 <= i < pos implies (#[trigger] m[i]).start <= segment.start by {
            assert(shorter[i].start <= segment.start);
        }
        assert forall|i: int| pos <= i < m.len() implies (#[trigger] m[i]).start > segment.start by {
            if i < shorter.len() {
                assert(shorter[i].start > segment.start);
            }
        }
    }
    let after = m.insert(pos, segment);
    assert forall|i: int, j: int| 0 <= i <= j < after.len() implies (#[trigger] after[i]).start <= (#[trigger] after[j]).start by {
        if i < pos && j < pos {
            assert(m[i].start <= m[j].start);
        } else if i < pos && j == pos {
            assert(m[i].start <= segment.start);
        } else if i < pos && j > pos {
            assert(m[i].start <= segment.start);
            assert(m[j - 1].start > segment.start);
        } else if i == pos && j > pos {
            assert(m[j - 1].start > segment.start);
        } else if i > pos {
            assert(m[i - 1].start <= m[j - 1].start);
        }
    }
}

impl<P: MemoryMappedDevice> MemoryMapBuilder<P> {
    /// Whether the builder is in a state that its functions lead to.
    pub open spec fn wf(&self) -> bool {
        self@.wf()
    }

    /// Creates a new builder
    pub fn new() -> (r: MemoryMapBuilder<P>)
        ensures
            r.wf(),
            r@.segments.len() == 0,
            r@.error is None,
    {
        MemoryMapBuilder { segments: Vec::new(), error: None }
    }

    fn fail(self, error: MemoryMapError) -> (r: MemoryMapBuilder<P>)
        requires
            self.wf(),
        ensures
            r.wf(),
            r@ == self@.fail(error),
    {
        let mut builder = self;
        if builder.error.is_none() {
            builder.error = Some(error);
        }
        builder
    }

    fn add(self, segment: MemorySegment<P>) -> (r: MemoryMapBuilder<P>)
        requires
            self.wf(),
            segment@.fits(),
        ensures
            r.wf(),
            r@ == self@.add(segment@),
    {
        let mut builder = self;
        let mut pos: usize = builder.segments.len();
        proof {
            assert(self@.segments.take(pos as int) =~= self@.segments);
        }
        while pos > 0 && builder.segments[pos - 1].start > segment.start
            invariant
                pos <= builder.segments.len(),
                builder == self,
                sorted_position(self@.segments, segment@.start) == sorted_position(
                    self@.segments.take(pos as int),
                    segment@.start,
                ),
            decreases pos,
        {
            proof {
                let prefix = self@.segments.take(pos as int);
                assert(prefix.last() == self@.segments[pos - 1]);
                assert(prefix.drop_last() =~= self@.segments.take(pos - 1));
            }
            pos -= 1;
        }
        proof {
            let prefix = self@.segments.take(pos as int);
            if pos > 0 {
                assert(prefix.last() == self@.segments[pos - 1]);
            }
            assert(sorted_position(prefix, segment@.start) == pos);
            lemma_sorted_insert(self@.segments, segment@);
        }
        let ghost seg = segment@;
        builder.segments.insert(pos, segment);
        proof {
            let after = self@.segments.insert(pos as int, seg);
            assert(segment_models(builder.segments@) =~= after);
            assert forall|i: int| 0 <= i < after.len() implies (#[trigger] after[i]).fits() by {
                if i < pos {
                    assert(self@.segments[i].fits());
                } else if i > pos {
                    assert(self@.segments[i - 1].fits());
                }
            }
        }
        builder
    }

    /// Adds RAM to the memory map: zeros from `start` to `end_inclusive`. The
    /// end must not lie before the start; [`MemoryMapBuilder::try_ram`] tests
    /// that.
    pub fn ram(self, start: u16, end_inclusive: u16) -> (r: MemoryMapBuilder<P>)
        requires
            self.wf(),
            start <= end_inclusive,
        ensures
            r.wf(),
            r@ == self@.add(fresh_ram(start, end_inclusive)),
    {
        let length: usize = (end_inclusive as usize + 1) - start as usize;
        self.peripheral_device(start, end_inclusive, Device::Ram(RAMDevice::new(start, length)))
    }

    /// Adds RAM to the memory map if the range is one: a range whose end lies
    /// before its start is a mistake, which stays with the builder, and no
    /// RAM is added for it.
    pub fn try_ram(self, start: u16, end_inclusive: u16) -> (r: MemoryMapBuilder<P>)
        requires
            self.wf(),
        ensures
            r.wf(),
            r@ == (if end_inclusive < start {
                self@.fail(MemoryMapError::InvalidRange)
            } else {
                self@.add(fresh_ram(start, end_inclusive))
            }),
    {
        if end_inclusive < start {
            return self.fail(MemoryMapError::InvalidRange);
        }
        self.ram(start, end_inclusive)
    }

    /// Adds ROM to the memory map. The end must not lie before the start, and
    /// the data must have a byte for each address of the range;
    /// [`MemoryMapBuilder::try_rom`] tests both.
    pub fn rom(self, start: u16, end_inclusive: u16, data: Vec<u8>) -> (r: MemoryMapBuilder<P>)
        requires
            self.wf(),
            start <= end_inclusive,
            data.len() == end_inclusive - start + 1,
        ensures
            r.wf(),
            r@ == self@.add(fresh_rom(start, end_inclusive, data@)),
    {
        self.peripheral_device(start, end_inclusive, Device::Rom(ROMDevice::new(start, data)))
    }

    /// Adds ROM to the memory map if the range is one and the data has a byte
    /// for each of its addresses. A range whose end lies before its start is
    /// a mistake, and so is data of another length; the mistake stays with the
    /// builder, and no ROM is added.
    pub fn try_rom(self, start: u16, end_inclusive: u16, data: Vec<u8>) -> (r: MemoryMapBuilder<
        P,
    >)
        requires
            self.wf(),
        ensures
            r.wf(),
            r@ == (if end_inclusive < start {
                self@.fail(MemoryMapError::InvalidRange)
            } else if data.len() != end_inclusive - start + 1 {
                self@.fail(MemoryMapError::RomSize)
            } else {
                self@.add(fresh_rom(start, end_inclusive, data@))
            }),
    {
        if end_inclusive < start {
            return self.fail(MemoryMapError::InvalidRange);
        }
        let length: usize = (end_inclusive as usize + 1) - start as usize;
        if length != data.len() {
            return self.fail(MemoryMapError::RomSize);
        }
        self.rom(start, end_inclusive, data)
    }

    /// Adds a peripheral to the memory map, whatever the range is: whether
    /// the segments cover the address space is seen when the map is built. The
    /// device is asked once, here, whether it needs steps.
    pub fn peripheral(self, start: u16, end_inclusive: u16, device: P) -> (r: MemoryMapBuilder<P>)
        requires
            self.wf(),
        ensures
            r.wf(),
            r@ == self@.add(
                SegmentModel {
                    start: start,
                    end_inclusive: end_inclusive,
                    requires_step: P::needs_step(),
                    device: DeviceModel::Peripheral(device@),
                },
            ),
    {
        let segment = MemorySegment::new(start, end_inclusive, Device::Peripheral(device));
        self.add(segment)
    }

    fn peripheral_device(self, start: u16, end_inclusive: u16, device: Device<P>) -> (r:
        MemoryMapBuilder<P>)
        requires
            self.wf(),
            !(device is Peripheral),
            (SegmentModel::<P::V> {
                start: start,
                end_inclusive: end_inclusive,
                requires_step: false,
                device: device@,
            }).fits(),
        ensures
            r.wf(),
            r@ == self@.add(
                SegmentModel {
                    start: start,
                    end_inclusive: end_inclusive,
                    requires_step: false,
                    device: device@,
                },
            ),
    {
        let segment = MemorySegment::new(start, end_inclusive, device);
        self.add(segment)
    }
}

/// Behind a segment that holds no address, or in its place, stands a segment
/// that holds addresses and starts at the same address.
proof fn lemma_segment_behind<S>(m: Seq<SegmentModel<S>>, i: int) -> (j: int)
    requires
        forall|k: int| 0 <= k < m.len() ==> #[trigger] segment_in_place(m, k),
        0 <= i < m.len(),
    ensures
        i <= j < m.len(),
        !m[j].is_empty(),
        m[j].start == m[i].start,
    decreases m.len() - i,
{
    assert(segment_in_place(m, i));
    if m[i].is_empty() {
        lemma_segment_behind(m, i + 1)
    } else {
        i
    }
}

/// Segments in address order that tile the address range lie end to start,
/// from address 0 to address 0xFFFF.
pub proof fn lemma_tiling_is_gapless<S>(m: Seq<SegmentModel<S>>)
    requires
        segments_sorted(m),
        segments_tile(m),
    ensures
        m.len() > 0,
        !segments_have_gap(m),
        m.last().end_inclusive == 0xFFFF,
{
    assert(address_covered(m, 0));
    let first = choose|i: int| 0 <= i < m.len() && (#[trigger] m[i]).contains(0);
    assert(m[0].start <= m[first].start);
    assert(address_covered(m, 0xFFFF));
    let top = choose|i: int| 0 <= i < m.len() && (#[trigger] m[i]).contains(0xFFFF);
    let last = m.len() - 1;
    assert(segment_in_place(m, last));
    assert(m[top].start <= m[last].start);
    assert(m[top].contains(m[last].start) && m[last].contains(m[last].start));
    assert forall|i: int| 0 <= i < m.len() implies !segment_misplaced(m, i) by {
        if i > 0 {
            let e = m[i - 1].end_inclusive;
            let s = m[i].start;
            assert(m[i - 1].start <= m[i].start);
            assert(segment_in_place(m, i - 1));
            if !m[i - 1].is_empty() {
                let behind = lemma_segment_behind(m, i);
                if s <= e {
                    assert(m[i - 1].contains(s) && m[behind].contains(s));
                } else if s > e + 1 {
                    let a = (e + 1) as u16;
                    assert(address_covered(m, a));
                    let k = choose|k: int| 0 <= k < m.len() && (#[trigger] m[k]).contains(a);
                    if k >= i {
                        assert(m[i].start <= m[k].start);
                    } else if k < i - 1 {
                        assert(m[k].start <= m[i - 1].start);
                        assert(m[k].contains(m[i - 1].start) && m[i - 1].contains(
                            m[i - 1].start,
                        ));
                    }
                }
            }
        }
    }
}

/// Segments in address order that lie end to start from address 0 to address
/// 0xFFFF tile the address range.
pub proof fn lemma_gapless_is_tiling<S>(m: Seq<SegmentModel<S>>)
    requires
        m.len() > 0,
        segments_sorted(m),
        forall|i: int| 0 <= i < m.len() ==> (#[trigger] m[i]).fits(),
        !segments_have_gap(m),
        m.last().end_inclusive == 0xFFFF,
    ensures
        map_wf(m),
        segments_tile(m),
{
    assert(!segment_misplaced(m, 0));
    assert forall|i: int| 0 <= i < m.len() - 1 implies (#[trigger] m[i + 1]).start
        == m[i].end_inclusive + 1 by {
        assert(!segment_misplaced(m, i + 1));
    }
    assert forall|i: int| 0 <= i < m.len() implies (#[trigger] m[i]).start <= m[i].end_inclusive
        + 1 by {
        if i < m.len() - 1 {
            assert(m[i].start <= m[i + 1].start);
            assert(!segment_misplaced(m, i + 1));
        }
    }
    assert forall|i: int| 0 <= i < m.len() implies #[trigger] segment_in_place(m, i) by {
        if i < m.len() - 1 {
            assert(m[i].start <= m[i + 1].start);
            assert(!segment_misplaced(m, i + 1));
        }
    }
    assert forall|addr: u16| #[trigger] address_covered(m, addr) by {
        lemma_segment_of(m, addr);
    }
    assert forall|addr: u16, i: int, j: int|
        0 <= i < m.len() && 0 <= j < m.len() && #[trigger] m[i].contains(addr)
            && #[trigger] m[j].contains(addr) implies i == j by {
        lemma_segment_of(m, addr);
    }
}

/// A builder stands the test of [`MemoryMapBuilder::try_build`] if and only if
/// no mistake was made while adding and its segments tile the address range
/// 0x0000 to 0xFFFF exactly.
pub proof fn lemma_build_succeeds_iff_tiled<S>(builder: BuilderModel<S>)
    requires
        builder.wf(),
    ensures
        builder.build_error() is None <==> builder.error is None && segments_tile(
            builder.segments,
        ),
{
    if builder.error is None {
        if segments_tile(builder.segments) {
            lemma_tiling_is_gapless(builder.segments);
        }
        if builder.build_error() is None {
            lemma_gapless_is_tiling(builder.segments);
        }
    }
}

impl<P: MemoryMappedDevice> MemoryMapBuilder<P> {
    /// Constructs the memory map from segments that cover the entire address
    /// space with no gap and no overlap, after no mistake was made while
    /// they were added. [`MemoryMapBuilder::try_build`] tests both.
    pub fn build(self) -> (r: MemoryMap<P>)
        requires
            self.wf(),
            self@.error is None,
            segments_tile(self@.segments),
        ensures
            r.wf(),
            r@ == self@.segments,
    {
        proof {
            lemma_tiling_is_gapless(self@.segments);
            lemma_gapless_is_tiling(self@.segments);
        }
        MemoryMap::new(self.segments)
    }

    /// Validates the configured memory segments and constructs the memory
    /// map if they stand the test. Checks for
    /// gaps and overlaps in the configured memory segments.
    /// Also verifies the entire address space is covered by
    /// devices.
    pub fn try_build(self) -> (r: Result<MemoryMap<P>, MemoryMapError>)
        requires
            self.wf(),
        ensures
            match r {
                Ok(map) => self@.build_error() is None && map.wf() && map@ == self@.segments,
                Err(error) => self@.build_error() == Some(error),
            },
            r is Ok <==> self@.error is None && segments_tile(self@.segments),
    {
        proof {
            lemma_build_succeeds_iff_tiled(self@);
        }
        if let Some(error) = self.error {
            return Err(error);
        }
        let n: usize = self.segments.len();
        let mut address: usize = 0;
        let mut i: usize = 0;
        while i < n
            invariant
                self.wf(),
                self@.error is None,
                self@.build_error() is None <==> self@.error is None && segments_tile(
                    self@.segments,
                ),
                n == self.segments.len(),
                i <= n,
                address <= 0x10000,
                address == (if i == 0 {
                    0
                } else {
                    self@.segments[i - 1].end_inclusive + 1
                }),
                forall|j: int| 0 <= j < i ==> !segment_misplaced(self@.segments, j),
            decreases n - i,
        {
            if address != self.segments[i].start as usize {
                proof {
                    assert(segment_misplaced(self@.segments, i as int));
                }
                return Err(MemoryMapError::Gap);
            }
            address = self.segments[i].end_inclusive as usize + 1;
            i += 1;
        }
        if address != 0x10000 {
            return Err(MemoryMapError::Coverage);
        }
        Ok(self.build())
    }
}

impl<P: MemoryMappedDevice> MemoryMap<P> {
    fn new(segments: Vec<MemorySegment<P>>) -> (r: MemoryMap<P>)
        requires
            map_wf(segment_models(segments@)),
        ensures
            r.wf(),
            r@ == segment_models(segments@),
    {
        MemoryMap { segments: segments }
    }

    /// Returns a new builder for to create a new memory map
    pub fn builder() -> (r: MemoryMapBuilder<P>)
        ensures
            r.wf(),
            r@.segments.len() == 0,
            r@.error is None,
    {
        MemoryMapBuilder::new()
    }
}

/// Whether no device of the map is ever stepped.
pub open spec fn map_is_passive<S>(m: Seq<SegmentModel<S>>) -> bool {
    forall|i: int| 0 <= i < m.len() ==> !(#[trigger] m[i]).requires_step
}

/// Exchanges the device of one segment with the given one.
fn swap_device<P: MemoryMappedDevice>(
    segments: &mut Vec<MemorySegment<P>>,
    i: usize,
    device: &mut Device<P>,
)
    requires
        i < old(segments).len(),
    ensures
        *final(device) == old(segments)[i as int].device,
        segment_models(final(segments)@) == segment_models(old(segments)@).update(
            i as int,
            old(segments)[i as int]@.with_device(old(device)@),
        ),
{
    core::mem::swap(device, &mut segments[i].device);
    proof {
        assert(segment_models(segments@) =~= segment_models(old(segments)@).update(
            i as int,
            old(segments)[i as int]@.with_device(old(device)@),
        ));
    }
}

/// With another device in one segment, a well-formed map stays well-formed
/// if the device fits the segment; the layout changes in that segment only.
proof fn lemma_swap_keeps_wf<S>(m: Seq<SegmentModel<S>>, i: int, device: DeviceModel<S>)
    requires
        map_wf(m),
        0 <= i < m.len(),
        m[i].with_device(device).fits(),
    ensures
        map_wf(m.update(i, m[i].with_device(device))),
        layout_of(m.update(i, m[i].with_device(device))) == layout_of(m).update(
            i,
            m[i].with_device(device).layout(),
        ),
{
    let after = m.update(i, m[i].with_device(device));
    assert forall|j: int| 0 <= j < after.len() implies (#[trigger] after[j]).start
        <= after[j].end_inclusive + 1 && after[j].fits() by {
        assert(m[j].start <= m[j].end_inclusive + 1);
        assert(m[j].fits());
    }
    assert forall|j: int| 0 <= j < after.len() - 1 implies (#[trigger] after[j + 1]).start
        == after[j].end_inclusive + 1 by {
        assert(m[j + 1].start == m[j].end_inclusive + 1);
    }
    assert(layout_of(after) =~= layout_of(m).update(i, m[i].with_device(device).layout()));
}

/// What stepping the devices from segment `i` on returns and leaves, when
/// `recorded` is the interrupt that the devices before it have asked for.
/// The map has `n` segments. A device that is stepped sees the map with the
/// null device in its own segment; what it leaves of the map is what the
/// next device sees, with the device back in its segment.
pub open spec fn map_step_from<P: SteppedDevice<MemoryMap<P>>>(
    m: Seq<SegmentModel<P::V>>,
    i: int,
    n: int,
    recorded: Option<InterruptType>,
) -> (Option<InterruptType>, Seq<SegmentModel<P::V>>)
    decreases n - i,
{
    if i >= n {
        (recorded, m)
    } else if !m[i].requires_step {
        map_step_from::<P>(m, i + 1, n, recorded)
    } else {
        match m[i].device {
            DeviceModel::Peripheral(state) => {
                let stepped = P::step_model(
                    state,
                    m.update(i, m[i].with_device(DeviceModel::Null)),
                );
                map_step_from::<P>(
                    stepped.2.update(
                        i,
                        stepped.2[i].with_device(DeviceModel::Peripheral(stepped.1)),
                    ),
                    i + 1,
                    n,
                    InterruptType::spec_merge(recorded, stepped.0),
                )
            },
            _ => map_step_from::<P>(m, i + 1, n, recorded),
        }
    }
}

/// What a step of the map returns and leaves: the devices that ask for steps
/// are stepped in ascending address order, and of the interrupts that they
/// ask for one is left, as [`InterruptType::spec_merge`] says.
pub open spec fn map_step<P: SteppedDevice<MemoryMap<P>>>(m: Seq<SegmentModel<P::V>>) -> (
    Option<InterruptType>,
    Seq<SegmentModel<P::V>>,
) {
    map_step_from::<P>(m, 0, m.len() as int, None)
}

/// A step leaves a map in which no device is ever stepped as it is, and
/// returns no interrupt.
pub proof fn lemma_passive_step<P: SteppedDevice<MemoryMap<P>>>(
    m: Seq<SegmentModel<P::V>>,
    i: int,
    recorded: Option<InterruptType>,
)
    requires
        map_is_passive(m),
        0 <= i <= m.len(),
    ensures
        map_step_from::<P>(m, i, m.len() as int, recorded) == (recorded, m),
    decreases m.len() - i,
{
    if i < m.len() {
        assert(!m[i].requires_step);
        lemma_passive_step::<P>(m, i + 1, recorded);
    }
}

/// Stepping the devices leads from a well-formed map to a well-formed map of
/// the same layout.
pub proof fn lemma_map_step_keeps_layout<P: SteppedDevice<MemoryMap<P>>>(
    m: Seq<SegmentModel<P::V>>,
    i: int,
    recorded: Option<InterruptType>,
)
    requires
        map_wf(m),
        0 <= i <= m.len(),
    ensures
        map_wf(map_step_from::<P>(m, i, m.len() as int, recorded).1),
        layout_of(map_step_from::<P>(m, i, m.len() as int, recorded).1) == layout_of(m),
    decreases m.len() - i,
{
    if i < m.len() {
        if !m[i].requires_step {
            lemma_map_step_keeps_layout::<P>(m, i + 1, recorded);
        } else {
            match m[i].device {
                DeviceModel::Peripheral(state) => {
                    let with_null = m.update(i, m[i].with_device(DeviceModel::Null));
                    lemma_swap_keeps_wf(m, i, DeviceModel::Null);
                    P::lemma_step_keeps_layout(state, with_null);
                    let stepped = P::step_model(state, with_null);
                    assert(layout_of(stepped.2).len() == stepped.2.len());
                    assert(layout_of(with_null).len() == with_null.len());
                    assert(layout_of(stepped.2)[i] == stepped.2[i].layout());
                    assert(layout_of(with_null)[i] == with_null[i].layout());
                    assert(layout_of(m)[i] == m[i].layout());
                    lemma_swap_keeps_wf(stepped.2, i, DeviceModel::Peripheral(stepped.1));
                    let restored = stepped.2.update(
                        i,
                        stepped.2[i].with_device(DeviceModel::Peripheral(stepped.1)),
                    );
                    assert(layout_of(restored) =~= layout_of(m));
                    lemma_map_step_keeps_layout::<P>(
                        restored,
                        i + 1,
                        InterruptType::spec_merge(recorded, stepped.0),
                    );
                },
                _ => {
                    lemma_map_step_keeps_layout::<P>(m, i + 1, recorded);
                },
            }
        }
    }
}

impl<P: SteppedDevice<MemoryMap<P>>> MemoryMap<P> {
    /// Updates all attached peripherals, in ascending address order. This
    /// should get called by the Cpu.
    ///
    /// While a device is stepped, the null device answers in its segment, so
    /// that the device reaches all of the memory but itself. Of the
    /// interrupts that the devices request, one is returned: see
    /// [`InterruptType::spec_merge`].
    pub fn step(&mut self) -> (r: Option<InterruptType>)
        requires
            old(self).wf(),
        ensures
            final(self).wf(),
            (r, final(self)@) == map_step::<P>(old(self)@),
            layout_of(final(self)@) == layout_of(old(self)@),
            map_is_passive(old(self)@) ==> r is None && final(self)@ == old(self)@,
    {
        let mut result: Option<InterruptType> = None;
        let n: usize = self.segments.len();
        let mut i: usize = 0;
        proof {
            if map_is_passive(self@) {
                lemma_passive_step::<P>(self@, 0, None);
            }
        }
        while i < n
            invariant
                n == self.segments.len(),
                n == old(self)@.len(),
                i <= n,
                self.wf(),
                layout_of(self@) == layout_of(old(self)@),
                map_step_from::<P>(self@, i as int, n as int, result) == map_step::<P>(old(self)@),
            decreases n - i,
        {
            if self.segments[i].requires_step {
                let ghost before = self@;
                proof {
                    assert(before.len() == n);
                    assert(layout_of(before).len() == before.len());
                    assert(layout_of(old(self)@).len() == old(self)@.len());
                    assert(before[i as int].requires_step);
                    assert(layout_of(before)[i as int] == before[i as int].layout());
                    assert(layout_of(old(self)@)[i as int] == old(self)@[i as int].layout());
                    assert(before[i as int].fits());
                    lemma_swap_keeps_wf(before, i as int, DeviceModel::Null);
                }
                // Swap in a null device in place of the device we're stepping
                let mut current: Device<P> = Device::Null(NullDevice::new());
                swap_device(&mut self.segments, i, &mut current);
                let ghost swapped = self@;
                let ghost taken = current@;
                // Step the device
                let interrupt: Option<InterruptType> = match &mut current {
                    Device::Peripheral(p) => p.step(self),
                    _ => None,
                };
                result = InterruptType::merge(result, interrupt);
                let ghost stepped = self@;
                proof {
                    assert(layout_of(stepped).len() == stepped.len());
                    assert(layout_of(swapped).len() == swapped.len());
                    assert(layout_of(stepped)[i as int] == stepped[i as int].layout());
                    assert(layout_of(swapped)[i as int] == swapped[i as int].layout());
                    assert(current@.kind() == taken.kind());
                    assert(stepped[i as int].with_device(current@).fits());
                    lemma_swap_keeps_wf(stepped, i as int, current@);
                    assert(layout_of(stepped).update(
                        i as int,
                        stepped[i as int].with_device(current@).layout(),
                    ) =~= layout_of(before));
                    if !(taken is Peripheral) {
                        assert(stepped.update(i as int, stepped[i as int].with_device(current@))
                            =~= before);
                    }
                }
                // Swap the device back into the list so it can be accessed
                // for the next device's step
                swap_device(&mut self.segments, i, &mut current);
            }
            i += 1;
        }
        result
    }
}

/// A non-mutable view into a memory map: the debug reads.
pub struct DebugMemoryView<'a, P: MemoryMappedDevice> {
    pub map: &'a MemoryMap<P>,
}

impl<'a, P: MemoryMappedDevice> View for DebugMemoryView<'a, P> {
    type V = Seq<SegmentModel<P::V>>;

    open spec fn view(&self) -> Seq<SegmentModel<P::V>> {
        self.map@
    }
}

impl<'a, P: MemoryMappedDevice> ReadMemory for DebugMemoryView<'a, P> {
    open spec fn valid(state: Seq<SegmentModel<P::V>>) -> bool {
        map_wf(state)
    }

    open spec fn peek(state: Seq<SegmentModel<P::V>>, addr: u16) -> u8 {
        map_peek::<P>(state, addr)
    }

    fn byte(&self, addr: u16) -> (r: u8) {
        self.map.debug_byte(addr)
    }

    fn word(&self, addr: u16) -> (r: u16) {
        let lsb: u8 = self.map.debug_byte(addr);
        let msb: u8 = self.map.debug_byte(addr.wrapping_add(1));
        make_word(lsb, msb)
    }

    fn word_zero_page(&self, addr: u8) -> (r: u16) {
        let lsb: u8 = self.map.debug_byte(addr as u16);
        let msb: u8 = self.map.debug_byte(addr.wrapping_add(1) as u16);
        make_word(lsb, msb)
    }

    fn dma_slice(&self, into: &mut [u8], dma_addr: u16) {
        let n: usize = into.len();
        let mut i: usize = 0;
        let mut addr: u16 = dma_addr;
        while i < n
            invariant
                i <= n,
                self.map.wf(),
                addr == (dma_addr + i) % 0x10000,
                into@.len() == n,
                n == old(into)@.len(),
                forall|j: int|
                    0 <= j < i ==> into@[j] == map_peek::<P>(
                        self.map@,
                        ((dma_addr + j) % 0x10000) as u16,
                    ),
            decreases n - i,
        {
            into[i] = self.map.debug_byte(addr);
            addr = addr.wrapping_add(1);
            i += 1;
        }
        proof {
            assert(into@ =~= Seq::new(
                n as nat,
                |i: int| map_peek::<P>(self.map@, ((dma_addr + i) % 0x10000) as u16),
            ));
        }
    }
}

/// A mutable view into a memory map: the normal reads.
pub struct NormalMemoryView<'a, P: MemoryMappedDevice> {
    pub map: &'a mut MemoryMap<P>,
}

impl<'a, P: MemoryMappedDevice> View for NormalMemoryView<'a, P> {
    type V = Seq<SegmentModel<P::V>>;

    open spec fn view(&self) -> Seq<SegmentModel<P::V>> {
        self.map@
    }
}

impl<'a, P: MemoryMappedDevice> ReadMemoryMut for NormalMemoryView<'a, P> {
    open spec fn valid(state: Seq<SegmentModel<P::V>>) -> bool {
        map_wf(state)
    }

    open spec fn read(state: Seq<SegmentModel<P::V>>, addr: u16) -> (
        u8,
        Seq<SegmentModel<P::V>>,
    ) {
        map_read::<P>(state, addr)
    }

    fn byte(&mut self, addr: u16) -> (r: u8)
        ensures
            *final(final(self).map) == *final(old(self).map),
    {
        self.map.read_byte(addr)
    }

    fn word(&mut self, addr: u16) -> (r: u16)
        ensures
            *final(final(self).map) == *final(old(self).map),
    {
        read_word(self.map, addr)
    }

    fn word_zero_page(&mut self, addr: u8) -> (r: u16)
        ensures
            *final(final(self).map) == *final(old(self).map),
    {
        read_word_zero_page(self.map, addr)
    }

    fn dma_slice(&mut self, into: &mut [u8], dma_addr: u16)
        ensures
            (final(into)@, final(self)@) == read_slice_model::<MemoryMap<P>>(
                old(self)@,
                dma_addr,
                old(into)@.len(),
            ),
            *final(final(self).map) == *final(old(self).map),
    {
        proof {
            lemma_read_slice_with_bus::<MemoryMap<P>>(
                |state: Seq<SegmentModel<P::V>>, addr: u16| Self::read(state, addr),
                self@,
                dma_addr,
                into@.len(),
            );
        }
        read_slice(self.map, into, dma_addr)
    }
}

/// A mutable view into a memory map: the writes.
pub struct WriteMemoryView<'a, P: MemoryMappedDevice> {
    pub map: &'a mut MemoryMap<P>,
}

impl<'a, P: MemoryMappedDevice> View for WriteMemoryView<'a, P> {
    type V = Seq<SegmentModel<P::V>>;

    open spec fn view(&self) -> Seq<SegmentModel<P::V>> {
        self.map@
    }
}

impl<'a, P: MemoryMappedDevice> WriteMemory for WriteMemoryView<'a, P> {
    open spec fn valid(state: Seq<SegmentModel<P::V>>) -> bool {
        map_wf(state)
    }

    open spec fn written(state: Seq<SegmentModel<P::V>>, addr: u16, val: u8) -> Seq<
        SegmentModel<P::V>,
    > {
        map_write::<P>(state, addr, val)
    }

    fn byte(&mut self, addr: u16, val: u8)
        ensures
            *final(final(self).map) == *final(old(self).map),
    {
        self.map.write_byte(addr, val)
    }
}

impl<P: MemoryMappedDevice> MemoryMap<P> {
    /// Returns a debug read view that won't affect the system when reading
    pub fn debug_read(&self) -> (view: DebugMemoryView<'_, P>)
        ensures
            *view.map == *self,
    {
        DebugMemoryView { map: self }
    }

    /// Returns a normal read view that may change peripheral state when reading their address ranges
    pub fn read(&mut self) -> (view: NormalMemoryView<'_, P>)
        ensures
            *view.map == *old(self),
            *final(self) == *final(view.map),
    {
        NormalMemoryView { map: self }
    }

    /// Returns a write view into memory
    pub fn write(&mut self) -> (view: WriteMemoryView<'_, P>)
        ensures
            *view.map == *old(self),
            *final(self) == *final(view.map),
    {
        WriteMemoryView { map: self }
    }
}

/// Whether the address lies in RAM.
pub open spec fn in_ram<S>(m: Seq<SegmentModel<S>>, addr: u16) -> bool {
    m[segment_of(m, addr)].device is Ram
}

/// Whether the address lies in ROM.
pub open spec fn in_rom<S>(m: Seq<SegmentModel<S>>, addr: u16) -> bool {
    m[segment_of(m, addr)].device is Rom
}

/// For any address in RAM, a write followed by a read returns the byte that
/// was written, and so does a debug read.
pub proof fn lemma_ram_read_after_write<P: MemoryMappedDevice>(
    m: Seq<SegmentModel<P::V>>,
    addr: u16,
    val: u8,
)
    requires
        map_wf(m),
        in_ram(m, addr),
    ensures
        map_read::<P>(map_write::<P>(m, addr, val), addr).0 == val,
        map_peek::<P>(map_write::<P>(m, addr, val), addr) == val,
{
    lemma_segment_of(m, addr);
    let i = segment_of(m, addr);
    assert(m[i].fits());
    let after = map_write::<P>(m, addr, val);
    lemma_write_keeps_layout::<P>(m, addr, val);
    assert(after[i].contains(addr));
    lemma_segment_of(after, addr);
}

/// A write to an address in ROM changes nothing: every read returns what it
/// returned before.
pub proof fn lemma_rom_is_immutable<P: MemoryMappedDevice>(
    m: Seq<SegmentModel<P::V>>,
    addr: u16,
    val: u8,
)
    requires
        map_wf(m),
        in_rom(m, addr),
    ensures
        map_write::<P>(m, addr, val) == m,
{
    lemma_segment_of(m, addr);
    assert(map_write::<P>(m, addr, val) =~= m);
}

/// A write to RAM is seen at its own address only: a read of any other
/// address in RAM or ROM returns what it returned before.
pub proof fn lemma_ram_write_is_local<P: MemoryMappedDevice>(
    m: Seq<SegmentModel<P::V>>,
    addr: u16,
    val: u8,
    other: u16,
)
    requires
        map_wf(m),
        in_ram(m, addr),
        other != addr,
        in_ram(m, other) || in_rom(m, other),
    ensures
        map_peek::<P>(map_write::<P>(m, addr, val), other) == map_peek::<P>(m, other),
        map_read::<P>(map_write::<P>(m, addr, val), other).0 == map_read::<P>(m, other).0,
{
    lemma_segment_of(m, addr);
    lemma_segment_of(m, other);
    let i = segment_of(m, addr);
    let j = segment_of(m, other);
    assert(m[i].fits());
    assert(m[j].fits());
    let after = map_write::<P>(m, addr, val);
    lemma_write_keeps_layout::<P>(m, addr, val);
    assert(after[j].contains(other));
    lemma_segment_of(after, other);
}

/// A read of an address in RAM or ROM changes nothing.
pub proof fn lemma_plain_read_changes_nothing<P: MemoryMappedDevice>(
    m: Seq<SegmentModel<P::V>>,
    addr: u16,
)
    requires
        map_wf(m),
        in_ram(m, addr) || in_rom(m, addr),
    ensures
        map_read::<P>(m, addr).1 == m,
        map_read::<P>(m, addr).0 == map_peek::<P>(m, addr),
{
    lemma_segment_of(m, addr);
    assert(map_read::<P>(m, addr).1 =~= m);
}

impl<P: MemoryMappedDevice> MemoryMap<P> {
    /// The peripheral behind an address, if a peripheral is behind it.
    pub fn peripheral(&self, addr: u16) -> (r: Option<&P>)
        requires
            self.wf(),
        ensures
            match r {
                Some(device) => self@[segment_of(self@, addr)].device == DeviceModel::Peripheral(
                    device@,
                ),
                None => !(self@[segment_of(self@, addr)].device is Peripheral),
            },
    {
        let i: usize = self.segment_index(addr);
        match &self.segments[i].device {
            Device::Peripheral(device) => Some(device),
            _ => None,
        }
    }

    /// The peripheral behind an address, to be changed by the caller, if a
    /// peripheral is behind it.
    pub fn peripheral_mut(&mut self, addr: u16) -> (r: Option<&mut P>)
        requires
            old(self).wf(),
        ensures
            match r {
                Some(device) => {
                    let i = segment_of(old(self)@, addr);
                    &&& old(self)@[i].device == DeviceModel::Peripheral(device@)
                    &&& final(self)@ == old(self)@.update(
                        i,
                        old(self)@[i].with_device(DeviceModel::Peripheral(final(device)@)),
                    )
                },
                None => !(old(self)@[segment_of(old(self)@, addr)].device is Peripheral)
                    && final(self)@ == old(self)@,
            },
    {
        let i: usize = self.segment_index(addr);
        match &mut self.segments[i].device {
            Device::Peripheral(device) => Some(device),
            _ => None,
        }
    }
}

/// Whether the map holds no peripheral: every segment is RAM, ROM or the null
/// device.
pub open spec fn map_is_plain<S>(m: Seq<SegmentModel<S>>) -> bool {
    forall|i: int| 0 <= i < m.len() ==> !((#[trigger] m[i]).device is Peripheral)
}

/// In a map that holds no peripheral no read changes anything.
pub proof fn lemma_plain_map_reads_change_nothing<P: MemoryMappedDevice>(
    m: Seq<SegmentModel<P::V>>,
)
    requires
        map_wf(m),
        map_is_plain(m),
    ensures
        reads_change_nothing::<MemoryMap<P>>(m),
{
    assert forall|addr: u16| (#[trigger] map_read::<P>(m, addr)).1 == m by {
        lemma_segment_of(m, addr);
        assert(map_read::<P>(m, addr).1 =~= m);
    }
}

} // verus!
