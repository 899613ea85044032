//! What is decided when a PCIe function is registered: its identifier, the
//! base address registers that it decodes, and the windows of memory that
//! are opened for it.
//!
//! Nothing here touches the configuration space. The caller reads and writes
//! the registers and hands in what it read.

use vstd::prelude::*;
use crate::cache::CacheType;

verus! {

/// The number of base address registers in the header of a device.
pub const DEVICE_BARS: usize = 6;

/// The bits of a base address register that hold a memory address.
pub const BAR_ADDRESS_MASK: u32 = 0xffff_fff0;

/// The size of the configuration space of one function, in bytes.
pub const CONFIG_SPACE_SIZE: u64 = 0x1000;

/// The number of bytes of configuration space that one segment spans past
/// its start, as the windows of segments are laid out: bus 255, device 32,
/// function 8.
pub const SEGMENT_SPAN: u64 = 0x0ff0_8000;

/// The index under which the window of a function's configuration space is
/// opened.
pub const CONFIG_WINDOW_INDEX: u64 = 0xff;

/// The identifier of the function `function` of the device `device` on the
/// bus `bus` of the segment `seg`.
pub open spec fn device_id_of(seg: u16, bus: u8, device: u8, function: u8) -> u32 {
    ((seg as u32) << 16) | ((bus as u32) << 8) | ((device as u32) << 3) | (function as u32)
}

/// The identifier of the function `function` of the device `device` on the
/// bus `bus` of the segment `seg`.
pub fn device_id(seg: u16, bus: u8, device: u8, function: u8) -> (id: u32)
    ensures
        id == device_id_of(seg, bus, device, function),
{
    (seg as u32) << 16 | (bus as u32) << 8 | (device as u32) << 3 | function as u32
}

/// Where a function sits in its segment.
#[derive(Clone, Copy, Debug, PartialEq, Eq, Structural)]
pub struct DeviceLocation {
    pub bus: u8,
    pub device: u8,
    pub function: u8,
}

/// The location that the argument `arg` of a request to register a device
/// names: the bus in bits 16 to 23, the device in bits 8 to 15, the function
/// in bits 0 to 7.
pub open spec fn location_of(arg: u64) -> DeviceLocation {
    DeviceLocation {
        bus: ((arg >> 16) & 0xff) as u8,
        device: ((arg >> 8) & 0xff) as u8,
        function: (arg & 0xff) as u8,
    }
}

/// The location that the argument `arg` of a request to register a device
/// names.
pub fn unpack_location(arg: u64) -> (location: DeviceLocation)
    ensures
        location == location_of(arg),
{
    let bus = (arg >> 16) & 0xff;
    let device = (arg >> 8) & 0xff;
    let function = arg & 0xff;
    assert(bus <= 0xff && device <= 0xff && function <= 0xff) by (bit_vector)
        requires
            bus == (arg >> 16) & 0xff,
            device == (arg >> 8) & 0xff,
            function == arg & 0xff,
    ;
    DeviceLocation { bus: bus as u8, device: device as u8, function: function as u8 }
}

/// What one base address register decodes: where the region starts, how many
/// bytes it spans, and whether reads from it may be prefetched (1) or not
/// (0). A register that decodes no memory has all three zero.
#[derive(Clone, Copy, Debug, PartialEq, Eq, Structural)]
pub struct Bar {
    pub base: u64,
    pub size: u32,
    pub prefetch: u32,
}

/// What a register that decodes no memory stands for.
pub open spec fn no_bar() -> Bar {
    Bar { base: 0, size: 0, prefetch: 0 }
}

/// Whether a register with the value `info` decodes I/O ports, not memory.
pub open spec fn is_io_bar(info: u32) -> bool {
    info & 1 != 0
}

/// Whether a register with the value `info` is the lower half of a 64-bit
/// address, whose upper half is the next register.
pub open spec fn is_wide_bar(info: u32) -> bool {
    (info >> 1) & 3 == 2
}

/// The prefetch bit of a register with the value `info`.
pub open spec fn prefetch_of(info: u32) -> u32 {
    (info >> 3) & 1
}

/// The size of the region of a register that read back `readback` after all
/// ones were written to it: the two's complement of the address bits, so
/// zero where none of them stuck.
pub open spec fn size_of_readback(readback: u32) -> u32 {
    if readback & BAR_ADDRESS_MASK == 0 {
        0
    } else {
        (0x1_0000_0000 - (readback & BAR_ADDRESS_MASK)) as u32
    }
}

/// What a 32-bit memory register with the value `info` decodes, where it read
/// back `readback` when probed.
pub open spec fn narrow_bar(info: u32, readback: u32) -> Bar {
    Bar {
        base: (info as u64) & 0xffff_fff0,
        size: size_of_readback(readback),
        prefetch: prefetch_of(info),
    }
}

/// What a 64-bit memory register decodes: `info` is its lower half, which
/// read back `readback` when probed, and `upper` its upper half, of which the
/// bits under `upper_mask` are used. The size is that of the lower half
/// alone; whether the upper half adds to it is an open question.
pub open spec fn wide_bar(info: u32, readback: u32, upper: u32, upper_mask: u64) -> Bar {
    Bar {
        base: (((upper as u64) & upper_mask) << 32) | ((info as u64) & 0xffff_fff0),
        size: size_of_readback(readback),
        prefetch: prefetch_of(info),
    }
}

/// The size of the region of a register that read back `readback` after all
/// ones were written to it.
fn probe_size(readback: u32) -> (size: u32)
    ensures
        size == size_of_readback(readback),
{
    let masked = readback & BAR_ADDRESS_MASK;
    assert(!masked == 0xffff_ffff - masked) by (bit_vector);
    (!masked).wrapping_add(1)
}

fn make_narrow_bar(info: u32, readback: u32) -> (bar: Bar)
    ensures
        bar == narrow_bar(info, readback),
{
    Bar { base: info as u64 & 0xffff_fff0, size: probe_size(readback), prefetch: (info >> 3) & 1 }
}

fn make_wide_bar(info: u32, readback: u32, upper: u32, upper_mask: u64) -> (bar: Bar)
    ensures
        bar == wide_bar(info, readback, upper, upper_mask),
{
    Bar {
        base: ((upper as u64 & upper_mask) << 32) | info as u64 & 0xffff_fff0,
        size: probe_size(readback),
        prefetch: (info >> 3) & 1,
    }
}

/// What the caller of a [`BarScan`] does next.
#[derive(Clone, Copy, Debug, PartialEq, Eq, Structural)]
pub enum BarAccess {
    /// Read the register `index`, write all ones to it, read it back, and
    /// write the first value again; then go on with [`BarScan::probed`] of
    /// the two values read.
    Probe { index: usize },
    /// Read the register `index`, the upper half of a 64-bit address; then
    /// go on with [`BarScan::upper_read`] of its value.
    ReadUpper { index: usize },
    /// Nothing: every register is decoded.
    Done,
}

/// The lower half of a 64-bit register, as it was probed: its value, and what
/// it read back after all ones were written.
#[derive(Clone, Copy, Debug, PartialEq, Eq, Structural)]
pub struct LowerHalf {
    pub info: u32,
    pub readback: u32,
}

/// What a [`BarScan`] holds: what the registers decoded so far stand for,
/// one entry for each, and the lower half of a 64-bit register whose upper
/// half is not read yet.
pub struct BarScanView {
    pub bars: Seq<Bar>,
    pub lower: Option<LowerHalf>,
}

impl BarScanView {
    /// Whether a scan can be in this state: at most one register beyond the
    /// six is decoded, and a lower half waits only while registers are left.
    pub open spec fn valid(self) -> bool {
        self.bars.len() <= DEVICE_BARS + 1 && (self.lower is Some ==> self.bars.len() < DEVICE_BARS)
    }

    /// How far the scan has come: it grows with every access, and a scan in a
    /// state that it can be in has come no further than fourteen.
    pub open spec fn progress(self) -> nat {
        2 * self.bars.len() + if self.lower is Some {
            1nat
        } else {
            0nat
        }
    }

    /// What the caller does next in this state.
    pub open spec fn next_access(self) -> BarAccess {
        if self.lower is Some {
            BarAccess::ReadUpper { index: (self.bars.len() + 1) as usize }
        } else if self.bars.len() < DEVICE_BARS {
            BarAccess::Probe { index: self.bars.len() as usize }
        } else {
            BarAccess::Done
        }
    }

    /// The state after a probe that read `info` and then read back
    /// `readback`. A register for I/O ports decodes no memory; the lower half
    /// of a 64-bit register waits for its upper half; any other register is
    /// decoded at once.
    pub open spec fn after_probe(self, info: u32, readback: u32) -> BarScanView {
        if is_io_bar(info) {
            BarScanView { bars: self.bars.push(no_bar()), lower: None }
        } else if is_wide_bar(info) {
            BarScanView { bars: self.bars, lower: Some(LowerHalf { info, readback }) }
        } else {
            BarScanView { bars: self.bars.push(narrow_bar(info, readback)), lower: None }
        }
    }

    /// The state after the upper half `upper` of a 64-bit register was read:
    /// the register is decoded, and the entry of its upper half is empty.
    pub open spec fn after_upper(self, upper: u32) -> BarScanView {
        BarScanView {
            bars: self.bars.push(
                wide_bar(self.lower->0.info, self.lower->0.readback, upper, 0xffff_ffff),
            ).push(no_bar()),
            lower: None,
        }
    }
}

/// The decoding of the base address registers of a device, one access at a
/// time.
///
/// The caller asks [`BarScan::next_access`] what to do, does it, and reports
/// what it read, until the answer is [`BarAccess::Done`].
pub struct BarScan {
    bars: Vec<Bar>,
    lower: Option<LowerHalf>,
}

impl View for BarScan {
    type V = BarScanView;

    closed spec fn view(&self) -> BarScanView {
        BarScanView { bars: self.bars@, lower: self.lower }
    }
}

impl BarScan {
    /// The state is one that a scan can be in. Every value that executable
    /// code holds satisfies this.
    #[verifier::type_invariant]
    pub open spec fn valid(&self) -> bool {
        self@.valid()
    }

    /// A scan that has decoded no register yet.
    pub fn new() -> (scan: BarScan)
        ensures
            scan@.bars.len() == 0,
            scan@.lower is None,
            scan@.next_access() == (BarAccess::Probe { index: 0 }),
    {
        BarScan { bars: Vec::new(), lower: None }
    }

    /// What the caller does next.
    pub fn next_access(&self) -> (access: BarAccess)
        ensures
            access == self@.next_access(),
    {
        proof {
            use_type_invariant(self);
        }
        if self.lower.is_some() {
            BarAccess::ReadUpper { index: self.bars.len() + 1 }
        } else if self.bars.len() < DEVICE_BARS {
            BarAccess::Probe { index: self.bars.len() }
        } else {
            BarAccess::Done
        }
    }

    /// The scan after a probe that read `info` before all ones were written
    /// and `readback` after.
    pub fn probed(self, info: u32, readback: u32) -> (next: BarScan)
        requires
            self@.next_access() is Probe,
        ensures
            next@ == self@.after_probe(info, readback),
            next@.progress() > self@.progress(),
    {
        proof {
            use_type_invariant(&self);
        }
        let mut bars = self.bars;
        if info & 1 != 0 {
            bars.push(Bar { base: 0, size: 0, prefetch: 0 });
            BarScan { bars, lower: None }
        } else if (info >> 1) & 3 == 2 {
            BarScan { bars, lower: Some(LowerHalf { info, readback }) }
        } else {
            bars.push(make_narrow_bar(info, readback));
            BarScan { bars, lower: None }
        }
    }

    /// The scan after the upper half of a 64-bit register was read, with the
    /// value `upper`.
    pub fn upper_read(self, upper: u32) -> (next: BarScan)
        requires
            self@.next_access() is ReadUpper,
        ensures
            next@ == self@.after_upper(upper),
            next@.progress() > self@.progress(),
    {
        proof {
            use_type_invariant(&self);
        }
        let lower = self.lower.unwrap();
        let mut bars = self.bars;
        bars.push(make_wide_bar(lower.info, lower.readback, upper, 0xffff_ffff));
        bars.push(Bar { base: 0, size: 0, prefetch: 0 });
        BarScan { bars, lower: None }
    }

    /// What the registers decoded so far stand for, one entry for each.
    pub fn into_bars(self) -> (bars: Vec<Bar>)
        ensures
            bars@ == self@.bars,
    {
        self.bars
    }
}

/// What the two base address registers of a bridge stand for: `info` and
/// `info2` are their values, `readback` and `readback2` what they read back
/// when probed. Where the first is the lower half of a 64-bit address the
/// second is its upper half, of which the low four bits are dropped.
pub open spec fn bridge_bars_of(info: u32, readback: u32, info2: u32, readback2: u32) -> Seq<Bar> {
    if is_wide_bar(info) {
        seq![wide_bar(info, readback, info2, 0xffff_fff0), no_bar()]
    } else {
        seq![narrow_bar(info, readback), narrow_bar(info2, readback2)]
    }
}

/// What the two base address registers of a bridge stand for.
pub fn bridge_bars(info: u32, readback: u32, info2: u32, readback2: u32) -> (bars: Vec<Bar>)
    ensures
        bars@ == bridge_bars_of(info, readback, info2, readback2),
{
    let mut bars = Vec::new();
    if (info >> 1) & 3 == 2 {
        bars.push(make_wide_bar(info, readback, info2, 0xffff_fff0));
        bars.push(Bar { base: 0, size: 0, prefetch: 0 });
    } else {
        bars.push(make_narrow_bar(info, readback));
        bars.push(make_narrow_bar(info2, readback2));
    }
    assert(bars@ =~= bridge_bars_of(info, readback, info2, readback2));
    bars
}

/// A window of physical memory that is opened for a device: from `start` up
/// to `end`, cached as `cache` says, under the index `index`.
#[derive(Clone, Copy, Debug, PartialEq, Eq, Structural)]
pub struct MmioWindow {
    pub start: u64,
    pub end: u64,
    pub cache: CacheType,
    pub index: u64,
}

/// Whether a window is opened for `bar`: it is for every register with a base
/// other than zero.
pub open spec fn has_window(bar: Bar) -> bool {
    bar.base != 0
}

/// The window of the register `index`, which stands for `bar`: the region
/// that it decodes, write-through where it may be prefetched and uncached
/// where not.
pub open spec fn window_of(index: int, bar: Bar) -> MmioWindow {
    MmioWindow {
        start: bar.base,
        end: (bar.base + bar.size) as u64,
        cache: if bar.prefetch != 0 {
            CacheType::WriteThrough
        } else {
            CacheType::Uncacheable
        },
        index: index as u64,
    }
}

/// The windows of the first `n` registers of `bars`, in their order.
pub open spec fn windows_of(bars: Seq<Bar>, n: int) -> Seq<MmioWindow>
    decreases n,
{
    if n <= 0 {
        Seq::empty()
    } else if has_window(bars[n - 1]) {
        windows_of(bars, n - 1).push(window_of(n - 1, bars[n - 1]))
    } else {
        windows_of(bars, n - 1)
    }
}

/// Whether each window of the first `n` registers of `bars` ends at an
/// address that a word can hold.
pub open spec fn windows_fit(bars: Seq<Bar>, n: int) -> bool {
    forall|i: int| 0 <= i < n && has_window(#[trigger] bars[i]) ==> bars[i].base + bars[i].size <= u64::MAX
}

/// The windows that are opened for the registers `bars`, in their order, or
/// nothing where the end of one lies beyond what a word can hold.
pub fn mmio_windows(bars: &Vec<Bar>) -> (windows: Option<Vec<MmioWindow>>)
    ensures
        windows is Some <==> windows_fit(bars@, bars@.len() as int),
        windows matches Some(w) ==> w@ == windows_of(bars@, bars@.len() as int),
{
    let mut windows: Vec<MmioWindow> = Vec::new();
    let mut i: usize = 0;
    while i < bars.len()
        invariant
            i <= bars.len(),
            windows_fit(bars@, i as int),
            windows@ == windows_of(bars@, i as int),
        decreases bars.len() - i,
    {
        let bar = bars[i];
        if bar.base != 0 {
            match bar.base.checked_add(bar.size as u64) {
                Some(end) => {
                    windows.push(
                        MmioWindow {
                            start: bar.base,
                            end,
                            cache: if bar.prefetch != 0 {
                                CacheType::WriteThrough
                            } else {
                                CacheType::Uncacheable
                            },
                            index: i as u64,
                        },
                    );
                },
                None => {
                    assert(!windows_fit(bars@, bars@.len() as int)) by {
                        assert(has_window(bars@[i as int]));
                    }
                    return None;
                },
            }
        }
        i += 1;
    }
    Some(windows)
}

/// The window of the configuration space of a function that starts at
/// `config_address`: one page, uncached.
pub open spec fn config_window_of(config_address: u64) -> MmioWindow {
    MmioWindow {
        start: config_address,
        end: (config_address + CONFIG_SPACE_SIZE) as u64,
        cache: CacheType::Uncacheable,
        index: CONFIG_WINDOW_INDEX,
    }
}

/// The window of the configuration space of a function that starts at
/// `config_address`, or nothing where its end lies beyond what a word can
/// hold.
pub fn config_window(config_address: u64) -> (window: Option<MmioWindow>)
    ensures
        window is Some <==> config_address + CONFIG_SPACE_SIZE <= u64::MAX,
        window matches Some(w) ==> w == config_window_of(config_address),
{
    match config_address.checked_add(CONFIG_SPACE_SIZE) {
        Some(end) => Some(
            MmioWindow {
                start: config_address,
                end,
                cache: CacheType::Uncacheable,
                index: CONFIG_WINDOW_INDEX,
            },
        ),
        None => None,
    }
}

/// The window of the configuration space of a whole segment that starts at
/// `segment_address`: uncached, under the index zero.
pub open spec fn segment_window_of(segment_address: u64) -> MmioWindow {
    MmioWindow {
        start: segment_address,
        end: (segment_address + SEGMENT_SPAN) as u64,
        cache: CacheType::Uncacheable,
        index: 0,
    }
}

/// The window of the configuration space of a whole segment that starts at
/// `segment_address`, or nothing where its end lies beyond what a word can
/// hold.
pub fn segment_window(segment_address: u64) -> (window: Option<MmioWindow>)
    ensures
        window is Some <==> segment_address + SEGMENT_SPAN <= u64::MAX,
        window matches Some(w) ==> w == segment_window_of(segment_address),
{
    match segment_address.checked_add(SEGMENT_SPAN) {
        Some(end) => Some(
            MmioWindow { start: segment_address, end, cache: CacheType::Uncacheable, index: 0 },
        ),
        None => None,
    }
}

/// Where in the object of a device the word lies on which the interrupt
/// `interrupt` is signalled: behind `base` bytes, in an array whose items take
/// `stride` bytes each. There is none for an interrupt from `limit` on.
pub open spec fn int_sync_offset_of(interrupt: usize, limit: usize, base: usize, stride: usize) -> Option<
    usize,
> {
    if interrupt >= limit {
        None
    } else {
        Some((base + stride * interrupt) as usize)
    }
}

/// Where in the object of a device the word lies on which the interrupt
/// `interrupt` is signalled, for a device with `limit` interrupts whose words start
/// `base` bytes into the object and lie `stride` bytes apart.
pub fn pcie_calculate_int_sync_offset(interrupt: usize, limit: usize, base: usize, stride: usize) -> (offset:
    Option<usize>)
    requires
        base + stride * limit <= usize::MAX,
    ensures
        offset == int_sync_offset_of(interrupt, limit, base, stride),
{
    if interrupt >= limit {
        return None;
    }
    assert(stride * interrupt <= stride * limit) by (nonlinear_arith)
        requires
            interrupt < limit,
    ;
    Some(base + stride * interrupt)
}

} // verus!
