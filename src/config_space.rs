//! The PCI type-0 configuration space and its builder.

use vstd::prelude::*;

use crate::bus::{size_bytes, Request, RequestSize};
use crate::bytes::le_value;
use crate::constants::{
    CAPABILITIES_POINTER_MASK, CAPABILITY_ID_MSI_X, COMMAND_WRITABLE_BITS, CONFIG_SPACE_SIZE, HEADER_TYPE_00, HEADER_TYPE_MULTIFUNCTION, MAX_BARS, MSIX_CONTROL_WRITABLE_BITS, MSIX_MAX_VECTORS, OFFSET_BAR_0, OFFSET_BIST, OFFSET_CACHE_LINE_SIZE, OFFSET_CAPABILITIES_POINTER, OFFSET_CLASS, OFFSET_COMMAND, OFFSET_DEVICE, OFFSET_HEADER_TYPE, OFFSET_IRQ_LINE, OFFSET_IRQ_PIN, OFFSET_LATENCY_TIMER, OFFSET_MAX_LAT, OFFSET_MIN_GNT, OFFSET_PROG_IF, OFFSET_REVISION, OFFSET_ROM_BAR, OFFSET_STATUS, OFFSET_SUBCLASS, OFFSET_SUBSYSTEM_ID, OFFSET_SUBSYSTEM_VENDOR_ID, OFFSET_VENDOR, STATUS_CAPABILITIES,
};
use crate::register_set::{place, place_seq, written, RegisterSet, RegisterSetBuilder, RegisterSetView};

verus! {

/// The offset of the first capability.
pub const INITIAL_CAPABILITY_OFFSET: u8 = 0x40;

/// The kind of address space a BAR maps.
#[derive(Debug, Clone, Copy, PartialEq, Eq, Structural)]
pub enum RequestKind {
    PortIO,
    Memory,
}

/// The size and kind of a base address register.
#[derive(Debug, Clone, Copy, PartialEq, Eq, Structural)]
pub struct BarInfo {
    pub size: u32,
    pub kind: RequestKind,
}

/// A request that hit one of the BARs, relative to the BAR's start.
#[derive(Debug, Clone, Copy, PartialEq, Eq, Structural)]
pub struct BarMatch {
    pub request: Request,
    pub bar_no: u8,
}

/// What the builder holds: the register window under construction and the
/// settings applied when it is finished.
pub struct ConfigSpaceBuilderView {
    pub regs: RegisterSetView,
    pub multifunction: bool,
    pub revision: u8,
    pub interrupt_pin: u8,
    pub interrupt_line: u8,
    pub bars: Seq<Option<BarInfo>>,
    pub next_capability_offset: u8,
    pub last_capability_pointer: u8,
    pub has_custom_registers: bool,
}

/// Whether BAR `bar_no` exists, maps memory of the kind asked for, and is at
/// least `minimum_size` bytes large.
pub open spec fn has_bar_spec(bars: Seq<Option<BarInfo>>, bar_no: u8, kind: RequestKind, minimum_size: nat) -> bool {
    &&& bar_no < bars.len()
    &&& bars[bar_no as int] matches Some(info)
    &&& info.kind == kind
    &&& info.size >= minimum_size
}

/// The window `v` with a capability header (`id`, next pointer zero) at
/// `offset`, its body `part` after it, and the previous pointer at `last` set
/// to `offset`.
pub open spec fn with_capability(v: RegisterSetView, last: int, offset: u8, id: u8, part: RegisterSetView) -> RegisterSetView {
    RegisterSetView {
        data: place_seq(place(place(v.data, last, offset as nat, 1), offset as int, id as nat, 1), offset + 2, part.data),
        rw: place_seq(place(place(v.rw, last, 0, 1), offset as int, 0, 1), offset + 2, part.rw),
        w1c: place_seq(place(place(v.w1c, last, 0, 1), offset as int, 0, 1), offset + 2, part.w1c),
    }
}

/// The bytes of a finished configuration space: the builder's window with
/// interrupt line and pin, status, revision, header type and the final
/// capability pointer placed.
pub open spec fn finished_data(v: ConfigSpaceBuilderView) -> Seq<u8> {
    let status: u16 = if v.next_capability_offset == INITIAL_CAPABILITY_OFFSET { 0 } else { STATUS_CAPABILITIES };
    let header: u8 = if v.multifunction { HEADER_TYPE_MULTIFUNCTION } else { HEADER_TYPE_00 };
    let d1 = place(v.regs.data, OFFSET_IRQ_LINE as int, v.interrupt_line as nat, 1);
    let d2 = place(d1, OFFSET_IRQ_PIN as int, v.interrupt_pin as nat, 1);
    let d3 = place(d2, OFFSET_STATUS as int, status as nat, 2);
    let d4 = place(d3, OFFSET_REVISION as int, v.revision as nat, 1);
    let d5 = place(d4, OFFSET_HEADER_TYPE as int, header as nat, 1);
    place(d5, v.last_capability_pointer as int, 0, 1)
}

/// The writable-bit masks of a finished configuration space: only the
/// interrupt line among the bytes placed last is writable.
pub open spec fn finished_rw(v: ConfigSpaceBuilderView) -> Seq<u8> {
    let d1 = place(v.regs.rw, OFFSET_IRQ_LINE as int, 0xFF, 1);
    let d2 = place(d1, OFFSET_IRQ_PIN as int, 0, 1);
    let d3 = place(d2, OFFSET_STATUS as int, 0, 2);
    let d4 = place(d3, OFFSET_REVISION as int, 0, 1);
    let d5 = place(d4, OFFSET_HEADER_TYPE as int, 0, 1);
    place(d5, v.last_capability_pointer as int, 0, 1)
}

/// The write-one-to-clear masks of a finished configuration space: none
/// among the bytes placed last.
pub open spec fn finished_w1c(v: ConfigSpaceBuilderView) -> Seq<u8> {
    let d1 = place(v.regs.w1c, OFFSET_IRQ_LINE as int, 0, 1);
    let d2 = place(d1, OFFSET_IRQ_PIN as int, 0, 1);
    let d3 = place(d2, OFFSET_STATUS as int, 0, 2);
    let d4 = place(d3, OFFSET_REVISION as int, 0, 1);
    let d5 = place(d4, OFFSET_HEADER_TYPE as int, 0, 1);
    place(d5, v.last_capability_pointer as int, 0, 1)
}

/// A fluent builder for the 256-byte configuration space.
#[derive(Debug, Clone)]
pub struct ConfigSpaceBuilder {
    reg_builder: RegisterSetBuilder<CONFIG_SPACE_SIZE>,
    multifunction: bool,
    revision: u8,
    interrupt_pin: u8,
    interrupt_line: u8,
    bars: Vec<Option<BarInfo>>,
    next_capability_offset: u8,
    last_capability_pointer: u8,
    has_custom_registers: bool,
}

impl View for ConfigSpaceBuilder {
    type V = ConfigSpaceBuilderView;

    closed spec fn view(&self) -> ConfigSpaceBuilderView {
        ConfigSpaceBuilderView {
            regs: self.reg_builder@,
            multifunction: self.multifunction,
            revision: self.revision,
            interrupt_pin: self.interrupt_pin,
            interrupt_line: self.interrupt_line,
            bars: self.bars@,
            next_capability_offset: self.next_capability_offset,
            last_capability_pointer: self.last_capability_pointer,
            has_custom_registers: self.has_custom_registers,
        }
    }
}

impl ConfigSpaceBuilder {
    pub open spec fn wf(&self) -> bool {
        &&& crate::register_set::window_wf(self@.regs, CONFIG_SPACE_SIZE as nat)
        &&& self@.bars.len() == MAX_BARS
        &&& self@.next_capability_offset >= INITIAL_CAPABILITY_OFFSET
        &&& self@.last_capability_pointer >= OFFSET_CAPABILITIES_POINTER
    }

    /// A builder for a function with the given vendor and device id, its
    /// command register writable, no BARs and no capabilities.
    pub fn new(vendor: u16, device: u16) -> (r: Self)
        ensures
            r.wf(),
            r@.regs.data.subrange(OFFSET_VENDOR as int, OFFSET_VENDOR + 2) == crate::bytes::le_bytes(vendor as nat, 2),
            r@.regs.data.subrange(OFFSET_DEVICE as int, OFFSET_DEVICE + 2) == crate::bytes::le_bytes(device as nat, 2),
            !r@.multifunction,
            r@.revision == 0,
            r@.interrupt_pin == 0,
            r@.interrupt_line == 255,
            r@.bars == Seq::new(MAX_BARS as nat, |i: int| None::<BarInfo>),
            r@.next_capability_offset == INITIAL_CAPABILITY_OFFSET,
            r@.last_capability_pointer == OFFSET_CAPABILITIES_POINTER,
            !r@.has_custom_registers,
    {
        let mut b = RegisterSetBuilder::<CONFIG_SPACE_SIZE>::new();
        b = b.u16_le_ro_at(OFFSET_VENDOR, vendor);
        let ghost b1 = b@;
        b = b.u16_le_ro_at(OFFSET_DEVICE, device);
        let ghost b2 = b@;
        b = b.u16_le_at(OFFSET_COMMAND, 0, COMMAND_WRITABLE_BITS);
        b = b.u8_rw_at(OFFSET_CACHE_LINE_SIZE, 0);
        b = b.u8_rw_at(OFFSET_LATENCY_TIMER, 0);
        b = b.u8_ro_at(OFFSET_BIST, 0);
        b = b.u32_le_ro_at(OFFSET_ROM_BAR, 0);
        b = b.u8_ro_at(OFFSET_MIN_GNT, 0);
        b = b.u8_ro_at(OFFSET_MAX_LAT, 0);
        let ghost b3 = b@;
        let mut i: usize = 0;
        while i < MAX_BARS
            invariant
                b.wf(),
                i <= MAX_BARS,
                b@.data.subrange(0, 4) == b3.data.subrange(0, 4),
            decreases MAX_BARS - i,
        {
            let ghost bi = b@;
            b = b.u32_le_ro_at(OFFSET_BAR_0 + i * 4, 0);
            assert(b@.data.subrange(0, 4) =~= bi.data.subrange(0, 4));
            i = i + 1;
        }
        assert(b1.data.subrange(0, 2) =~= crate::bytes::le_bytes(vendor as nat, 2));
        assert(b2.data.subrange(2, 4) =~= crate::bytes::le_bytes(device as nat, 2));
        assert(b2.data.subrange(0, 2) =~= b1.data.subrange(0, 2));
        assert(b3.data.subrange(0, 4) =~= b2.data.subrange(0, 4));
        assert(b@.data.subrange(0, 2) =~= b@.data.subrange(0, 4).subrange(0, 2));
        assert(b@.data.subrange(2, 4) =~= b@.data.subrange(0, 4).subrange(2, 4));
        assert(b2.data.subrange(0, 2) =~= b2.data.subrange(0, 4).subrange(0, 2));
        assert(b2.data.subrange(2, 4) =~= b2.data.subrange(0, 4).subrange(2, 4));
        let r = ConfigSpaceBuilder {
            reg_builder: b,
            multifunction: false,
            revision: 0,
            interrupt_pin: 0,
            interrupt_line: 255,
            bars: vec![None; MAX_BARS],
            next_capability_offset: INITIAL_CAPABILITY_OFFSET,
            last_capability_pointer: OFFSET_CAPABILITIES_POINTER as u8,
            has_custom_registers: false,
        };
        assert(r@.bars =~= Seq::new(MAX_BARS as nat, |i: int| None::<BarInfo>));
        r
    }

    /// Set the class, subclass and programming interface codes.
    pub fn class(self, class: u8, subclass: u8, prog_if: u8) -> (r: Self)
        requires
            self.wf(),
        ensures
            r.wf(),
            r@ == (ConfigSpaceBuilderView {
                regs: RegisterSetView {
                    data: place(place(place(self@.regs.data, OFFSET_CLASS as int, class as nat, 1), OFFSET_SUBCLASS as int, subclass as nat, 1), OFFSET_PROG_IF as int, prog_if as nat, 1),
                    rw: place(place(place(self@.regs.rw, OFFSET_CLASS as int, 0, 1), OFFSET_SUBCLASS as int, 0, 1), OFFSET_PROG_IF as int, 0, 1),
                    w1c: place(place(place(self@.regs.w1c, OFFSET_CLASS as int, 0, 1), OFFSET_SUBCLASS as int, 0, 1), OFFSET_PROG_IF as int, 0, 1),
                },
                ..self@
            }),
    {
        let ConfigSpaceBuilder { reg_builder, multifunction, revision, interrupt_pin, interrupt_line, bars, next_capability_offset, last_capability_pointer, has_custom_registers } = self;
        let reg_builder = reg_builder.u8_ro_at(OFFSET_CLASS, class).u8_ro_at(OFFSET_SUBCLASS, subclass).u8_ro_at(OFFSET_PROG_IF, prog_if);
        ConfigSpaceBuilder { reg_builder, multifunction, revision, interrupt_pin, interrupt_line, bars, next_capability_offset, last_capability_pointer, has_custom_registers }
    }

    /// Set the revision id.
    pub fn revision(self, revision: u8) -> (r: Self)
        requires
            self.wf(),
        ensures
            r.wf(),
            r@ == (ConfigSpaceBuilderView { revision, ..self@ }),
    {
        let mut s = self;
        s.revision = revision;
        s
    }

    /// Set the subsystem vendor and subsystem ids.
    pub fn subsystem(self, subsystem_vendor_id: u16, subsystem_id: u16) -> (r: Self)
        requires
            self.wf(),
        ensures
            r.wf(),
            r@ == (ConfigSpaceBuilderView {
                regs: RegisterSetView {
                    data: place(place(self@.regs.data, OFFSET_SUBSYSTEM_VENDOR_ID as int, subsystem_vendor_id as nat, 2), OFFSET_SUBSYSTEM_ID as int, subsystem_id as nat, 2),
                    rw: place(place(self@.regs.rw, OFFSET_SUBSYSTEM_VENDOR_ID as int, 0, 2), OFFSET_SUBSYSTEM_ID as int, 0, 2),
                    w1c: place(place(self@.regs.w1c, OFFSET_SUBSYSTEM_VENDOR_ID as int, 0, 2), OFFSET_SUBSYSTEM_ID as int, 0, 2),
                },
                ..self@
            }),
    {
        let ConfigSpaceBuilder { reg_builder, multifunction, revision, interrupt_pin, interrupt_line, bars, next_capability_offset, last_capability_pointer, has_custom_registers } = self;
        let reg_builder = reg_builder.u16_le_ro_at(OFFSET_SUBSYSTEM_VENDOR_ID, subsystem_vendor_id).u16_le_ro_at(OFFSET_SUBSYSTEM_ID, subsystem_id);
        ConfigSpaceBuilder { reg_builder, multifunction, revision, interrupt_pin, interrupt_line, bars, next_capability_offset, last_capability_pointer, has_custom_registers }
    }

    /// Mark the device as a multi-function device.
    pub fn multifunction(self) -> (r: Self)
        requires
            self.wf(),
        ensures
            r.wf(),
            r@ == (ConfigSpaceBuilderView { multifunction: true, ..self@ }),
    {
        let mut s = self;
        s.multifunction = true;
        s
    }

    /// Set the interrupt pin register.
    pub fn interrupt_pin(self, irq_pin: u8) -> (r: Self)
        requires
            self.wf(),
        ensures
            r.wf(),
            r@ == (ConfigSpaceBuilderView { interrupt_pin: irq_pin, ..self@ }),
    {
        let mut s = self;
        s.interrupt_pin = irq_pin;
        s
    }

    /// Set the initial value of the interrupt line register.
    pub fn interrupt_line(self, irq_line: u8) -> (r: Self)
        requires
            self.wf(),
        ensures
            r.wf(),
            r@ == (ConfigSpaceBuilderView { interrupt_line: irq_line, ..self@ }),
    {
        let mut s = self;
        s.interrupt_line = irq_line;
        s
    }

    /// Let `custom_regs_fn` place registers of its own. Not possible once a
    /// capability was added, and no capability can be added after it.
    pub fn custom_registers<F>(self, custom_regs_fn: F) -> (r: Self)
        where
            F: FnOnce(RegisterSetBuilder<CONFIG_SPACE_SIZE>) -> RegisterSetBuilder<CONFIG_SPACE_SIZE>,
        requires
            self.wf(),
            self@.next_capability_offset == INITIAL_CAPABILITY_OFFSET,
            forall|b: RegisterSetBuilder<CONFIG_SPACE_SIZE>| b.wf() ==> custom_regs_fn.requires((b,)),
            forall|b: RegisterSetBuilder<CONFIG_SPACE_SIZE>, o: RegisterSetBuilder<CONFIG_SPACE_SIZE>|
                custom_regs_fn.ensures((b,), o) ==> o.wf(),
        ensures
            r.wf(),
            r@.has_custom_registers,
            r@.bars == self@.bars,
            r@.next_capability_offset == self@.next_capability_offset,
            r@.last_capability_pointer == self@.last_capability_pointer,
            exists|o: RegisterSetBuilder<CONFIG_SPACE_SIZE>| custom_regs_fn.ensures((self.reg_builder_spec(),), o) && r@.regs == o@,
    {
        let ConfigSpaceBuilder { reg_builder, multifunction, revision, interrupt_pin, interrupt_line, bars, next_capability_offset, last_capability_pointer, has_custom_registers } = self;
        assert(reg_builder.wf());
        let reg_builder = custom_regs_fn(reg_builder);
        ConfigSpaceBuilder { reg_builder, multifunction, revision, interrupt_pin, interrupt_line, bars, next_capability_offset, last_capability_pointer, has_custom_registers: true }
    }

    /// The register builder inside.
    pub closed spec fn reg_builder_spec(&self) -> RegisterSetBuilder<CONFIG_SPACE_SIZE> {
        self.reg_builder
    }

    /// Add a 32-bit non-prefetchable memory BAR of `size` bytes: the low
    /// bits below the size stay zero so that the guest can size the BAR.
    pub fn mem32_nonprefetchable_bar(self, index: u8, size: u32) -> (r: Self)
        requires
            self.wf(),
            index < MAX_BARS,
            self@.bars[index as int] is None,
            size >= 16,
            size & (size - 1) as u32 == 0,
        ensures
            r.wf(),
            r@ == (ConfigSpaceBuilderView {
                regs: RegisterSetView {
                    data: place(self@.regs.data, OFFSET_BAR_0 + index * 4, 0, 4),
                    rw: place(self@.regs.rw, OFFSET_BAR_0 + index * 4, !((size - 1) as u32) as nat, 4),
                    w1c: place(self@.regs.w1c, OFFSET_BAR_0 + index * 4, 0, 4),
                },
                bars: self@.bars.update(index as int, Some(BarInfo { size, kind: RequestKind::Memory })),
                ..self@
            }),
    {
        let ConfigSpaceBuilder { reg_builder, multifunction, revision, interrupt_pin, interrupt_line, mut bars, next_capability_offset, last_capability_pointer, has_custom_registers } = self;
        let idx = index as usize;
        let reg_builder = reg_builder.u32_le_at(OFFSET_BAR_0 + idx * 4, 0, !(size - 1));
        bars.set(idx, Some(BarInfo { size, kind: RequestKind::Memory }));
        ConfigSpaceBuilder { reg_builder, multifunction, revision, interrupt_pin, interrupt_line, bars, next_capability_offset, last_capability_pointer, has_custom_registers }
    }

    /// Append a capability with id `capability_id` and body `regs` to the
    /// capability list; the next one starts at the following multiple of 4.
    pub fn capability<const CAP_SIZE: usize>(self, capability_id: u8, regs: &RegisterSet<CAP_SIZE>) -> (r: Self)
        requires
            self.wf(),
            regs.wf(),
            !self@.has_custom_registers,
            self@.next_capability_offset + 2 + CAP_SIZE <= 252,
        ensures
            r.wf(),
            r@ == (ConfigSpaceBuilderView {
                regs: with_capability(self@.regs, self@.last_capability_pointer as int, self@.next_capability_offset, capability_id, regs@),
                next_capability_offset: ((self@.next_capability_offset + 2 + CAP_SIZE + 3) as u8) & CAPABILITIES_POINTER_MASK,
                last_capability_pointer: (self@.next_capability_offset + 1) as u8,
                ..self@
            }),
    {
        let ConfigSpaceBuilder { reg_builder, multifunction, revision, interrupt_pin, interrupt_line, bars, next_capability_offset, last_capability_pointer, has_custom_registers } = self;
        let offset = next_capability_offset;
        let header_size: usize = 2;
        let next_offset = offset as usize + header_size + CAP_SIZE;
        let new_next = ((next_offset + 3) as u8) & CAPABILITIES_POINTER_MASK;
        let reg_builder = reg_builder.u8_ro_at(last_capability_pointer as usize, offset).u8_ro_at(offset as usize, capability_id).register_set_at(offset as usize + header_size, regs);
        let r = ConfigSpaceBuilder { reg_builder, multifunction, revision, interrupt_pin, interrupt_line, bars, next_capability_offset: new_next, last_capability_pointer: offset + 1, has_custom_registers };
        assert((next_offset + 3) as u8 & 0xfc >= 0x40 && (next_offset + 3) as u8 & 0xfc <= next_offset + 3) by (bit_vector)
            requires
                0x42 <= next_offset <= 252,
        ;
        r
    }

    /// Add an MSI-X capability with `msix_count` vectors whose table lies in
    /// BAR `table_bar_no` at `table_bar_offset` and whose pending bits lie in
    /// BAR `pba_bar_no` at `pba_bar_offset`. Both BARs must exist and be large
    /// enough.
    pub fn msix_capability(self, msix_count: u16, table_bar_no: u8, table_bar_offset: u32, pba_bar_no: u8, pba_bar_offset: u32) -> (r: Self)
        requires
            self.wf(),
            !self@.has_custom_registers,
            self@.next_capability_offset + 2 + 10 <= 252,
            0 < msix_count <= MSIX_MAX_VECTORS,
            table_bar_offset & 0x3 == 0,
            pba_bar_offset & 0x3 == 0,
            table_bar_no <= 7,
            pba_bar_no <= 7,
            table_bar_offset + 16 * msix_count <= u32::MAX,
            pba_bar_offset + 1 <= u32::MAX,
            has_bar_spec(self@.bars, table_bar_no, RequestKind::Memory, (table_bar_offset + 16 * msix_count) as nat),
            has_bar_spec(self@.bars, pba_bar_no, RequestKind::Memory, (pba_bar_offset + 1) as nat),
        ensures
            r.wf(),
            r@.bars == self@.bars,
            r@.last_capability_pointer == self@.next_capability_offset + 1,
            r@.regs.data == with_capability(self@.regs, self@.last_capability_pointer as int, self@.next_capability_offset, CAPABILITY_ID_MSI_X, RegisterSetView {
                data: place(place(place(Seq::new(10, |i: int| 0xFFu8), 0, (msix_count - 1) as nat, 2), 2, (table_bar_offset | table_bar_no as u32) as nat, 4), 6, (pba_bar_offset | pba_bar_no as u32) as nat, 4),
                rw: place(place(place(Seq::new(10, |i: int| 0u8), 0, MSIX_CONTROL_WRITABLE_BITS as nat, 2), 2, 0, 4), 6, 0xFFFF_FFFF, 4),
                w1c: place(place(place(Seq::new(10, |i: int| 0u8), 0, 0, 2), 2, 0, 4), 6, 0, 4),
            }).data,
    {
        let msix_cap: RegisterSet<10> = RegisterSetBuilder::<10>::new()
            .u16_le_at(0, msix_count - 1, MSIX_CONTROL_WRITABLE_BITS)
            .u32_le_ro_at(2, table_bar_offset | table_bar_no as u32)
            .u32_le_rw_at(6, pba_bar_offset | pba_bar_no as u32)
            .build();
        self.capability(CAPABILITY_ID_MSI_X, &msix_cap)
    }

    /// The finished configuration space: interrupt line and pin, the status
    /// register (announcing a capability list when there is one), revision,
    /// header type and the terminating capability pointer are placed last.
    pub fn config_space(self) -> (r: ConfigSpace)
        requires
            self.wf(),
        ensures
            r.wf(),
            r.bars_spec() == self@.bars,
            r@.data == finished_data(self@),
            r@.rw == finished_rw(self@),
            r@.w1c == finished_w1c(self@),
    {
        let ConfigSpaceBuilder { reg_builder, multifunction, revision, interrupt_pin, interrupt_line, bars, next_capability_offset, last_capability_pointer, has_custom_registers } = self;
        let status: u16 = if next_capability_offset == INITIAL_CAPABILITY_OFFSET { 0 } else { STATUS_CAPABILITIES };
        let header: u8 = if multifunction { HEADER_TYPE_MULTIFUNCTION } else { HEADER_TYPE_00 };
        let regs = reg_builder
            .u8_rw_at(OFFSET_IRQ_LINE, interrupt_line)
            .u8_ro_at(OFFSET_IRQ_PIN, interrupt_pin)
            .u16_le_ro_at(OFFSET_STATUS, status)
            .u8_ro_at(OFFSET_REVISION, revision)
            .u8_ro_at(OFFSET_HEADER_TYPE, header)
            .u8_ro_at(last_capability_pointer as usize, 0)
            .build();
        ConfigSpace { config_space: regs, bars }
    }
}

/// A finished PCI configuration space and the BARs it announces.
#[derive(Debug, Clone)]
pub struct ConfigSpace {
    config_space: RegisterSet<CONFIG_SPACE_SIZE>,
    bars: Vec<Option<BarInfo>>,
}

impl View for ConfigSpace {
    type V = RegisterSetView;

    closed spec fn view(&self) -> RegisterSetView {
        self.config_space@
    }
}

impl ConfigSpace {
    pub open spec fn wf(&self) -> bool {
        &&& crate::register_set::window_wf(self@, CONFIG_SPACE_SIZE as nat)
        &&& self.bars_spec().len() == MAX_BARS
    }

    /// The value a read of `req` gives.
    pub open spec fn read_spec_value(&self, req: Request) -> nat {
        le_value(self@.data.subrange(req.addr as int, req.end()))
    }

    /// The BARs of the function.
    pub closed spec fn bars_spec(&self) -> Seq<Option<BarInfo>> {
        self.bars@
    }

    /// The size of the configuration space in bytes.
    pub fn size(&self) -> (r: u64)
        ensures
            r == CONFIG_SPACE_SIZE,
    {
        self.config_space.size()
    }

    /// Read the bytes of `req` as a little-endian value.
    pub fn read(&self, req: Request) -> (r: u64)
        requires
            self.wf(),
            req.end() <= CONFIG_SPACE_SIZE,
        ensures
            r == le_value(self@.data.subrange(req.addr as int, req.end())),
    {
        self.config_space.read(req)
    }

    /// Apply a guest write to the bytes of `req`, through the masks.
    pub fn write(&mut self, req: Request, value: u64)
        requires
            old(self).wf(),
            req.end() <= CONFIG_SPACE_SIZE,
        ensures
            final(self).wf(),
            final(self).bars_spec() == old(self).bars_spec(),
            final(self)@.rw == old(self)@.rw,
            final(self)@.w1c == old(self)@.w1c,
            final(self)@.data == written(old(self)@, req, value),
    {
        self.config_space.write(req, value)
    }

    /// The BAR with number `bar_no`, if the function has it.
    pub fn bar(&self, bar_no: u8) -> (r: Option<BarInfo>)
        requires
            self.wf(),
        ensures
            r == (if bar_no < MAX_BARS { self.bars_spec()[bar_no as int] } else { None }),
    {
        if (bar_no as usize) < self.bars.len() {
            self.bars[bar_no as usize]
        } else {
            None
        }
    }

    /// The offsets of the capabilities, in list order, read from the chain of
    /// capability pointers starting at the capabilities pointer. A chain that
    /// does not end is cut after as many entries as the space can hold.
    pub fn iter_capability_offsets(&self) -> (r: Vec<u8>)
        requires
            self.wf(),
        ensures
            r@.len() <= 64,
            forall|i: int| 0 <= i < r@.len() ==> r@[i] != 0 && #[trigger] r@[i] == (if i == 0 {
                self@.data[OFFSET_CAPABILITIES_POINTER as int]
            } else {
                self@.data[r@[i - 1] + 1]
            }) & CAPABILITIES_POINTER_MASK,
            r@.len() < 64 ==> (if r@.len() == 0 {
                self@.data[OFFSET_CAPABILITIES_POINTER as int]
            } else {
                self@.data[r@.last() + 1]
            }) & CAPABILITIES_POINTER_MASK == 0,
    {
        let mut r: Vec<u8> = Vec::new();
        let mut cap_offset: usize = OFFSET_CAPABILITIES_POINTER;
        let mut n: usize = 0;
        while n < 64
            invariant
                self.wf(),
                n == r@.len(),
                n <= 64,
                cap_offset < 256,
                cap_offset == (if n == 0 { OFFSET_CAPABILITIES_POINTER as int } else { r@.last() + 1 }),
                forall|i: int| 0 <= i < r@.len() ==> r@[i] != 0 && #[trigger] r@[i] == (if i == 0 {
                    self@.data[OFFSET_CAPABILITIES_POINTER as int]
                } else {
                    self@.data[r@[i - 1] + 1]
                }) & CAPABILITIES_POINTER_MASK,
            decreases 64 - n,
        {
            let byte = self.config_space.read_byte(cap_offset);
            let cap_ptr = byte & CAPABILITIES_POINTER_MASK;
            if cap_ptr == 0 {
                return r;
            }
            assert(cap_ptr <= 0xfc) by (bit_vector)
                requires
                    cap_ptr == byte & 0xfc,
            ;
            r.push(cap_ptr);
            cap_offset = cap_ptr as usize + 1;
            n = n + 1;
        }
        r
    }
}

/// BAR sizing: where the four bytes of a BAR at `off` have the writable
/// bits `!(size - 1)`, no write-one-to-clear bits and zero read-only bits,
/// writing all ones to the BAR and reading it back gives `!(size - 1)`.
pub proof fn lemma_bar_sizing(v: RegisterSetView, off: u64, size: u32)
    requires
        v.data.len() == CONFIG_SPACE_SIZE && v.rw.len() == CONFIG_SPACE_SIZE && v.w1c.len() == CONFIG_SPACE_SIZE,
        off + 4 <= CONFIG_SPACE_SIZE,
        size >= 1,
        v.rw.subrange(off as int, off + 4) == crate::bytes::le_bytes(!((size - 1) as u32) as nat, 4),
        v.w1c.subrange(off as int, off + 4) == crate::bytes::le_bytes(0, 4),
        forall|k: int| off <= k < off + 4 ==> #[trigger] v.data[k] & !v.rw[k] == 0,
    ensures
        le_value(written(v, Request { addr: off, size: RequestSize::Size4 }, 0xFFFF_FFFF).subrange(off as int, off + 4))
            == !((size - 1) as u32),
{
    let req = Request { addr: off, size: RequestSize::Size4 };
    let mask = !((size - 1) as u32);
    let w = written(v, req, 0xFFFF_FFFF);
    assert(w.subrange(off as int, off + 4) =~= crate::bytes::le_bytes(mask as nat, 4)) by {
        assert forall|k: int| 0 <= k < 4 implies w.subrange(off as int, off + 4)[k] == crate::bytes::le_bytes(mask as nat, 4)[k] by {
            let i = off + k;
            crate::bytes::lemma_byte_of_ones(k as nat);
            let d = v.data[i];
            let rw = v.rw[i];
            assert(rw == v.rw.subrange(off as int, off + 4)[k]);
            assert(v.w1c[i] == v.w1c.subrange(off as int, off + 4)[k]);
            assert(v.w1c[i] == 0);
            assert(d & !rw == 0);
            assert(d & !rw == 0 ==> ((d & !rw) | (0xFFu8 & rw)) & !(0xFFu8 & 0u8) == rw) by (bit_vector);
        }
    }
    crate::bytes::lemma_pow256_8();
    crate::bytes::lemma_le_round_trip(mask as nat, 4);
}

/// A BAR added with `mem32_nonprefetchable_bar` keeps its sizing behaviour
/// in the finished configuration space: writing all ones to it and reading
/// it back gives `!(size - 1)`.
pub proof fn lemma_built_bar_sizing(b: ConfigSpaceBuilderView, d0: Seq<u8>, rw0: Seq<u8>, w0: Seq<u8>, index: u8, size: u32)
    requires
        crate::register_set::window_wf(b.regs, CONFIG_SPACE_SIZE as nat),
        b.last_capability_pointer >= OFFSET_CAPABILITIES_POINTER,
        index < MAX_BARS,
        size >= 1,
        d0.len() == CONFIG_SPACE_SIZE && rw0.len() == CONFIG_SPACE_SIZE && w0.len() == CONFIG_SPACE_SIZE,
        b.regs.data == place(d0, OFFSET_BAR_0 + index * 4, 0, 4),
        b.regs.rw == place(rw0, OFFSET_BAR_0 + index * 4, !((size - 1) as u32) as nat, 4),
        b.regs.w1c == place(w0, OFFSET_BAR_0 + index * 4, 0, 4),
    ensures
        ({
            let v = RegisterSetView { data: finished_data(b), rw: finished_rw(b), w1c: finished_w1c(b) };
            let off = (OFFSET_BAR_0 + index * 4) as u64;
            le_value(written(v, Request { addr: off, size: RequestSize::Size4 }, 0xFFFF_FFFF).subrange(off as int, off + 4))
                == !((size - 1) as u32)
        }),
{
    let off = (OFFSET_BAR_0 + index * 4) as u64;
    let mask = !((size - 1) as u32);
    let v = RegisterSetView { data: finished_data(b), rw: finished_rw(b), w1c: finished_w1c(b) };
    assert forall|k: int| off <= k < off + 4 implies v.data[k] == b.regs.data[k] && v.rw[k] == b.regs.rw[k]
        && v.w1c[k] == b.regs.w1c[k] by {
        let status: u16 = if b.next_capability_offset == INITIAL_CAPABILITY_OFFSET { 0 } else { STATUS_CAPABILITIES };
        let header: u8 = if b.multifunction { HEADER_TYPE_MULTIFUNCTION } else { HEADER_TYPE_00 };
        let d1 = place(b.regs.data, OFFSET_IRQ_LINE as int, b.interrupt_line as nat, 1);
        let d2 = place(d1, OFFSET_IRQ_PIN as int, b.interrupt_pin as nat, 1);
        let d3 = place(d2, OFFSET_STATUS as int, status as nat, 2);
        let d4 = place(d3, OFFSET_REVISION as int, b.revision as nat, 1);
        let d5 = place(d4, OFFSET_HEADER_TYPE as int, header as nat, 1);
        crate::bytes::lemma_place_index(b.regs.data, OFFSET_IRQ_LINE as int, b.interrupt_line as nat, 1, k);
        crate::bytes::lemma_place_index(d1, OFFSET_IRQ_PIN as int, b.interrupt_pin as nat, 1, k);
        crate::bytes::lemma_place_index(d2, OFFSET_STATUS as int, status as nat, 2, k);
        crate::bytes::lemma_place_index(d3, OFFSET_REVISION as int, b.revision as nat, 1, k);
        crate::bytes::lemma_place_index(d4, OFFSET_HEADER_TYPE as int, header as nat, 1, k);
        crate::bytes::lemma_place_index(d5, b.last_capability_pointer as int, 0, 1, k);
        let r1 = place(b.regs.rw, OFFSET_IRQ_LINE as int, 0xFF, 1);
        let r2 = place(r1, OFFSET_IRQ_PIN as int, 0, 1);
        let r3 = place(r2, OFFSET_STATUS as int, 0, 2);
        let r4 = place(r3, OFFSET_REVISION as int, 0, 1);
        let r5 = place(r4, OFFSET_HEADER_TYPE as int, 0, 1);
        crate::bytes::lemma_place_index(b.regs.rw, OFFSET_IRQ_LINE as int, 0xFF, 1, k);
        crate::bytes::lemma_place_index(r1, OFFSET_IRQ_PIN as int, 0, 1, k);
        crate::bytes::lemma_place_index(r2, OFFSET_STATUS as int, 0, 2, k);
        crate::bytes::lemma_place_index(r3, OFFSET_REVISION as int, 0, 1, k);
        crate::bytes::lemma_place_index(r4, OFFSET_HEADER_TYPE as int, 0, 1, k);
        crate::bytes::lemma_place_index(r5, b.last_capability_pointer as int, 0, 1, k);
        let w1 = place(b.regs.w1c, OFFSET_IRQ_LINE as int, 0, 1);
        let w2 = place(w1, OFFSET_IRQ_PIN as int, 0, 1);
        let w3 = place(w2, OFFSET_STATUS as int, 0, 2);
        let w4 = place(w3, OFFSET_REVISION as int, 0, 1);
        let w5 = place(w4, OFFSET_HEADER_TYPE as int, 0, 1);
        crate::bytes::lemma_place_index(b.regs.w1c, OFFSET_IRQ_LINE as int, 0, 1, k);
        crate::bytes::lemma_place_index(w1, OFFSET_IRQ_PIN as int, 0, 1, k);
        crate::bytes::lemma_place_index(w2, OFFSET_STATUS as int, 0, 2, k);
        crate::bytes::lemma_place_index(w3, OFFSET_REVISION as int, 0, 1, k);
        crate::bytes::lemma_place_index(w4, OFFSET_HEADER_TYPE as int, 0, 1, k);
        crate::bytes::lemma_place_index(w5, b.last_capability_pointer as int, 0, 1, k);
    }
    assert forall|k: int| off <= k < off + 4 implies #[trigger] v.data[k] & !v.rw[k] == 0 by {
        crate::bytes::lemma_place_index(d0, off as int, 0, 4, k);
        crate::bytes::lemma_byte_of_ones((k - off) as nat);
        let x = v.rw[k];
        assert(0u8 & !x == 0) by (bit_vector);
    }
    assert(v.rw.subrange(off as int, off + 4) =~= crate::bytes::le_bytes(mask as nat, 4)) by {
        assert forall|k: int| 0 <= k < 4 implies v.rw.subrange(off as int, off + 4)[k] == crate::bytes::le_bytes(mask as nat, 4)[k] by {
            crate::bytes::lemma_place_index(rw0, off as int, mask as nat, 4, off + k);
        }
    }
    assert(v.w1c.subrange(off as int, off + 4) =~= crate::bytes::le_bytes(0, 4)) by {
        assert forall|k: int| 0 <= k < 4 implies v.w1c.subrange(off as int, off + 4)[k] == crate::bytes::le_bytes(0, 4)[k] by {
            crate::bytes::lemma_place_index(w0, off as int, 0, 4, off + k);
        }
    }
    assert(v.data.len() == CONFIG_SPACE_SIZE && v.rw.len() == CONFIG_SPACE_SIZE && v.w1c.len() == CONFIG_SPACE_SIZE);
    lemma_bar_sizing(v, off, size);
}

} // verus!

