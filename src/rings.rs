//! The XHCI rings: the event ring the controller fills, the command ring and
//! the transfer rings it consumes.

use vstd::prelude::*;

use crate::bus::{Request, RequestSize};
use crate::constants::{TRB_LINK, CRCR_CRR, CRCR_DEQUEUE_POINTER_MASK, CRCR_RCS, TRB_DATA_STAGE, TRB_SETUP_STAGE, TRB_SIZE, TRB_STATUS_STAGE};
use crate::device_slots::{ring_state, with_ring_state, EndpointContext};
use crate::memory::{read_bytes, read_value, write_bytes, BusDevice};
use crate::trb::{
    command_spec, event_bytes, link_spec, transfer_spec, trb_type, CommandTrb, CommandTrbVariant,
    EventTrb, RawTrbBuffer, TransferTrb, TransferTrbVariant, SetupStageTrbData, DataStageTrbData,
};
use crate::usbrequest::UsbRequest;

verus! {

/// The 16 bytes of a TRB at address `a`.
pub open spec fn trb_at(m: Seq<u8>, a: u64) -> Seq<u8> {
    read_bytes(m, a as int, 16)
}

/// The cycle bit of a TRB.
pub open spec fn cycle_bit(bytes: Seq<u8>) -> bool {
    bytes[12] & 1 != 0
}

/// Read the TRB at `addr` if its cycle bit equals `cycle_state`.
fn next_trb_buffer<M: BusDevice>(mem: &M, addr: u64, cycle_state: bool) -> (r: Option<RawTrbBuffer>)
    ensures
        r is Some <==> cycle_bit(trb_at(mem.memory(), addr)) == cycle_state,
        r is Some ==> r->Some_0@ == trb_at(mem.memory(), addr),
{
    let v = mem.read_bulk(addr, 16);
    let b: RawTrbBuffer = [
        v[0], v[1], v[2], v[3], v[4], v[5], v[6], v[7], v[8], v[9], v[10], v[11], v[12], v[13], v[14], v[15],
    ];
    assert(b@ =~= v@);
    if (b[12] & 1 != 0) != cycle_state {
        return None;
    }
    Some(b)
}

/// The entry `idx` of the event ring segment table at `base`: the segment's
/// base address and its size in TRBs.
pub open spec fn erst_entry(m: Seq<u8>, base: u64, idx: u32) -> (u64, u32) {
    let a = base.wrapping_add(((idx as u64) * 16) as u64);
    (read_value(m, a as int, 8) as u64, read_value(m, a.wrapping_add(8) as int, 4) as u32)
}

/// What the event ring holds: the segment table, the driver's dequeue
/// pointer, where the next event goes, how many TRBs are left in the current
/// segment, the current segment, the producer cycle state and the number of
/// segments.
pub struct EventRingView {
    pub base_address: u64,
    pub dequeue_pointer: u64,
    pub enqueue_pointer: u64,
    pub trb_count: u32,
    pub erst_count: u32,
    pub cycle_state: bool,
    pub erst_size: u32,
}

/// Why an event could not be placed on the event ring.
#[derive(Debug, Clone, Copy, PartialEq, Eq, Structural)]
pub enum EventRingError {
    /// The segment table was not set up, or the current segment holds no TRB.
    NotConfigured,
    /// The next slot is the driver's dequeue pointer.
    Full,
}

/// Whether the ring is full: the slot after the enqueue pointer (the next
/// segment's start when one slot is left) is the dequeue pointer.
pub open spec fn ring_full(v: EventRingView, m: Seq<u8>) -> bool {
    if v.trb_count == 1 {
        v.dequeue_pointer == erst_entry(m, v.base_address, ((v.erst_count + 1) % (v.erst_size as int)) as u32).0
    } else {
        v.dequeue_pointer == v.enqueue_pointer.wrapping_add(16)
    }
}

/// The ring after one TRB was placed: the next slot of the segment, or the
/// start of the next segment (toggling the cycle state on wrapping to the
/// first), read from memory `m`.
pub open spec fn advanced(v: EventRingView, m: Seq<u8>) -> EventRingView {
    if v.trb_count - 1 == 0 {
        let wrapped = v.erst_count + 1 == v.erst_size;
        let idx: u32 = if wrapped { 0 } else { (v.erst_count + 1) as u32 };
        let e = erst_entry(m, v.base_address, idx);
        EventRingView {
            enqueue_pointer: e.0,
            trb_count: e.1,
            erst_count: idx,
            cycle_state: if wrapped { !v.cycle_state } else { v.cycle_state },
            ..v
        }
    } else {
        EventRingView { enqueue_pointer: v.enqueue_pointer.wrapping_add(16), trb_count: (v.trb_count - 1) as u32, ..v }
    }
}

/// The event ring: its state lives in the controller, its segments and
/// segment table in guest memory.
#[derive(Debug, Clone)]
pub struct EventRing {
    base_address: u64,
    dequeue_pointer: u64,
    enqueue_pointer: u64,
    trb_count: u32,
    erst_count: u32,
    cycle_state: bool,
    erst_size: u32,
}

impl View for EventRing {
    type V = EventRingView;

    closed spec fn view(&self) -> EventRingView {
        EventRingView {
            base_address: self.base_address,
            dequeue_pointer: self.dequeue_pointer,
            enqueue_pointer: self.enqueue_pointer,
            trb_count: self.trb_count,
            erst_count: self.erst_count,
            cycle_state: self.cycle_state,
            erst_size: self.erst_size,
        }
    }
}

impl EventRing {
    /// The current segment is one of the table's.
    pub open spec fn wf(&self) -> bool {
        self@.erst_count < self@.erst_size || (self@.erst_size == 0 && self@.erst_count == 0)
    }

    /// An event ring that is not set up yet.
    pub fn new() -> (r: EventRing)
        ensures
            r.wf(),
            r@ == (EventRingView {
                base_address: 0,
                dequeue_pointer: 0,
                enqueue_pointer: 0,
                trb_count: 0,
                erst_count: 0,
                cycle_state: false,
                erst_size: 0,
            }),
    {
        EventRing {
            base_address: 0,
            dequeue_pointer: 0,
            enqueue_pointer: 0,
            trb_count: 0,
            erst_count: 0,
            cycle_state: false,
            erst_size: 0,
        }
    }

    /// ERSTBA was written: take the 64-byte aligned segment table at
    /// `erstba`, start at its first segment with producer cycle state 1.
    /// ERSTSZ must have been written before.
    pub fn configure<M: BusDevice>(&mut self, mem: &M, erstba: u64)
        requires
            old(self).wf(),
            erstba & 0x3f == 0,
            old(self)@.erst_size > 0,
        ensures
            final(self).wf(),
            final(self)@ == (EventRingView {
                base_address: erstba,
                enqueue_pointer: erst_entry(mem.memory(), erstba, 0).0,
                trb_count: erst_entry(mem.memory(), erstba, 0).1,
                cycle_state: true,
                ..old(self)@
            }),
    {
        self.base_address = erstba;
        self.enqueue_pointer = mem.read(Request::new(erstba, RequestSize::Size8));
        let count = mem.read(Request::new(erstba.wrapping_add(8), RequestSize::Size4));
        proof {
            crate::bytes::lemma_le_value_bound(read_bytes(mem.memory(), erstba.wrapping_add(8) as int, 4));
            crate::bytes::lemma_pow256_8();
        }
        self.trb_count = count as u32;
        self.cycle_state = true;
    }

    /// ERSTSZ was written: the number of segments, at least one.
    pub fn set_erst_size(&mut self, size: u32)
        requires
            old(self).wf(),
            size >= 1,
        ensures
            final(self).wf(),
            final(self)@ == (EventRingView {
                erst_size: size,
                erst_count: if old(self)@.erst_count >= size { 0 } else { old(self)@.erst_count },
                ..old(self)@
            }),
    {
        self.erst_size = size;
        if self.erst_count >= self.erst_size {
            self.erst_count = 0;
        }
    }

    /// ERDP was written: the driver's dequeue pointer.
    pub fn update_dequeue_pointer(&mut self, erdp: u64)
        ensures
            final(self)@ == (EventRingView { dequeue_pointer: erdp, ..old(self)@ }),
    {
        self.dequeue_pointer = erdp;
    }

    /// The segment table address.
    pub fn read_base_address(&self) -> (r: u64)
        ensures
            r == self@.base_address,
    {
        self.base_address
    }

    /// The driver's dequeue pointer.
    pub fn read_dequeue_pointer(&self) -> (r: u64)
        ensures
            r == self@.dequeue_pointer,
    {
        self.dequeue_pointer
    }

    /// The number of segments.
    pub fn read_erst_size(&self) -> (r: u64)
        ensures
            r == self@.erst_size,
    {
        self.erst_size as u64
    }

    /// The current producer cycle state.
    pub fn cycle_state(&self) -> (r: bool)
        ensures
            r == self@.cycle_state,
    {
        self.cycle_state
    }

    /// The address the next event goes to.
    pub fn enqueue_pointer(&self) -> (r: u64)
        ensures
            r == self@.enqueue_pointer,
    {
        self.enqueue_pointer
    }

    fn check_event_ring_full<M: BusDevice>(&self, mem: &M) -> (r: bool)
        requires
            self.wf(),
            self@.erst_size > 0,
        ensures
            r == ring_full(self@, mem.memory()),
    {
        if self.trb_count == 1 {
            let next_seg = (self.erst_count + 1) % self.erst_size;
            let entry_addr = self.base_address.wrapping_add((next_seg as u64) * 16);
            let next_seg_pointer = mem.read(Request::new(entry_addr, RequestSize::Size8));
            self.dequeue_pointer == next_seg_pointer
        } else {
            self.dequeue_pointer == self.enqueue_pointer.wrapping_add(16)
        }
    }

    fn advance_segment_or_wrap<M: BusDevice>(&mut self, mem: &M)
        requires
            old(self).wf(),
            old(self)@.erst_size > 0,
            old(self)@.trb_count == 0,
        ensures
            final(self).wf(),
            final(self)@ == advanced(EventRingView { trb_count: 1, ..old(self)@ }, mem.memory()),
    {
        self.erst_count = self.erst_count + 1;
        let wrapped = self.erst_count == self.erst_size;
        if wrapped {
            self.cycle_state = !self.cycle_state;
            self.erst_count = 0;
        }
        let entry_addr = self.base_address.wrapping_add((self.erst_count as u64) * 16);
        self.enqueue_pointer = mem.read(Request::new(entry_addr, RequestSize::Size8));
        let count = mem.read(Request::new(entry_addr.wrapping_add(8), RequestSize::Size4));
        proof {
            crate::bytes::lemma_le_value_bound(read_bytes(mem.memory(), entry_addr.wrapping_add(8) as int, 4));
            crate::bytes::lemma_pow256_8();
        }
        self.trb_count = count as u32;
    }

    /// Place `trb` at the enqueue pointer, stamped with the producer cycle
    /// state, and move on to the next slot. Nothing is written when the
    /// ring is not set up or full.
    pub fn enqueue<M: BusDevice>(&mut self, mem: &mut M, trb: &EventTrb) -> (r: Result<(), EventRingError>)
        requires
            old(self).wf(),
        ensures
            final(self).wf(),
            (old(self)@.erst_size == 0 || old(self)@.trb_count == 0) ==> r == Err::<(), EventRingError>(EventRingError::NotConfigured)
                && final(self)@ == old(self)@ && final(mem).memory() == old(mem).memory(),
            (old(self)@.erst_size > 0 && old(self)@.trb_count > 0 && ring_full(old(self)@, old(mem).memory())) ==> r == Err::<(), EventRingError>(EventRingError::Full)
                && final(self)@ == old(self)@ && final(mem).memory() == old(mem).memory(),
            (old(self)@.erst_size > 0 && old(self)@.trb_count > 0 && !ring_full(old(self)@, old(mem).memory())) ==> r is Ok
                && final(mem).memory() == write_bytes(old(mem).memory(), old(self)@.enqueue_pointer as int, event_bytes(*trb, old(self)@.cycle_state))
                && final(self)@ == advanced(old(self)@, final(mem).memory()),
    {
        if self.erst_size == 0 || self.trb_count == 0 {
            return Err(EventRingError::NotConfigured);
        }
        if self.check_event_ring_full(mem) {
            return Err(EventRingError::Full);
        }
        let bytes = trb.to_bytes(self.cycle_state);
        mem.write_bulk(self.enqueue_pointer, bytes.as_slice());
        self.trb_count = self.trb_count - 1;
        if self.trb_count == 0 {
            self.advance_segment_or_wrap(mem);
        } else {
            self.enqueue_pointer = self.enqueue_pointer.wrapping_add(TRB_SIZE);
        }
        Ok(())
    }
}

/// The command ring: where the controller reads the next command, and the
/// consumer cycle state.
#[derive(Debug, Clone, Copy, PartialEq, Eq, Structural)]
pub struct CommandRing {
    pub running: bool,
    pub dequeue_pointer: u64,
    pub cycle_state: bool,
}

/// What reading the next command from ring state `(dp, c)` gives: `None` when
/// the TRB at the dequeue pointer is not the driver's, after following one
/// Link TRB; else the command, the address it was read from, and the new
/// ring state.
pub open spec fn command_step(m: Seq<u8>, dp: u64, c: bool, r: Option<CommandTrb>, dp2: u64, c2: bool) -> bool {
    let b1 = trb_at(m, dp);
    if cycle_bit(b1) != c {
        r is None && dp2 == dp && c2 == c
    } else if trb_type(b1) == TRB_LINK && link_spec(b1) is Ok {
        let l = link_spec(b1)->Ok_0;
        let lc = if l.toggle_cycle { !c } else { c };
        let b2 = trb_at(m, l.ring_segment_pointer);
        if cycle_bit(b2) != lc {
            r is None && dp2 == l.ring_segment_pointer && c2 == lc
        } else {
            &&& r is Some
            &&& r->Some_0.address == l.ring_segment_pointer
            &&& command_spec(b2, r->Some_0.variant)
            &&& dp2 == l.ring_segment_pointer.wrapping_add(16)
            &&& c2 == lc
        }
    } else {
        &&& r is Some
        &&& r->Some_0.address == dp
        &&& command_spec(b1, r->Some_0.variant)
        &&& dp2 == dp.wrapping_add(16)
        &&& c2 == c
    }
}

impl CommandRing {
    /// A stopped command ring at address zero.
    pub open spec fn new_spec() -> CommandRing {
        CommandRing { running: false, dequeue_pointer: 0, cycle_state: false }
    }

    /// A stopped command ring.
    pub fn new() -> (r: CommandRing)
        ensures
            r == CommandRing::new_spec(),
    {
        CommandRing { running: false, dequeue_pointer: 0, cycle_state: false }
    }

    /// CRCR was written. While the ring is stopped this sets the dequeue
    /// pointer (bits 63:6) and the consumer cycle state (RCS, bit 0); while it
    /// runs the write is ignored, as abort and stop are not supported.
    pub fn control(&mut self, value: u64)
        ensures
            old(self).running ==> *final(self) == *old(self),
            final(self).dequeue_pointer & 0xf == 0 || old(self).running,
            !old(self).running ==> *final(self) == (CommandRing {
                running: false,
                dequeue_pointer: value & CRCR_DEQUEUE_POINTER_MASK,
                cycle_state: value & CRCR_RCS != 0,
            }),
    {
        if !self.running {
            assert((value & 0xFFFF_FFFF_FFFF_FFC0u64) & 0xf == 0) by (bit_vector);
            self.dequeue_pointer = value & CRCR_DEQUEUE_POINTER_MASK;
            self.cycle_state = value & CRCR_RCS != 0;
        }
    }

    /// CRCR as read back: only the command ring running bit.
    pub fn status(&self) -> (r: u64)
        ensures
            r == if self.running { CRCR_CRR } else { 0 },
    {
        if self.running {
            CRCR_CRR
        } else {
            0
        }
    }

    /// Take the next command from the ring, following a Link TRB. A Link TRB
    /// right after a Link TRB is handed out as the command; the caller treats
    /// it as the driver error it is.
    pub fn next_command_trb<M: BusDevice>(&mut self, mem: &M) -> (r: Option<CommandTrb>)
        ensures
            final(self).running == old(self).running,
            old(self).dequeue_pointer & 0xf == 0 ==> final(self).dequeue_pointer & 0xf == 0,
            old(self).dequeue_pointer & 0xf == 0 ==> (r matches Some(c) ==> c.address & 0xf == 0),
            command_step(mem.memory(), old(self).dequeue_pointer, old(self).cycle_state, r, final(self).dequeue_pointer, final(self).cycle_state),
    {
        let first = next_trb_buffer(mem, self.dequeue_pointer, self.cycle_state);
        let first = match first {
            Some(b) => b,
            None => return None,
        };
        let first_trb = CommandTrbVariant::parse(first);
        let final_trb = match first_trb {
            CommandTrbVariant::Link(link_data) => {
                self.dequeue_pointer = link_data.ring_segment_pointer;
                if link_data.toggle_cycle {
                    self.cycle_state = !self.cycle_state;
                }
                let second = next_trb_buffer(mem, self.dequeue_pointer, self.cycle_state);
                match second {
                    Some(b) => CommandTrbVariant::parse(b),
                    None => return None,
                }
            },
            other => other,
        };
        let address = self.dequeue_pointer;
        self.dequeue_pointer = self.dequeue_pointer.wrapping_add(TRB_SIZE);
        proof {
            let x = address;
            assert(x & 0xf == 0 ==> x.wrapping_add(16) & 0xf == 0) by (bit_vector);
        }
        Some(CommandTrb { address, variant: final_trb })
    }
}

/// Why a control request could not be assembled from the transfer ring.
#[derive(Debug, Clone, PartialEq, Eq)]
pub enum RequestParseError {
    /// A TRB of another type than the ones listed stood where they were
    /// expected.
    UnexpectedTrbType(Vec<u8>, TransferTrbVariant),
    /// The ring ended before the request was complete.
    MissingTrb,
    /// The Data Stage is chained to further TRBs, which is not supported.
    ChainedDataStage,
}

/// What reading the next transfer TRB of the ring of endpoint context `ctx`
/// gives, with the memory `m2` after it (the ring state in the context
/// updated).
pub open spec fn transfer_step(m: Seq<u8>, ctx: u64, r: Option<TransferTrb>, m2: Seq<u8>) -> bool {
    let (dp, c) = ring_state(m, ctx);
    let b1 = trb_at(m, dp);
    if cycle_bit(b1) != c {
        r is None && m2 == m
    } else if trb_type(b1) == TRB_LINK && link_spec(b1) is Ok {
        let l = link_spec(b1)->Ok_0;
        let lc = if l.toggle_cycle { !c } else { c };
        let m1 = with_ring_state(m, ctx, l.ring_segment_pointer, lc);
        let b2 = trb_at(m1, l.ring_segment_pointer);
        if cycle_bit(b2) != lc {
            r is None && m2 == m1
        } else {
            &&& r is Some
            &&& r->Some_0.address == l.ring_segment_pointer
            &&& transfer_spec(b2, r->Some_0.variant)
            &&& m2 == with_ring_state(m1, ctx, l.ring_segment_pointer.wrapping_add(16), lc)
        }
    } else {
        &&& r is Some
        &&& r->Some_0.address == dp
        &&& transfer_spec(b1, r->Some_0.variant)
        &&& m2 == with_ring_state(m, ctx, dp.wrapping_add(16), c)
    }
}

/// The TRB types `a`, then `b` if given.
fn type_list(a: u8, b: Option<u8>) -> (r: Vec<u8>)
    ensures
        r@ == match b {
            Some(x) => seq![a, x],
            None => seq![a],
        },
{
    let mut v: Vec<u8> = Vec::new();
    v.push(a);
    if let Some(x) = b {
        v.push(x);
    }
    assert(v@ =~= match b {
        Some(x) => seq![a, x],
        None => seq![a],
    });
    v
}

/// The request assembled from Setup Stage `s`, ending with the Status
/// Stage at `address`, with the Data Stage buffer `data` if there is one.
pub open spec fn request_from(s: SetupStageTrbData, address: u64, data: Option<u64>) -> UsbRequest {
    UsbRequest {
        address,
        request_type: s.request_type,
        request: s.request,
        value: s.value,
        index: s.index,
        length: s.length,
        data,
    }
}

/// The error of an unexpected TRB where the types `expected` were.
pub open spec fn unexpected(r: Option<Result<UsbRequest, RequestParseError>>, expected: Seq<u8>, found: TransferTrbVariant) -> bool {
    r matches Some(Err(RequestParseError::UnexpectedTrbType(v, x))) && v@ == expected && x == found
}

/// What follows the unchained Data Stage `d`: the Status Stage completes
/// the request.
pub open spec fn after_data(m2: Seq<u8>, ctx: u64, s: SetupStageTrbData, d: DataStageTrbData, r: Option<Result<UsbRequest, RequestParseError>>, mf: Seq<u8>) -> bool {
    exists|t3: Option<TransferTrb>, m3: Seq<u8>| #[trigger] transfer_step(m2, ctx, t3, m3) && mf == m3 && match t3 {
        None => r == Some(Err::<UsbRequest, RequestParseError>(RequestParseError::MissingTrb)),
        Some(c) => if c.variant == TransferTrbVariant::StatusStage {
            r == Some(Ok::<UsbRequest, RequestParseError>(request_from(s, c.address, Some(d.data_pointer))))
        } else {
            unexpected(r, seq![TRB_STATUS_STAGE], c.variant)
        },
    }
}

/// What follows the Setup Stage `s`: a Status Stage, or an unchained Data
/// Stage and then a Status Stage.
pub open spec fn after_setup(m1: Seq<u8>, ctx: u64, s: SetupStageTrbData, r: Option<Result<UsbRequest, RequestParseError>>, mf: Seq<u8>) -> bool {
    exists|t2: Option<TransferTrb>, m2: Seq<u8>| #[trigger] transfer_step(m1, ctx, t2, m2) && match t2 {
        None => r == Some(Err::<UsbRequest, RequestParseError>(RequestParseError::MissingTrb)) && mf == m2,
        Some(b) => match b.variant {
            TransferTrbVariant::StatusStage => r == Some(Ok::<UsbRequest, RequestParseError>(request_from(s, b.address, None))) && mf == m2,
            TransferTrbVariant::DataStage(d) => if d.chain {
                r == Some(Err::<UsbRequest, RequestParseError>(RequestParseError::ChainedDataStage)) && mf == m2
            } else {
                after_data(m2, ctx, s, d, r, mf)
            },
            _ => unexpected(r, seq![TRB_DATA_STAGE, TRB_STATUS_STAGE], b.variant) && mf == m2,
        },
    }
}

/// What taking the next control request off the ring of endpoint context
/// `ctx` gives, with the memory `mf` after it.
pub open spec fn request_step(m0: Seq<u8>, ctx: u64, r: Option<Result<UsbRequest, RequestParseError>>, mf: Seq<u8>) -> bool {
    exists|t1: Option<TransferTrb>, m1: Seq<u8>| #[trigger] transfer_step(m0, ctx, t1, m1) && match t1 {
        None => r is None && mf == m1,
        Some(a) => match a.variant {
            TransferTrbVariant::SetupStage(s) => after_setup(m1, ctx, s, r, mf),
            _ => unexpected(r, seq![TRB_SETUP_STAGE], a.variant) && mf == m1,
        },
    }
}

/// A transfer ring; its dequeue pointer and cycle state live in the
/// endpoint context in guest memory.
#[derive(Debug, Clone, Copy, PartialEq, Eq, Structural)]
pub struct TransferRing {
    pub endpoint_context: EndpointContext,
}

impl TransferRing {
    /// The transfer ring of the endpoint context `endpoint_context`.
    pub fn new(endpoint_context: EndpointContext) -> (r: TransferRing)
        ensures
            r.endpoint_context == endpoint_context,
    {
        TransferRing { endpoint_context }
    }

    /// Take the next TRB from the ring, following a Link TRB.
    pub fn next_transfer_trb<M: BusDevice>(&self, mem: &mut M) -> (r: Option<TransferTrb>)
        ensures
            transfer_step(old(mem).memory(), self.endpoint_context.address, r, final(mem).memory()),
    {
        let (mut dequeue_pointer, mut cycle_state) = self.endpoint_context.get_dequeue_pointer_and_cycle_state(mem);
        proof {
            let v = crate::device_slots::read_u64(mem.memory(), self.endpoint_context.address.wrapping_add(8));
            assert((v & !0xfu64) & 0xf == 0) by (bit_vector);
        }
        let first = match next_trb_buffer(mem, dequeue_pointer, cycle_state) {
            Some(b) => b,
            None => return None,
        };
        let first_trb = TransferTrbVariant::parse(first);
        let final_trb = match first_trb {
            TransferTrbVariant::Link(link_data) => {
                dequeue_pointer = link_data.ring_segment_pointer;
                if link_data.toggle_cycle {
                    cycle_state = !cycle_state;
                }
                self.endpoint_context.set_dequeue_pointer_and_cycle_state(mem, dequeue_pointer, cycle_state);
                match next_trb_buffer(mem, dequeue_pointer, cycle_state) {
                    Some(b) => TransferTrbVariant::parse(b),
                    None => return None,
                }
            },
            other => other,
        };
        let address = dequeue_pointer;
        let next = dequeue_pointer.wrapping_add(TRB_SIZE);
        proof {
            let x = dequeue_pointer;
            assert(x & 0xf == 0 ==> x.wrapping_add(16) & 0xf == 0) by (bit_vector);
        }
        self.endpoint_context.set_dequeue_pointer_and_cycle_state(mem, next, cycle_state);
        Some(TransferTrb { address, variant: final_trb })
    }

    /// Assemble the next control request: a Setup Stage, an optional Data
    /// Stage that is not chained, and a Status Stage, whose address becomes
    /// the request's. `None` when the ring holds no new TRB; an error where
    /// a stage is missing or of another type.
    pub fn next_request<M: BusDevice>(&self, mem: &mut M) -> (r: Option<Result<UsbRequest, RequestParseError>>)
        ensures
            request_step(old(mem).memory(), self.endpoint_context.address, r, final(mem).memory()),
    {
        let ghost ctx = self.endpoint_context.address;
        let ghost m0 = mem.memory();
        let o1 = self.next_transfer_trb(mem);
        let ghost m1 = mem.memory();
        assert(transfer_step(m0, ctx, o1, m1));
        let t1 = match o1 {
            Some(t) => t,
            None => return None,
        };
        let setup = match t1.variant {
            TransferTrbVariant::SetupStage(data) => data,
            other => return Some(Err(RequestParseError::UnexpectedTrbType(type_list(TRB_SETUP_STAGE, None), other))),
        };
        let o2 = self.next_transfer_trb(mem);
        let ghost m2 = mem.memory();
        assert(transfer_step(m1, ctx, o2, m2));
        let t2 = match o2 {
            Some(t) => t,
            None => {
                assert(after_setup(m1, ctx, setup, Some(Err(RequestParseError::MissingTrb)), m2));
                return Some(Err(RequestParseError::MissingTrb));
            },
        };
        match t2.variant {
            TransferTrbVariant::StatusStage => {
                let r = Some(Ok(UsbRequest {
                    address: t2.address,
                    request_type: setup.request_type,
                    request: setup.request,
                    value: setup.value,
                    index: setup.index,
                    length: setup.length,
                    data: None,
                }));
                assert(after_setup(m1, ctx, setup, r, m2));
                r
            },
            TransferTrbVariant::DataStage(data) => {
                if data.chain {
                    assert(after_setup(m1, ctx, setup, Some(Err(RequestParseError::ChainedDataStage)), m2));
                    return Some(Err(RequestParseError::ChainedDataStage));
                }
                let o3 = self.next_transfer_trb(mem);
                let ghost m3 = mem.memory();
                assert(transfer_step(m2, ctx, o3, m3));
                let r = match o3 {
                    None => Some(Err(RequestParseError::MissingTrb)),
                    Some(t3) => match t3.variant {
                        TransferTrbVariant::StatusStage => Some(Ok(UsbRequest {
                            address: t3.address,
                            request_type: setup.request_type,
                            request: setup.request,
                            value: setup.value,
                            index: setup.index,
                            length: setup.length,
                            data: Some(data.data_pointer),
                        })),
                        other => Some(Err(RequestParseError::UnexpectedTrbType(type_list(TRB_STATUS_STAGE, None), other))),
                    },
                };
                assert(after_data(m2, ctx, setup, data, r, m3));
                assert(after_setup(m1, ctx, setup, r, m3));
                r
            },
            other => {
                let r = Some(Err(RequestParseError::UnexpectedTrbType(type_list(TRB_DATA_STAGE, Some(TRB_STATUS_STAGE)), other)));
                assert(after_setup(m1, ctx, setup, r, m2));
                r
            },
        }
    }
}

/// Reading the next command is a function of the memory and the ring
/// state: two reads at the same, not yet advanced dequeue pointer find the
/// same TRB at the same address and leave the same ring state. Where the TRB
/// at the dequeue pointer is not a Link TRB, a command is found exactly when
/// its cycle bit equals the consumer cycle state.
pub proof fn lemma_command_step_deterministic(
    m: Seq<u8>,
    dp: u64,
    c: bool,
    r1: Option<CommandTrb>,
    dp1: u64,
    c1: bool,
    r2: Option<CommandTrb>,
    dp2: u64,
    c2: bool,
)
    requires
        command_step(m, dp, c, r1, dp1, c1),
        command_step(m, dp, c, r2, dp2, c2),
    ensures
        r1 is Some <==> r2 is Some,
        dp1 == dp2 && c1 == c2,
        r1 is Some ==> r1->Some_0.address == r2->Some_0.address,
        trb_type(trb_at(m, dp)) != TRB_LINK ==> (r1 is Some <==> cycle_bit(trb_at(m, dp)) == c),
{
}

/// The ring after `n` events were placed in turn, with the segment table in
/// memory `m`.
pub open spec fn advanced_n(v: EventRingView, m: Seq<u8>, n: nat) -> EventRingView
    decreases n,
{
    if n == 0 {
        v
    } else {
        advanced_n(advanced(v, m), m, (n - 1) as nat)
    }
}

/// The number of TRBs in the first `k` segments of the table at `base`.
pub open spec fn segments_total(m: Seq<u8>, base: u64, k: nat) -> nat
    decreases k,
{
    if k == 0 {
        0
    } else {
        (segments_total(m, base, (k - 1) as nat) + erst_entry(m, base, (k - 1) as u32).1) as nat
    }
}

/// The ring is at the start of segment `i` of its table.
pub open spec fn at_segment_start(v: EventRingView, m: Seq<u8>, i: u32) -> bool {
    &&& v.erst_count == i
    &&& v.enqueue_pointer == erst_entry(m, v.base_address, i).0
    &&& v.trb_count == erst_entry(m, v.base_address, i).1
}

proof fn lemma_advanced_n_split(v: EventRingView, m: Seq<u8>, a: nat, b: nat)
    ensures
        advanced_n(v, m, a + b) == advanced_n(advanced_n(v, m, a), m, b),
    decreases a,
{
    if a > 0 {
        lemma_advanced_n_split(advanced(v, m), m, (a - 1) as nat, b);
        assert((a + b - 1) as nat == (a - 1) as nat + b);
    }
}

/// Placing as many events as the current segment has slots left moves the
/// ring to the start of the next segment, or back to the first one with the
/// cycle state toggled after the last segment.
proof fn lemma_segment_walk(v: EventRingView, m: Seq<u8>)
    requires
        v.trb_count >= 1,
        v.erst_count < v.erst_size,
    ensures
        ({
            let w = advanced_n(v, m, v.trb_count as nat);
            let last = v.erst_count + 1 == v.erst_size;
            &&& w.base_address == v.base_address
            &&& w.erst_size == v.erst_size
            &&& w.dequeue_pointer == v.dequeue_pointer
            &&& at_segment_start(w, m, if last { 0 } else { (v.erst_count + 1) as u32 })
            &&& w.cycle_state == (if last { !v.cycle_state } else { v.cycle_state })
        }),
    decreases v.trb_count,
{
    let t = v.trb_count as nat;
    if t > 1 {
        let v1 = advanced(v, m);
        assert(v1.trb_count == v.trb_count - 1);
        lemma_segment_walk(v1, m);
        assert(advanced_n(v, m, t) == advanced_n(v1, m, (t - 1) as nat));
    } else {
        assert(advanced_n(advanced(v, m), m, 0) == advanced(v, m));
    }
}

/// Event ring wraparound: starting at the first segment of a table of
/// `erst_size` segments, none of them empty, placing as many events as the
/// segments hold together brings the enqueue pointer back to the first
/// segment's base with the producer cycle state toggled, and until the last
/// of them the cycle state stays as it was at every segment start.
pub proof fn lemma_event_ring_wraparound(v: EventRingView, m: Seq<u8>)
    requires
        v.erst_size >= 1,
        at_segment_start(v, m, 0),
        forall|i: u32| i < v.erst_size ==> #[trigger] erst_entry(m, v.base_address, i).1 >= 1,
    ensures
        ({
            let w = advanced_n(v, m, segments_total(m, v.base_address, v.erst_size as nat));
            &&& w.enqueue_pointer == erst_entry(m, v.base_address, 0).0
            &&& w.erst_count == 0
            &&& w.cycle_state == !v.cycle_state
        }),
        forall|j: nat| j < v.erst_size ==> ({
            let w = #[trigger] advanced_n(v, m, segments_total(m, v.base_address, j));
            at_segment_start(w, m, j as u32) && w.cycle_state == v.cycle_state
        }),
{
    assert forall|j: nat| j < v.erst_size implies ({
        let w = #[trigger] advanced_n(v, m, segments_total(m, v.base_address, j));
        &&& at_segment_start(w, m, j as u32)
        &&& w.cycle_state == v.cycle_state
        &&& w.base_address == v.base_address && w.erst_size == v.erst_size
    }) by {
        lemma_walk_prefix(v, m, j);
    }
    let k = v.erst_size as nat;
    lemma_walk_prefix(v, m, (k - 1) as nat);
    let w = advanced_n(v, m, segments_total(m, v.base_address, (k - 1) as nat));
    lemma_segment_walk(w, m);
    lemma_advanced_n_split(v, m, segments_total(m, v.base_address, (k - 1) as nat), w.trb_count as nat);
}

proof fn lemma_walk_prefix(v: EventRingView, m: Seq<u8>, j: nat)
    requires
        v.erst_size >= 1,
        j < v.erst_size,
        at_segment_start(v, m, 0),
        forall|i: u32| i < v.erst_size ==> #[trigger] erst_entry(m, v.base_address, i).1 >= 1,
    ensures
        ({
            let w = advanced_n(v, m, segments_total(m, v.base_address, j));
            &&& at_segment_start(w, m, j as u32)
            &&& w.cycle_state == v.cycle_state
            &&& w.base_address == v.base_address && w.erst_size == v.erst_size
        }),
    decreases j,
{
    if j > 0 {
        lemma_walk_prefix(v, m, (j - 1) as nat);
        let w = advanced_n(v, m, segments_total(m, v.base_address, (j - 1) as nat));
        assert(erst_entry(m, v.base_address, (j - 1) as u32).1 >= 1);
        lemma_segment_walk(w, m);
        lemma_advanced_n_split(v, m, segments_total(m, v.base_address, (j - 1) as nat), w.trb_count as nat);
    }
}

} // verus!

