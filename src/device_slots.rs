//! Device slots, and the device and endpoint contexts that the guest keeps
//! in its memory.

use vstd::prelude::*;

use crate::bus::{Request, RequestSize};
use crate::bytes::le_bytes;
use crate::constants::{ENDPOINT_STATE_DISABLED, ENDPOINT_STATE_RUNNING, SLOT_STATE_ADDRESSED, SLOT_STATE_CONFIGURED};
use crate::memory::{read_bytes, read_value, write_bytes, BusDevice};
use crate::realdevice::{endpoint_type_spec, EndpointType};
use crate::rings::TransferRing;

verus! {

/// The 64-bit value at address `a` of memory `m`.
pub open spec fn read_u64(m: Seq<u8>, a: u64) -> u64 {
    read_value(m, a as int, 8) as u64
}

/// The endpoint context of an endpoint in guest memory: its state in byte 0
/// and its transfer ring's dequeue pointer and cycle state at offset 8.
#[derive(Debug, Clone, Copy, PartialEq, Eq, Structural)]
pub struct EndpointContext {
    pub address: u64,
}

/// The dequeue pointer and cycle state that an endpoint context holds.
pub open spec fn ring_state(m: Seq<u8>, ctx: u64) -> (u64, bool) {
    let v = read_u64(m, ctx.wrapping_add(8));
    (v & !0xfu64, v & 1 != 0)
}

/// Memory after the endpoint context at `ctx` was given dequeue pointer `dp`
/// and cycle state `c`.
pub open spec fn with_ring_state(m: Seq<u8>, ctx: u64, dp: u64, c: bool) -> Seq<u8> {
    write_bytes(m, ctx.wrapping_add(8) as int, le_bytes((dp | if c { 1u64 } else { 0u64 }) as nat, 8))
}

impl EndpointContext {
    /// The endpoint context at `address`.
    pub fn new(address: u64) -> (r: EndpointContext)
        ensures
            r.address == address,
    {
        EndpointContext { address }
    }

    /// The dequeue pointer (bits 63:4) and cycle state (bit 0) of the
    /// endpoint's transfer ring.
    pub fn get_dequeue_pointer_and_cycle_state<M: BusDevice>(&self, mem: &M) -> (r: (u64, bool))
        ensures
            r == ring_state(mem.memory(), self.address),
    {
        let bytes = mem.read(Request::new(self.address.wrapping_add(8), RequestSize::Size8));
        (bytes & !0xfu64, bytes & 1 != 0)
    }

    /// Store a 16-byte aligned dequeue pointer and a cycle state.
    pub fn set_dequeue_pointer_and_cycle_state<M: BusDevice>(&self, mem: &mut M, dequeue_pointer: u64, cycle_state: bool)
        requires
            dequeue_pointer & 0xf == 0,
        ensures
            final(mem).memory() == with_ring_state(old(mem).memory(), self.address, dequeue_pointer, cycle_state),
    {
        let c: u64 = if cycle_state { 1 } else { 0 };
        mem.write(Request::new(self.address.wrapping_add(8), RequestSize::Size8), dequeue_pointer | c);
    }

    /// The endpoint state in byte 0.
    fn get_state<M: BusDevice>(&self, mem: &M) -> (r: u8)
        ensures
            r == read_value(mem.memory(), self.address as int, 1),
    {
        let v = mem.read(Request::new(self.address, RequestSize::Size1));
        proof {
            crate::bytes::lemma_le_value_bound(read_bytes(mem.memory(), self.address as int, 1));
            crate::bytes::lemma_pow256_8();
        }
        v as u8
    }

    /// Store the endpoint state in byte 0.
    fn set_state<M: BusDevice>(&self, mem: &mut M, state: u8)
        ensures
            final(mem).memory() == write_bytes(old(mem).memory(), self.address as int, le_bytes(state as nat, 1)),
    {
        mem.write(Request::new(self.address, RequestSize::Size1), state as u64);
    }
}

/// Why the contexts named by a command could not be used.
#[derive(Debug, Clone, Copy, PartialEq, Eq, Structural)]
pub enum ContextError {
    /// The input control context of Address Device holds other flags than
    /// exactly A0 and A1.
    UnexpectedInputFlags(u64),
    /// The input control context of Configure Endpoint lacks A0.
    MissingSlotContextFlag,
}

/// The slot and control endpoint contexts that Address Device copies: bytes
/// 32..96 of the input context, with the slot state set to Addressed and the
/// control endpoint set to Running.
pub open spec fn addressed_contexts(input: Seq<u8>) -> Seq<u8> {
    input.subrange(32, 96).update(15, (SLOT_STATE_ADDRESSED << 3) as u8).update(32, ENDPOINT_STATE_RUNNING)
}

/// Whether bit `i` of `flags` is set.
pub open spec fn flag_set(flags: u64, i: u64) -> bool {
    flags & (1u64 << i) != 0
}

/// Memory after the state bytes of the endpoints dropped in `flags`, among
/// 2..`k`, were cleared.
pub open spec fn dropped(m: Seq<u8>, addr: u64, flags: u64, k: nat) -> Seq<u8>
    decreases k,
{
    if k <= 2 {
        m
    } else {
        let m1 = dropped(m, addr, flags, (k - 1) as nat);
        if flag_set(flags, (k - 1) as u64) {
            write_bytes(m1, addr.wrapping_add(((k - 1) * 32) as u64) as int, seq![0u8])
        } else {
            m1
        }
    }
}

/// Memory after the endpoint contexts added in `flags`, among 1..`k`, were
/// copied from the input contexts `ctx` with their state set to Running.
pub open spec fn added(m: Seq<u8>, addr: u64, ctx: Seq<u8>, flags: u64, k: nat) -> Seq<u8>
    decreases k,
{
    if k <= 1 {
        m
    } else {
        let i = (k - 1) as nat;
        let m1 = added(m, addr, ctx, flags, i);
        if flag_set(flags, i as u64) {
            write_bytes(m1, addr.wrapping_add((i * 32) as u64) as int, ctx.subrange((32 * i) as int, (32 * i + 32) as int).update(0, ENDPOINT_STATE_RUNNING))
        } else {
            m1
        }
    }
}

/// The memory after Configure Endpoint with the input context at `input`
/// on the device context at `addr`.
pub open spec fn configured_memory(m: Seq<u8>, addr: u64, input: u64) -> Seq<u8> {
    let drop_flags = read_value(m, input as int, 4) as u64;
    let add_flags = read_value(m, input.wrapping_add(4) as int, 4) as u64;
    let ctx = read_bytes(m, input.wrapping_add(32) as int, 1024);
    let m2 = added(dropped(m, addr, drop_flags, 32), addr, ctx, add_flags, 32);
    write_bytes(m2, addr as int, ctx.subrange(0, 32).update(15, (SLOT_STATE_CONFIGURED << 3) as u8))
}

/// The endpoints among 1..`k` whose bit is set in `flags`, in order, each
/// with the type its input context `ctx` names.
pub open spec fn added_endpoints(flags: u64, ctx: Seq<u8>, k: nat) -> Seq<(u8, Option<EndpointType>)>
    decreases k,
{
    if k <= 1 {
        Seq::empty()
    } else {
        let i = (k - 1) as nat;
        let s = added_endpoints(flags, ctx, i);
        if flag_set(flags, i as u64) {
            s.push((i as u8, endpoint_type_spec((ctx[(32 * i + 4) as int] >> 3) & 7)))
        } else {
            s
        }
    }
}

/// A device context in guest memory: the slot context followed by the 31
/// endpoint contexts, 32 bytes each.
#[derive(Debug, Clone, Copy, PartialEq, Eq, Structural)]
pub struct DeviceContext {
    pub address: u64,
}

impl DeviceContext {
    /// The device context at `address`.
    pub fn new(address: u64) -> (r: DeviceContext)
        ensures
            r.address == address,
    {
        DeviceContext { address }
    }

    /// Address Device: copy the slot and control endpoint contexts from the
    /// input context at `addr_input_context`, marking the slot Addressed and
    /// the control endpoint Running. The input control context must add
    /// exactly the slot and the control endpoint.
    pub fn initialize<M: BusDevice>(&self, mem: &mut M, addr_input_context: u64)
        requires
            read_u64(old(mem).memory(), addr_input_context) == 0x3_0000_0000,
        ensures
            final(mem).memory() == write_bytes(
                old(mem).memory(),
                self.address as int,
                addressed_contexts(read_bytes(old(mem).memory(), addr_input_context as int, 96)),
            ),
    {
        let input_context = mem.read_bulk(addr_input_context, 96);
        let mut contexts: Vec<u8> = Vec::new();
        let mut i: usize = 32;
        while i < 96
            invariant
                32 <= i <= 96,
                input_context@.len() == 96,
                contexts@ == input_context@.subrange(32, i as int),
            decreases 96 - i,
        {
            contexts.push(input_context[i]);
            i = i + 1;
            assert(contexts@ =~= input_context@.subrange(32, i as int));
        }
        contexts.set(15, SLOT_STATE_ADDRESSED << 3);
        contexts.set(32, ENDPOINT_STATE_RUNNING);
        mem.write_bulk(self.address, contexts.as_slice());
    }

    /// Configure Endpoint: disable the endpoints dropped by the input control
    /// context at `addr_input_context`, copy in and start the endpoints it
    /// adds, copy the slot context with the slot state Configured, and return
    /// the indices of the added endpoints. The slot context flag A0 must be
    /// set.
    pub fn configure_endpoints<M: BusDevice>(&self, mem: &mut M, addr_input_context: u64) -> (r: Vec<(u8, Option<EndpointType>)>)
        requires
            (read_value(old(mem).memory(), addr_input_context.wrapping_add(4) as int, 4) as u64) & 1 == 1,
        ensures
            r@ == added_endpoints(
                read_value(old(mem).memory(), addr_input_context.wrapping_add(4) as int, 4) as u64,
                read_bytes(old(mem).memory(), addr_input_context.wrapping_add(32) as int, 1024),
                32,
            ),
            final(mem).memory() == configured_memory(old(mem).memory(), self.address, addr_input_context),
    {
        let drop_flags = mem.read(Request::new(addr_input_context, RequestSize::Size4));
        let add_flags = mem.read(Request::new(addr_input_context.wrapping_add(4), RequestSize::Size4));
        let ghost m = mem.memory();
        let input_context = mem.read_bulk(addr_input_context.wrapping_add(32), 1024);
        let mut i: u64 = 2;
        while i <= 31
            invariant
                2 <= i <= 32,
                input_context@ == read_bytes(m, addr_input_context.wrapping_add(32) as int, 1024),
                mem.memory() == dropped(m, self.address, drop_flags, i as nat),
            decreases 32 - i,
        {
            if drop_flags & (1u64 << i) != 0 {
                mem.write(Request::new(self.address.wrapping_add(i * 32), RequestSize::Size1), 0);
                proof {
                    assert(le_bytes(0, 1) =~= seq![0u8]) by {
                        crate::bytes::lemma_byte_of_ones(0);
                    }
                }
            }
            i = i + 1;
        }
        let ghost m1 = mem.memory();
        let mut enabled_endpoints: Vec<(u8, Option<EndpointType>)> = Vec::new();
        let mut i: u64 = 1;
        while i <= 31
            invariant
                1 <= i <= 32,
                input_context@ == read_bytes(m, addr_input_context.wrapping_add(32) as int, 1024),
                mem.memory() == added(m1, self.address, input_context@, add_flags, i as nat),
                input_context@.len() == 1024,
                enabled_endpoints@ == added_endpoints(add_flags, input_context@, i as nat),
            decreases 32 - i,
        {
            if add_flags & (1u64 << i) != 0 {
                let off = (i * 32) as usize;
                let field = (input_context[off + 4] >> 3) & 7;
                enabled_endpoints.push((i as u8, EndpointType::from_context_field(field)));
                let mut ep: Vec<u8> = Vec::new();
                let mut j: usize = 0;
                while j < 32
                    invariant
                        j <= 32,
                        off == i * 32,
                        1 <= i <= 31,
                        input_context@.len() == 1024,
                        ep@ == input_context@.subrange(off as int, off + j),
                    decreases 32 - j,
                {
                    ep.push(input_context[off + j]);
                    j = j + 1;
                    assert(ep@ =~= input_context@.subrange(off as int, off + j));
                }
                ep.set(0, ENDPOINT_STATE_RUNNING);
                mem.write_bulk(self.address.wrapping_add(i * 32), ep.as_slice());
            }
            i = i + 1;
        }
        let mut slot: Vec<u8> = Vec::new();
        let mut j: usize = 0;
        while j < 32
            invariant
                j <= 32,
                input_context@.len() == 1024,
                slot@ == input_context@.subrange(0, j as int),
            decreases 32 - j,
        {
            slot.push(input_context[j]);
            j = j + 1;
            assert(slot@ =~= input_context@.subrange(0, j as int));
        }
        slot.set(15, SLOT_STATE_CONFIGURED << 3);
        mem.write_bulk(self.address, slot.as_slice());
        enabled_endpoints
    }

    /// Store `state` in the state byte of endpoint context `endpoint_id`.
    pub fn set_endpoint_state<M: BusDevice>(&self, mem: &mut M, endpoint_id: u8, state: u8)
        ensures
            final(mem).memory() == write_bytes(
                old(mem).memory(),
                self.address.wrapping_add(((endpoint_id as u64) * 32) as u64) as int,
                le_bytes(state as nat, 1),
            ),
    {
        mem.write(Request::new(self.address.wrapping_add(endpoint_id as u64 * 32), RequestSize::Size1), state as u64);
    }

    /// The endpoint context with index `index` (1 to 31).
    fn get_endpoint_context_internal(&self, index: u64) -> (r: EndpointContext)
        requires
            1 <= index <= 31,
        ensures
            r.address == self.address.wrapping_add((32 * index) as u64),
    {
        EndpointContext::new(self.address.wrapping_add(32 * index))
    }

    /// The transfer ring of the control endpoint.
    pub fn get_control_transfer_ring(&self) -> (r: TransferRing)
        ensures
            r.endpoint_context.address == self.address.wrapping_add(32),
    {
        TransferRing::new(self.get_endpoint_context_internal(1))
    }

    /// The transfer ring of endpoint `endpoint_index` (1 to 31), which must
    /// not be disabled; it is set Running unless it already is.
    pub fn get_transfer_ring<M: BusDevice>(&self, mem: &mut M, endpoint_index: u64) -> (r: TransferRing)
        requires
            1 <= endpoint_index <= 31,
            read_value(old(mem).memory(), self.address.wrapping_add((32 * endpoint_index) as u64) as int, 1) != ENDPOINT_STATE_DISABLED,
        ensures
            ({
                let ctx = self.address.wrapping_add((32 * endpoint_index) as u64);
                let state = read_value(old(mem).memory(), ctx as int, 1);
                &&& r == TransferRing { endpoint_context: EndpointContext { address: ctx } }
                &&& state == ENDPOINT_STATE_RUNNING ==> final(mem).memory() == old(mem).memory()
                &&& state != ENDPOINT_STATE_RUNNING ==> final(mem).memory() == write_bytes(old(mem).memory(), ctx as int, le_bytes(ENDPOINT_STATE_RUNNING as nat, 1))
            }),
    {
        let endpoint_context = self.get_endpoint_context_internal(endpoint_index);
        let state = endpoint_context.get_state(mem);
        if state != ENDPOINT_STATE_RUNNING {
            endpoint_context.set_state(mem, ENDPOINT_STATE_RUNNING);
        }
        TransferRing::new(endpoint_context)
    }
}

/// The device slots: which of the ids 1 to `num_slots` are in use, and the
/// guest address of the device context base address array.
#[derive(Debug, Clone)]
pub struct DeviceSlotManager {
    num_slots: u64,
    used_slots: Vec<u64>,
    dcbaap: u64,
}

impl DeviceSlotManager {
    /// The number of slots.
    pub closed spec fn slots(&self) -> u64 {
        self.num_slots
    }

    /// The slot ids in use, in the order they were reserved.
    pub closed spec fn used(&self) -> Seq<u64> {
        self.used_slots@
    }

    /// The stored device context base address array pointer.
    pub closed spec fn dcbaap_spec(&self) -> u64 {
        self.dcbaap
    }

    /// A manager of `num_slots` slots, none in use.
    pub fn new(num_slots: u64) -> (r: DeviceSlotManager)
        requires
            num_slots > 0,
        ensures
            r.slots() == num_slots,
            r.used() == Seq::<u64>::empty(),
            r.dcbaap_spec() == 0,
    {
        DeviceSlotManager { num_slots, used_slots: Vec::new(), dcbaap: 0 }
    }

    /// The number of slots.
    pub fn num_slots(&self) -> (r: u64)
        ensures
            r == self.slots(),
    {
        self.num_slots
    }

    /// Store the device context base address array pointer.
    pub fn set_dcbaap(&mut self, dcbaap: u64)
        ensures
            final(self).dcbaap_spec() == dcbaap,
            final(self).used() == old(self).used(),
            final(self).slots() == old(self).slots(),
    {
        self.dcbaap = dcbaap;
    }

    /// The stored device context base address array pointer.
    pub fn get_dcbaap(&self) -> (r: u64)
        ensures
            r == self.dcbaap_spec(),
    {
        self.dcbaap
    }

    /// Reserve the lowest free slot id among 1 to `num_slots`; `None` when
    /// all are in use.
    pub fn reserve_slot(&mut self) -> (r: Option<u64>)
        ensures
            final(self).slots() == old(self).slots(),
            final(self).dcbaap_spec() == old(self).dcbaap_spec(),
            r is None ==> final(self).used() == old(self).used()
                && forall|id: u64| 1 <= id <= old(self).slots() ==> old(self).used().contains(id),
            r is Some ==> ({
                let id = r->Some_0;
                &&& 1 <= id <= old(self).slots()
                &&& !old(self).used().contains(id)
                &&& forall|j: u64| 1 <= j < id ==> old(self).used().contains(j)
                &&& final(self).used() == old(self).used().push(id)
            }),
    {
        let mut id: u64 = 1;
        while id <= self.num_slots
            invariant
                1 <= id,
                id <= self.slots() + 1,
                forall|j: u64| 1 <= j < id ==> self.used().contains(j),
                self.slots() == old(self).slots(),
                self.dcbaap_spec() == old(self).dcbaap_spec(),
                self.used() == old(self).used(),
            decreases self.num_slots + 1 - id,
        {
            if !self.is_used(id) {
                self.used_slots.push(id);
                return Some(id);
            }
            if id == u64::MAX {
                return None;
            }
            id = id + 1;
        }
        None
    }

    /// The device context of slot `slot_id`, which must be in use, read from
    /// the device context base address array.
    pub fn get_device_context<M: BusDevice>(&self, mem: &M, slot_id: u8) -> (r: DeviceContext)
        requires
            self.used().contains(slot_id as u64),
        ensures
            r.address == read_u64(mem.memory(), self.dcbaap_spec().wrapping_add(((slot_id as u64) * 8) as u64)),
    {
        let address = mem.read(Request::new(self.dcbaap.wrapping_add(slot_id as u64 * 8), RequestSize::Size8));
        DeviceContext::new(address)
    }

    /// Whether slot `slot_id` is in use.
    pub fn is_used(&self, slot_id: u64) -> (r: bool)
        ensures
            r == self.used().contains(slot_id),
    {
        let mut i: usize = 0;
        while i < self.used_slots.len()
            invariant
                i <= self.used_slots@.len(),
                forall|j: int| 0 <= j < i ==> self.used_slots@[j] != slot_id,
            decreases self.used_slots@.len() - i,
        {
            if self.used_slots[i] == slot_id {
                return true;
            }
            i = i + 1;
        }
        false
    }
}

} // verus!
