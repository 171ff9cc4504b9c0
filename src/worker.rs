//! The decisions of an endpoint worker: what the next Normal TRB of its
//! transfer ring asks for, what reaches guest memory when a transfer ends,
//! and the transfer event that reports it. Waiting for work and talking to
//! the device is the caller's part.

use vstd::prelude::*;

use crate::memory::{read_bytes, write_bytes, BusDevice};
use crate::realdevice::{in_buffer_size, in_buffer_size_spec};
use crate::rings::{advanced, ring_full, transfer_step, EventRing, EventRingError, TransferRing};
use crate::trb::{event_bytes, CompletionCode, EventTrb, NormalTrbData, TransferEventTrbData, TransferTrb, TransferTrbVariant};

verus! {

/// One transfer that a Normal TRB asks for.
#[derive(Debug, Clone, Copy, PartialEq, Eq, Structural)]
pub struct Work {
    /// The guest address of the Normal TRB.
    pub address: u64,
    pub data: NormalTrbData,
}

/// Why a worker cannot go on.
#[derive(Debug, Clone, PartialEq, Eq)]
pub enum WorkerError {
    /// The ring holds another TRB than a Normal one.
    UnexpectedTrb(TransferTrb),
}

/// How a finished transfer is reported.
#[derive(Debug, Clone, Copy, PartialEq, Eq, Structural)]
pub enum Completion {
    /// No event was asked for.
    Silent,
    /// The transfer event was posted; raise the interrupt.
    Posted,
    /// The transfer event did not fit on the event ring.
    Lost(EventRingError),
}

/// The worker of one non-control endpoint.
#[derive(Debug, Clone, Copy, PartialEq, Eq, Structural)]
pub struct EndpointWorker {
    pub slot_id: u8,
    pub endpoint_id: u8,
    pub transfer_ring: TransferRing,
}

impl EndpointWorker {
    /// A worker for endpoint `endpoint_id` of slot `slot_id`.
    pub fn new(slot_id: u8, endpoint_id: u8, transfer_ring: TransferRing) -> (r: EndpointWorker)
        ensures
            r == (EndpointWorker { slot_id, endpoint_id, transfer_ring }),
    {
        EndpointWorker { slot_id, endpoint_id, transfer_ring }
    }

    /// Take the next TRB off the ring: `Ok(None)` when there is none (wait
    /// for the doorbell), the transfer for a Normal TRB, an error for any
    /// other TRB.
    pub fn next_work<M: BusDevice>(&self, mem: &mut M) -> (r: Result<Option<Work>, WorkerError>)
        ensures
            exists|t: Option<TransferTrb>| #[trigger] transfer_step(old(mem).memory(), self.transfer_ring.endpoint_context.address, t, final(mem).memory()) && match t {
                None => r == Ok::<Option<Work>, WorkerError>(None),
                Some(trb) => match trb.variant {
                    TransferTrbVariant::Normal(d) => r == Ok::<Option<Work>, WorkerError>(Some(Work { address: trb.address, data: d })),
                    _ => r is Err,
                },
            },
    {
        match self.transfer_ring.next_transfer_trb(mem) {
            None => Ok(None),
            Some(trb) => match trb.variant {
                TransferTrbVariant::Normal(d) => Ok(Some(Work { address: trb.address, data: d })),
                _ => Err(WorkerError::UnexpectedTrb(trb)),
            },
        }
    }

    /// The bytes an OUT transfer sends: `transfer_length` bytes at the data
    /// pointer.
    pub fn out_data<M: BusDevice>(&self, mem: &M, work: &Work) -> (r: Vec<u8>)
        ensures
            r@ == read_bytes(mem.memory(), work.data.data_pointer as int, work.data.transfer_length as nat),
    {
        mem.read_bulk(work.data.data_pointer, work.data.transfer_length as usize)
    }

    /// The size of the buffer an IN transfer reads into.
    pub fn in_buffer_size(&self, work: &Work, max_packet_size: u16) -> (r: u64)
        requires
            max_packet_size > 0,
        ensures
            r == in_buffer_size_spec(work.data.transfer_length as nat, max_packet_size as nat),
    {
        in_buffer_size(work.data.transfer_length, max_packet_size)
    }

    /// An IN transfer brought `received`: what fits into the transfer
    /// reaches guest memory at the data pointer; more is cut off, and a
    /// short read is not reported as such.
    pub fn finish_in<M: BusDevice>(&self, mem: &mut M, work: &Work, received: &[u8])
        ensures
            final(mem).memory() == write_bytes(
                old(mem).memory(),
                work.data.data_pointer as int,
                if received@.len() < work.data.transfer_length { received@ } else { received@.subrange(0, work.data.transfer_length as int) },
            ),
    {
        let n = if received.len() < work.data.transfer_length as usize { received.len() } else { work.data.transfer_length as usize };
        let mut part: Vec<u8> = Vec::new();
        let mut i: usize = 0;
        while i < n
            invariant
                i <= n,
                n <= received@.len(),
                part@ == received@.subrange(0, i as int),
            decreases n - i,
        {
            part.push(received[i]);
            i = i + 1;
            assert(part@ =~= received@.subrange(0, i as int));
        }
        assert(n == received@.len() ==> received@.subrange(0, n as int) =~= received@);
        mem.write_bulk(work.data.data_pointer, part.as_slice());
    }

    /// Report a finished transfer: when the TRB asks for an interrupt on
    /// completion, post a successful transfer event for it.
    pub fn complete<M: BusDevice>(&self, mem: &mut M, event_ring: &mut EventRing, work: &Work) -> (r: Completion)
        requires
            old(event_ring).wf(),
        ensures
            final(event_ring).wf(),
            !work.data.interrupt_on_completion ==> r == Completion::Silent && final(mem).memory() == old(mem).memory()
                && final(event_ring)@ == old(event_ring)@,
            work.data.interrupt_on_completion && old(event_ring)@.erst_size > 0 && old(event_ring)@.trb_count > 0
                && !ring_full(old(event_ring)@, old(mem).memory()) ==> ({
                let ev = EventTrb::Transfer(TransferEventTrbData {
                    trb_pointer: work.address,
                    trb_transfer_length: 0,
                    completion_code: CompletionCode::Success,
                    event_data: false,
                    endpoint_id: self.endpoint_id,
                    slot_id: self.slot_id,
                });
                &&& r == Completion::Posted
                &&& final(mem).memory() == write_bytes(old(mem).memory(), old(event_ring)@.enqueue_pointer as int, event_bytes(ev, old(event_ring)@.cycle_state))
                &&& final(event_ring)@ == advanced(old(event_ring)@, final(mem).memory())
            }),
            work.data.interrupt_on_completion && !(old(event_ring)@.erst_size > 0 && old(event_ring)@.trb_count > 0
                && !ring_full(old(event_ring)@, old(mem).memory())) ==> r is Lost,
    {
        if !work.data.interrupt_on_completion {
            return Completion::Silent;
        }
        let event = EventTrb::new_transfer_event_trb(work.address, 0, CompletionCode::Success, false, self.endpoint_id, self.slot_id);
        match event_ring.enqueue(mem, &event) {
            Ok(()) => Completion::Posted,
            Err(e) => Completion::Lost(e),
        }
    }
}

/// How the endpoint with context index `endpoint_id` (2 to 31) is reached
/// on the device: its endpoint number, whether it is an OUT endpoint (even
/// index), and its USB endpoint address (bit 7 set for IN).
pub fn endpoint_route(endpoint_id: u8) -> (r: (u8, bool, u8))
    requires
        2 <= endpoint_id <= 31,
    ensures
        r.0 == endpoint_id / 2,
        r.1 == (endpoint_id % 2 == 0),
        r.2 == if endpoint_id % 2 == 0 { endpoint_id / 2 } else { (endpoint_id / 2) | 0x80 },
{
    let index = endpoint_id / 2;
    let out = endpoint_id % 2 == 0;
    (index, out, if out { index } else { index | 0x80 })
}

/// The bytes a host-to-device control request sends: `length` bytes at its
/// data buffer, or none without a data stage.
pub fn control_out_data<M: BusDevice>(mem: &M, request: &crate::usbrequest::UsbRequest) -> (r: Vec<u8>)
    ensures
        r@ == match request.data {
            Some(p) => read_bytes(mem.memory(), p as int, request.length as nat),
            None => Seq::<u8>::empty(),
        },
{
    match request.data {
        Some(p) => mem.read_bulk(p, request.length as usize),
        None => Vec::new(),
    }
}

/// A device-to-host control request brought `received`: what fits into the
/// request's `length` reaches its data buffer; without a data stage nothing
/// is written.
pub fn finish_control_in<M: BusDevice>(mem: &mut M, request: &crate::usbrequest::UsbRequest, received: &[u8])
    ensures
        match request.data {
            Some(p) => final(mem).memory() == write_bytes(
                old(mem).memory(),
                p as int,
                if received@.len() < request.length { received@ } else { received@.subrange(0, request.length as int) },
            ),
            None => final(mem).memory() == old(mem).memory(),
        },
{
    if let Some(p) = request.data {
        let n = if received.len() < request.length as usize { received.len() } else { request.length as usize };
        let mut part: Vec<u8> = Vec::new();
        let mut i: usize = 0;
        while i < n
            invariant
                i <= n,
                n <= received@.len(),
                part@ == received@.subrange(0, i as int),
            decreases n - i,
        {
            part.push(received[i]);
            i = i + 1;
            assert(part@ =~= received@.subrange(0, i as int));
        }
        assert(n == received@.len() ==> received@.subrange(0, n as int) =~= received@);
        mem.write_bulk(p, part.as_slice());
    }
}

} // verus!

