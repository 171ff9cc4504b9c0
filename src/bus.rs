//! Bus requests: an address and one of the four access sizes.

use vstd::prelude::*;

use core::ops::Range;

use crate::bytes::{le_bytes, pow256};
use crate::memory::{mem_byte, read_bytes, read_value, write_bytes, BusDevice};

verus! {

/// The size of a bus access in bytes.
#[derive(Debug, Copy, Clone, PartialEq, Eq, Structural)]
pub enum RequestSize {
    Size1,
    Size2,
    Size4,
    Size8,
}

/// The number of bytes that a request size stands for.
pub open spec fn size_bytes(s: RequestSize) -> nat {
    match s {
        RequestSize::Size1 => 1,
        RequestSize::Size2 => 2,
        RequestSize::Size4 => 4,
        RequestSize::Size8 => 8,
    }
}

impl RequestSize {
    /// The number of bytes of this size.
    pub fn bytes(self) -> (r: u64)
        ensures
            r as nat == size_bytes(self),
    {
        match self {
            RequestSize::Size1 => 1,
            RequestSize::Size2 => 2,
            RequestSize::Size4 => 4,
            RequestSize::Size8 => 8,
        }
    }

    /// Convert a byte count into a request size.
    pub fn try_from_u64(value: u64) -> (r: Result<RequestSize, IllegalRequestSize>)
        ensures
            r is Ok <==> (value == 1 || value == 2 || value == 4 || value == 8),
            r is Ok ==> size_bytes(r->Ok_0) == value,
    {
        match value {
            1 => Ok(RequestSize::Size1),
            2 => Ok(RequestSize::Size2),
            4 => Ok(RequestSize::Size4),
            8 => Ok(RequestSize::Size8),
            _ => Err(IllegalRequestSize {  }),
        }
    }

    /// Convert a byte count given as `u32` into a request size.
    pub fn try_from_u32(value: u32) -> (r: Result<RequestSize, IllegalRequestSize>)
        ensures
            r is Ok <==> (value == 1 || value == 2 || value == 4 || value == 8),
            r is Ok ==> size_bytes(r->Ok_0) == value,
    {
        RequestSize::try_from_u64(value as u64)
    }

    /// Convert a byte count given as `usize` into a request size.
    pub fn try_from_usize(value: usize) -> (r: Result<RequestSize, IllegalRequestSize>)
        ensures
            r is Ok <==> (value == 1 || value == 2 || value == 4 || value == 8),
            r is Ok ==> size_bytes(r->Ok_0) == value,
    {
        RequestSize::try_from_u64(value as u64)
    }
}

/// A byte count that is not one of the four request sizes.
#[derive(Debug, Copy, Clone, PartialEq, Eq, Structural)]
pub struct IllegalRequestSize {}

/// The address-size pair of a bus read or write.
#[derive(Debug, Copy, Clone, PartialEq, Eq, Structural)]
pub struct Request {
    /// The address of the request.
    pub addr: u64,
    /// The size of the request.
    pub size: RequestSize,
}

/// A request whose last byte lies beyond the end of the address space.
#[derive(Debug, Copy, Clone, PartialEq, Eq, Structural)]
pub struct WrappingRequestError {}

impl Request {
    /// The address one past the last byte of the request, as an integer.
    pub open spec fn end(self) -> int {
        self.addr + size_bytes(self.size)
    }

    /// Whether the request goes past the end of the 64-bit address space.
    pub open spec fn wraps(self) -> bool {
        self.end() > u64::MAX
    }

    /// Create a new request from address and size.
    pub fn new(addr: u64, size: RequestSize) -> (r: Request)
        ensures
            r.addr == addr,
            r.size == size,
    {
        Request { addr, size }
    }

    /// Split a request into its single-byte requests, in address order.
    pub fn iter_bytes(&self) -> (r: Vec<Request>)
        requires
            !self.wraps(),
        ensures
            r@.len() == size_bytes(self.size),
            forall|i: int|
                0 <= i < r@.len() ==> #[trigger] r@[i] == (Request {
                    addr: (self.addr + i) as u64,
                    size: RequestSize::Size1,
                }),
    {
        let n = self.size.bytes();
        let mut r: Vec<Request> = Vec::new();
        let mut i: u64 = 0;
        while i < n
            invariant
                n == size_bytes(self.size),
                self.addr + n <= u64::MAX,
                i <= n,
                r@.len() == i,
                forall|j: int|
                    0 <= j < i ==> #[trigger] r@[j] == (Request {
                        addr: (self.addr + j) as u64,
                        size: RequestSize::Size1,
                    }),
            decreases n - i,
        {
            r.push(Request::new(self.addr + i, RequestSize::Size1));
            i = i + 1;
        }
        r
    }

    /// The byte range `addr..addr + size` that the request covers, or an
    /// error where that range would wrap around the address space.
    pub fn try_into_range(self) -> (r: Result<core::ops::Range<u64>, WrappingRequestError>)
        ensures
            r is Ok <==> !self.wraps(),
            r is Ok ==> r->Ok_0.start == self.addr && r->Ok_0.end == self.end(),
    {
        let size = self.size.bytes();
        match self.addr.checked_add(size) {
            Some(end) => Ok(self.addr..end),
            None => Err(WrappingRequestError {  }),
        }
    }
}


/// The value of `n` bytes that all have every bit set.
pub open spec fn all_ones(n: nat) -> nat {
    (pow256(n) - 1) as nat
}

/// The device that answers requests no other device takes: reads give all
/// bits set, writes are ignored.
#[derive(Debug, Clone, Copy)]
pub struct DefaultDevice {
    pub size: u64,
    pub name: &'static str,
}

impl DefaultDevice {
    /// A default device spanning the whole address space.
    pub fn new(name: &'static str) -> (r: DefaultDevice)
        ensures
            r.size == u64::MAX,
    {
        DefaultDevice { size: u64::MAX, name }
    }

    /// A default device of `size` bytes.
    pub fn new_with_size(name: &'static str, size: u64) -> (r: DefaultDevice)
        ensures
            r.size == size,
    {
        DefaultDevice { size, name }
    }

}

/// The value of `n` bytes of an empty memory: all bits set.
pub proof fn lemma_empty_reads_ones(a: int, n: nat)
    ensures
        read_value(Seq::<u8>::empty(), a, n) == all_ones(n),
    decreases n,
{
    crate::bytes::lemma_pow256_pos(n);
    if n > 0 {
        lemma_empty_reads_ones(a + 1, (n - 1) as nat);
        assert(read_bytes(Seq::<u8>::empty(), a, n).drop_first() =~= read_bytes(Seq::<u8>::empty(), a + 1, (n - 1) as nat));
        crate::bytes::lemma_pow256_pos((n - 1) as nat);
    } else {
        assert(read_bytes(Seq::<u8>::empty(), a, 0) =~= Seq::<u8>::empty());
    }
}

/// The default device holds no bytes: every read sees all bits set and
/// every write is dropped.
impl BusDevice for DefaultDevice {
    closed spec fn memory(&self) -> Seq<u8> {
        Seq::empty()
    }

    fn size(&self) -> (r: u64) {
        0
    }

    fn read(&self, req: Request) -> (r: u64) {
        proof {
            crate::bytes::lemma_pow256_8();
            lemma_empty_reads_ones(req.addr as int, size_bytes(req.size));
        }
        match req.size {
            RequestSize::Size1 => 0xFF,
            RequestSize::Size2 => 0xFFFF,
            RequestSize::Size4 => 0xFFFF_FFFF,
            RequestSize::Size8 => 0xFFFF_FFFF_FFFF_FFFF,
        }
    }

    fn write(&mut self, req: Request, value: u64) {
        assert(write_bytes(Seq::<u8>::empty(), req.addr as int, le_bytes(value as nat, size_bytes(req.size))) =~= Seq::<u8>::empty());
    }

    fn read_bulk(&self, offset: u64, len: usize) -> (r: Vec<u8>) {
        let mut r: Vec<u8> = Vec::new();
        let mut i: usize = 0;
        while i < len
            invariant
                i <= len,
                r@ == read_bytes(Seq::<u8>::empty(), offset as int, i as nat),
            decreases len - i,
        {
            r.push(0xFF);
            i = i + 1;
            assert(r@ =~= read_bytes(Seq::<u8>::empty(), offset as int, i as nat));
        }
        r
    }

    fn write_bulk(&mut self, offset: u64, data: &[u8]) {
        assert(write_bytes(Seq::<u8>::empty(), offset as int, data@) =~= Seq::<u8>::empty());
    }
}

/// A device on the bus and the address range it answers.
#[derive(Debug)]
pub struct DeviceEntry<D> {
    pub range: Range<u64>,
    pub device: D,
}

/// Why a device could not be added to a bus.
#[derive(Debug, PartialEq, Eq)]
pub enum AddBusDeviceError {
    /// The new device's range overlaps the one of a device already there.
    OverlapsExistingDevice { existing_range: Range<u64>, added_range: Range<u64> },
    /// The new device does not fit into the bus.
    DeviceOutOfRange { bus_size: u64, added_range: Range<u64> },
}

/// Whether the request lies completely inside the range.
pub open spec fn range_contains(r: Range<u64>, req: Request) -> bool {
    r.start <= req.addr && req.end() <= r.end
}

/// Whether the range and the bytes of the request share an address.
pub open spec fn range_overlaps(r: Range<u64>, req: Request) -> bool {
    r.start < r.end && r.start < req.end() && req.addr < r.end
}

/// Whether two ranges share an address.
pub open spec fn ranges_overlap(a: Range<u64>, b: Range<u64>) -> bool {
    a.start < a.end && b.start < b.end && a.start < b.end && b.start < a.end
}

/// Entry `i` is the first of `devs` whose range overlaps `r`.
pub open spec fn first_overlap<D>(devs: Seq<DeviceEntry<D>>, r: Range<u64>, i: int) -> bool {
    &&& 0 <= i < devs.len()
    &&& ranges_overlap(devs[i].range, r)
    &&& forall|j: int| 0 <= j < i ==> !ranges_overlap(#[trigger] devs[j].range, r)
}

/// The byte a bus with device entries `devs` holds at address `a`: the first
/// device whose range holds it, or the default device with memory `dm`.
pub open spec fn bus_byte<D: BusDevice>(devs: Seq<DeviceEntry<D>>, dm: Seq<u8>, a: int) -> u8
    decreases devs.len(),
{
    if devs.len() == 0 {
        mem_byte(dm, a)
    } else if devs[0].range.start <= a < devs[0].range.end {
        mem_byte(devs[0].device.memory(), a - devs[0].range.start)
    } else {
        bus_byte(devs.drop_first(), dm, a)
    }
}

/// A memory bus that routes requests to the devices by address.
#[derive(Debug)]
pub struct Bus<D, F = DefaultDevice> {
    devices: Vec<DeviceEntry<D>>,
    error_device: DefaultDevice,
    default: F,
    size: u64,
}

impl<D: BusDevice> Bus<D, DefaultDevice> {
    /// A bus of `size` bytes without devices; unclaimed addresses read as
    /// all ones.
    pub fn new(name: &'static str, size: u64) -> (r: Bus<D, DefaultDevice>)
        ensures
            r.wf(),
            r.entries() == Seq::<DeviceEntry<D>>::empty(),
            r.size_spec() == size,
            r.default_device().memory() == Seq::<u8>::empty(),
    {
        Bus { devices: Vec::new(), error_device: DefaultDevice::new_with_size(name, size), default: DefaultDevice::new_with_size(name, size), size }
    }
}

impl<D: BusDevice, F: BusDevice> Bus<D, F> {
    /// The device that answers requests no device of the bus holds.
    pub closed spec fn default_device(&self) -> F {
        self.default
    }

    /// The devices on the bus, in the order they were added.
    pub closed spec fn entries(&self) -> Seq<DeviceEntry<D>> {
        self.devices@
    }

    /// The size of the bus.
    pub closed spec fn size_spec(&self) -> u64 {
        self.size
    }

    /// Device ranges lie in the bus, match their device's size and do not
    /// overlap.
    pub open spec fn wf(&self) -> bool {
        &&& forall|i: int| 0 <= i < self.entries().len() ==> {
            let e = #[trigger] self.entries()[i];
            &&& e.range.start <= e.range.end <= self.size_spec()
            &&& e.range.end - e.range.start == e.device.memory().len()
        }
        &&& forall|i: int, j: int| 0 <= i < self.entries().len() && 0 <= j < self.entries().len() && i != j
            ==> !ranges_overlap(#[trigger] self.entries()[i].range, #[trigger] self.entries()[j].range)
    }

    /// A bus without devices whose unclaimed addresses go to `default_device`,
    /// at their own address; the bus is as large as that device.
    pub fn new_with_default(name: &'static str, default_device: F) -> (r: Bus<D, F>)
        ensures
            r.wf(),
            r.entries() == Seq::<DeviceEntry<D>>::empty(),
            r.size_spec() == default_device.memory().len(),
            r.default_device() == default_device,
    {
        let size = default_device.size();
        Bus { devices: Vec::new(), error_device: DefaultDevice::new_with_size(name, size), default: default_device, size }
    }

    /// The size of the bus.
    pub fn size(&self) -> (r: u64)
        ensures
            r == self.size_spec(),
    {
        self.size
    }

    /// Add `device` at `start_addr`. It must fit into the bus and overlap no
    /// device already there.
    pub fn add(&mut self, start_addr: u64, device: D) -> (r: Result<(), AddBusDeviceError>)
        requires
            old(self).wf(),
        ensures
            final(self).wf(),
            final(self).size_spec() == old(self).size_spec(),
            ({
                let end = start_addr + device.memory().len();
                let added = Range { start: start_addr, end: end as u64 };
                if end > old(self).size_spec() {
                    r == Err::<(), AddBusDeviceError>(AddBusDeviceError::DeviceOutOfRange {
                        bus_size: old(self).size_spec(),
                        added_range: Range { start: start_addr, end: start_addr.wrapping_add(device.memory().len() as u64) },
                    }) && final(self).entries() == old(self).entries()
                } else if exists|i: int| 0 <= i < old(self).entries().len() && ranges_overlap(#[trigger] old(self).entries()[i].range, added) {
                    final(self).entries() == old(self).entries() && exists|i: int| #[trigger] first_overlap(old(self).entries(), added, i)
                        && r == Err::<(), AddBusDeviceError>(AddBusDeviceError::OverlapsExistingDevice {
                            existing_range: old(self).entries()[i].range,
                            added_range: added,
                        })
                } else {
                    r is Ok && final(self).entries() == old(self).entries().push(DeviceEntry { range: added, device })
                }
            }),
    {
        let size = device.size();
        let end = match start_addr.checked_add(size) {
            Some(e) => e,
            None => {
                return Err(AddBusDeviceError::DeviceOutOfRange {
                    bus_size: self.size(),
                    added_range: start_addr..start_addr.wrapping_add(size),
                });
            },
        };
        let range = start_addr..end;
        if end > self.size() {
            return Err(AddBusDeviceError::DeviceOutOfRange { bus_size: self.size(), added_range: range });
        }
        let mut i: usize = 0;
        while i < self.devices.len()
            invariant
                i <= self.devices@.len(),
                *self == *old(self),
                self.wf(),
                end == start_addr + device.memory().len(),
                end <= self.size_spec(),
                range.start == start_addr && range.end == end,
                forall|j: int| 0 <= j < i ==> !ranges_overlap(#[trigger] self.devices@[j].range, range),
            decreases self.devices@.len() - i,
        {
            let e = &self.devices[i];
            if (range.start < range.end && e.range.start < e.range.end && e.range.start < range.end && range.start < e.range.end) {
                assert(first_overlap(old(self).entries(), range, i as int));
                return Err(AddBusDeviceError::OverlapsExistingDevice {
                    existing_range: e.range.start..e.range.end,
                    added_range: range,
                });
            }
            i = i + 1;
        }
        self.devices.push(DeviceEntry { range, device });
        proof {
            assert forall|a: int, b: int| 0 <= a < self.entries().len() && 0 <= b < self.entries().len() && a != b
                implies !ranges_overlap(#[trigger] self.entries()[a].range, #[trigger] self.entries()[b].range) by {
                if a < old(self).entries().len() && b < old(self).entries().len() {
                    assert(self.entries()[a] == old(self).entries()[a]);
                    assert(self.entries()[b] == old(self).entries()[b]);
                }
            }
        }
        Ok(())
    }

    /// The first device whose range holds the whole request, or whose range
    /// shares an address with it.
    fn find_device(&self, req: Request) -> (r: Option<(usize, bool)>)
        requires
            self.wf(),
            !req.wraps(),
        ensures
            r matches Some((i, contained)) ==> i < self.entries().len()
                && (contained <==> range_contains(self.entries()[i as int].range, req))
                && (contained || range_overlaps(self.entries()[i as int].range, req))
                && forall|j: int| 0 <= j < i ==> !range_contains(self.entries()[j].range, req) && !range_overlaps(self.entries()[j].range, req),
            r is None ==> forall|j: int| 0 <= j < self.entries().len() ==> !range_contains(#[trigger] self.entries()[j].range, req) && !range_overlaps(self.entries()[j].range, req),
    {
        let size = req.size.bytes();
        let end = req.addr + size;
        let mut i: usize = 0;
        while i < self.devices.len()
            invariant
                i <= self.devices@.len(),
                end == req.end(),
                forall|j: int| 0 <= j < i ==> !range_contains(#[trigger] self.devices@[j].range, req) && !range_overlaps(self.devices@[j].range, req),
            decreases self.devices@.len() - i,
        {
            let e = &self.devices[i];
            if e.range.start <= req.addr && end <= e.range.end {
                return Some((i, true));
            }
            if e.range.start < e.range.end && e.range.start < end && req.addr < e.range.end {
                return Some((i, false));
            }
            i = i + 1;
        }
        None
    }

    /// Read through the bus: the device whose range holds the whole request
    /// answers at the address relative to its start; any other request reads
    /// as all ones.
    pub fn read(&self, req: Request) -> (r: u64)
        requires
            self.wf(),
        ensures
            forall|i: int| 0 <= i < self.entries().len() && !req.wraps() && range_contains(#[trigger] self.entries()[i].range, req)
                ==> r == read_value(self.entries()[i].device.memory(), req.addr - self.entries()[i].range.start, size_bytes(req.size)),
            (req.wraps() || forall|i: int| 0 <= i < self.entries().len() ==> !range_overlaps(#[trigger] self.entries()[i].range, req))
                ==> r == read_value(self.default_device().memory(), req.addr as int, size_bytes(req.size)),
            (!req.wraps() && (forall|i: int| 0 <= i < self.entries().len() ==> !range_contains(#[trigger] self.entries()[i].range, req))
                && exists|i: int| 0 <= i < self.entries().len() && #[trigger] range_overlaps(self.entries()[i].range, req))
                ==> r == all_ones(size_bytes(req.size)),
    {
        match req.try_into_range() {
            Err(_) => self.default.read(req),
            Ok(_) => {
                match self.find_device(req) {
                    Some((i, true)) => {
                        let e = &self.devices[i];
                        let rel = Request::new(req.addr - e.range.start, req.size);
                        proof {
                            assert forall|j: int| 0 <= j < self.entries().len() && range_contains(#[trigger] self.entries()[j].range, req) implies j == i by {
                                if j != i {
                                    assert(!ranges_overlap(self.entries()[j].range, self.entries()[i as int].range));
                                }
                            }
                        }
                        e.device.read(rel)
                    },
                    Some((i, false)) => {
                        proof {
                            assert forall|j: int| 0 <= j < self.entries().len() implies !range_contains(#[trigger] self.entries()[j].range, req) by {
                                if j > i && range_contains(self.entries()[j].range, req) {
                                    assert(ranges_overlap(self.entries()[j].range, self.entries()[i as int].range));
                                }
                            }
                        }
                        proof {
                            lemma_empty_reads_ones(req.addr as int, size_bytes(req.size));
                        }
                        self.error_device.read(req)
                    },
                    None => self.default.read(req),
                }
            },
        }
    }

    /// Write through the bus: the device whose range holds the whole
    /// request takes it at the address relative to its start; any other
    /// request is dropped.
    pub fn write(&mut self, req: Request, value: u64)
        requires
            old(self).wf(),
        ensures
            final(self).wf(),
            final(self).size_spec() == old(self).size_spec(),
            final(self).entries().len() == old(self).entries().len(),
            forall|j: int| 0 <= j < old(self).entries().len() ==> (#[trigger] final(self).entries()[j]).range == old(self).entries()[j].range,
            forall|i: int| 0 <= i < old(self).entries().len() && !req.wraps() && range_contains(#[trigger] old(self).entries()[i].range, req)
                ==> final(self).entries()[i].device.memory() == write_bytes(
                    old(self).entries()[i].device.memory(),
                    req.addr - old(self).entries()[i].range.start,
                    le_bytes(value as nat, size_bytes(req.size)),
                ) && forall|j: int| 0 <= j < old(self).entries().len() && j != i ==> final(self).entries()[j] == old(self).entries()[j],
            (req.wraps() || forall|i: int| 0 <= i < old(self).entries().len() ==> !range_contains(#[trigger] old(self).entries()[i].range, req))
                ==> final(self).entries() == old(self).entries(),
            (req.wraps() || forall|i: int| 0 <= i < old(self).entries().len() ==> !range_overlaps(#[trigger] old(self).entries()[i].range, req))
                ==> final(self).default_device().memory() == write_bytes(
                    old(self).default_device().memory(),
                    req.addr as int,
                    le_bytes(value as nat, size_bytes(req.size)),
                ),
            !(req.wraps() || forall|i: int| 0 <= i < old(self).entries().len() ==> !range_overlaps(#[trigger] old(self).entries()[i].range, req))
                ==> final(self).default_device() == old(self).default_device(),
    {
        if req.try_into_range().is_err() {
            self.default.write(req, value);
            return;
        }
        match self.find_device(req) {
            Some((i, true)) => {
                proof {
                    assert forall|j: int| 0 <= j < self.entries().len() && range_contains(#[trigger] self.entries()[j].range, req) implies j == i by {
                        if j != i {
                            assert(!ranges_overlap(self.entries()[j].range, self.entries()[i as int].range));
                        }
                    }
                }
                let mut e = self.devices.remove(i);
                let rel = Request::new(req.addr - e.range.start, req.size);
                e.device.write(rel, value);
                self.devices.insert(i, e);
                proof {
                    assert forall|a: int, b: int| 0 <= a < self.entries().len() && 0 <= b < self.entries().len() && a != b
                        implies !ranges_overlap(#[trigger] self.entries()[a].range, #[trigger] self.entries()[b].range) by {
                        assert(self.entries()[a].range == old(self).entries()[a].range);
                        assert(self.entries()[b].range == old(self).entries()[b].range);
                    }
                    assert forall|a: int| 0 <= a < self.entries().len() implies {
                        let x = #[trigger] self.entries()[a];
                        &&& x.range.start <= x.range.end <= self.size_spec()
                        &&& x.range.end - x.range.start == x.device.memory().len()
                    } by {
                        assert(self.entries()[a].range == old(self).entries()[a].range);
                    }
                }
            },
            Some((i, false)) => {
                proof {
                    assert forall|j: int| 0 <= j < self.entries().len() implies !range_contains(#[trigger] self.entries()[j].range, req) by {
                        if j > i && range_contains(self.entries()[j].range, req) {
                            assert(ranges_overlap(self.entries()[j].range, self.entries()[i as int].range));
                        }
                    }
                }
                let mut error_device = self.error_device;
                error_device.write(req, value);
            },
            None => self.default.write(req, value),
        }
    }

    /// Write `data` starting at `offset`, one bulk write per device touched;
    /// bytes outside every device are dropped. Each device receives the part
    /// of `data` that falls into its range.
    pub fn write_bulk(&mut self, offset: u64, data: &[u8])
        requires
            old(self).wf(),
            offset + data@.len() <= u64::MAX,
        ensures
            final(self).wf(),
            final(self).size_spec() == old(self).size_spec(),
            final(self).entries().len() == old(self).entries().len(),
            forall|i: int| 0 <= i < old(self).entries().len() ==> (#[trigger] final(self).entries()[i]).range == old(self).entries()[i].range
                && final(self).entries()[i].device.memory() == write_bytes(
                    old(self).entries()[i].device.memory(),
                    offset - old(self).entries()[i].range.start,
                    data@,
                ),
            final(self).default_device().memory() == default_written(old(self).default_device().memory(), old(self).entries(), offset as int, data@),
    {
        let dlen = data.len();
        let end = offset + dlen as u64;
        let mut cur = offset;
        while cur < end
            invariant
                self.wf(),
                dlen == data@.len(),
                offset <= cur <= end,
                end == offset + data@.len(),
                self.size_spec() == old(self).size_spec(),
                self.default_device().memory() == default_written(old(self).default_device().memory(), old(self).entries(), offset as int, data@.subrange(0, cur - offset)),
                self.entries().len() == old(self).entries().len(),
                forall|i: int| 0 <= i < old(self).entries().len() ==> (#[trigger] self.entries()[i]).range == old(self).entries()[i].range
                    && self.entries()[i].device.memory() == write_bytes(
                        old(self).entries()[i].device.memory(),
                        offset - old(self).entries()[i].range.start,
                        data@.subrange(0, cur - offset),
                    ),
            decreases end - cur,
        {
            let ghost p = cur - offset;
            match self.find_containing(cur) {
                Some(i) => {
                    let start = self.devices[i].range.start;
                    let avail = self.devices[i].range.end - cur;
                    let chunk = if end - cur < avail { end - cur } else { avail };
                    assert(cur - offset <= dlen);
                    let from = (cur - offset) as usize;
                    let mut part: Vec<u8> = Vec::new();
                    let mut k: usize = 0;
                    while k < chunk as usize
                        invariant
                            k <= chunk,
                            from == cur - offset,
                            dlen == data@.len(),
                            cur + chunk <= end,
                            end == offset + data@.len(),
                            part@ == data@.subrange(from as int, from + k),
                        decreases chunk - k,
                    {
                        part.push(data[from + k]);
                        k = k + 1;
                        assert(part@ =~= data@.subrange(from as int, from + k));
                    }
                    let ghost before = self.entries();
                    let mut e = self.devices.remove(i);
                    let ghost e_mem = e.device.memory();
                    let ghost e_range = e.range;
                    e.device.write_bulk(cur - start, part.as_slice());
                    self.devices.insert(i, e);
                    proof {
                        let q = p + chunk;
                        assert(e_range == before[i as int].range && e_mem == before[i as int].device.memory());
                        assert(self.entries()[i as int].range == e_range);
                        assert(self.entries()[i as int].device.memory() == write_bytes(e_mem, cur - start, part@));
                        assert(part@ == data@.subrange(p, q));
                        assert forall|j: int| 0 <= j < before.len() && j != i implies self.entries()[j] == before[j] by {
                            if j < i {
                                assert(self.entries()[j] == before.remove(i as int)[j]);
                            } else {
                                assert(self.entries()[j] == before.remove(i as int)[j - 1]);
                            }
                        }
                        assert forall|j: int| 0 <= j < old(self).entries().len() implies (#[trigger] self.entries()[j]).range == old(self).entries()[j].range
                            && self.entries()[j].device.memory() == write_bytes(
                                old(self).entries()[j].device.memory(),
                                offset - old(self).entries()[j].range.start,
                                data@.subrange(0, q),
                            ) by {
                            let m0 = old(self).entries()[j].device.memory();
                            let o = offset - old(self).entries()[j].range.start;
                            if j == i {
                                lemma_write_bytes_append(m0, o, data@, p, q);
                            } else {
                                assert(self.entries()[j] == before[j]);
                                assert(!ranges_overlap(before[j].range, before[i as int].range));
                                lemma_write_bytes_extend(m0, o, data@, p, q);
                            }
                        }
                        assert forall|a: int, b: int| 0 <= a < self.entries().len() && 0 <= b < self.entries().len() && a != b
                            implies !ranges_overlap(#[trigger] self.entries()[a].range, #[trigger] self.entries()[b].range) by {
                            assert(self.entries()[a].range == before[a].range);
                            assert(self.entries()[b].range == before[b].range);
                        }
                        assert forall|a: int| 0 <= a < self.entries().len() implies {
                            let x = #[trigger] self.entries()[a];
                            &&& x.range.start <= x.range.end <= self.size_spec()
                            &&& x.range.end - x.range.start == x.device.memory().len()
                        } by {
                            assert(self.entries()[a].range == before[a].range);
                        }
                    }
                    proof {
                        let dm0 = old(self).default_device().memory();
                        let q = p + chunk;
                        assert forall|j: int| cur <= j < cur + chunk implies #[trigger] in_some_range(old(self).entries(), j) by {
                            assert(old(self).entries()[i as int].range.start <= j < old(self).entries()[i as int].range.end);
                        }
                        assert(self.default_device().memory() =~= default_written(dm0, old(self).entries(), offset as int, data@.subrange(0, q)));
                    }
                    cur = cur + chunk;
                },
                None => {
                    proof {
                        assert forall|j: int| 0 <= j < old(self).entries().len() implies (#[trigger] self.entries()[j]).range == old(self).entries()[j].range
                            && self.entries()[j].device.memory() == write_bytes(
                                old(self).entries()[j].device.memory(),
                                offset - old(self).entries()[j].range.start,
                                data@.subrange(0, p + 1),
                            ) by {
                            let m0 = old(self).entries()[j].device.memory();
                            let o = offset - old(self).entries()[j].range.start;
                            assert(!(self.entries()[j].range.start <= cur < self.entries()[j].range.end));
                            lemma_write_bytes_extend(m0, o, data@, p, p + 1);
                        }
                    }
                    let ghost dm = self.default_device().memory();
                    let mut one: Vec<u8> = Vec::new();
                    one.push(data[(cur - offset) as usize]);
                    self.default.write_bulk(cur, one.as_slice());
                    proof {
                        let dm0 = old(self).default_device().memory();
                        assert forall|a: int| 0 <= a < old(self).entries().len() implies !(#[trigger] old(self).entries()[a].range.start <= cur
                            < old(self).entries()[a].range.end) by {
                            assert(self.entries()[a].range == old(self).entries()[a].range);
                        }
                        assert(!in_some_range(old(self).entries(), cur as int));
                        assert(self.default_device().memory() =~= default_written(dm0, old(self).entries(), offset as int, data@.subrange(0, p + 1)));
                    }
                    cur = cur + 1;
                },
            }
        }
        assert(data@.subrange(0, data@.len() as int) =~= data@);
    }

    /// The first device whose range holds address `a`.
    fn find_containing(&self, a: u64) -> (r: Option<usize>)
        ensures
            r matches Some(i) ==> i < self.entries().len() && self.entries()[i as int].range.start <= a < self.entries()[i as int].range.end,
            r is None ==> forall|j: int| 0 <= j < self.entries().len() ==> !(#[trigger] self.entries()[j].range.start <= a < self.entries()[j].range.end),
    {
        let mut i: usize = 0;
        while i < self.devices.len()
            invariant
                i <= self.devices@.len(),
                forall|j: int| 0 <= j < i ==> !(#[trigger] self.devices@[j].range.start <= a < self.devices@[j].range.end),
            decreases self.devices@.len() - i,
        {
            if self.devices[i].range.start <= a && a < self.devices[i].range.end {
                return Some(i);
            }
            i = i + 1;
        }
        None
    }

    /// Read `len` bytes starting at `offset`, one bulk read per device
    /// touched; bytes outside every device come from the default device.
    pub fn read_bulk(&self, offset: u64, len: usize) -> (r: Vec<u8>)
        requires
            self.wf(),
            offset + len <= u64::MAX,
        ensures
            r@ == Seq::new(len as nat, |k: int| bus_byte(self.entries(), self.default_device().memory(), offset + k)),
    {
        let end = offset + len as u64;
        let mut cur = offset;
        let mut r: Vec<u8> = Vec::new();
        while cur < end
            invariant
                self.wf(),
                offset <= cur <= end,
                end == offset + len,
                r@ == Seq::new((cur - offset) as nat, |k: int| bus_byte(self.entries(), self.default_device().memory(), offset + k)),
            decreases end - cur,
        {
            match self.find_containing(cur) {
                Some(i) => {
                    let e = &self.devices[i];
                    let avail = e.range.end - cur;
                    let chunk = if end - cur < avail { end - cur } else { avail };
                    let bytes = e.device.read_bulk(cur - e.range.start, chunk as usize);
                    let mut k: usize = 0;
                    while k < bytes.len()
                        invariant
                            self.wf(),
                            i < self.entries().len(),
                            *e == self.entries()[i as int],
                            e.range.start <= cur,
                            offset <= cur < end,
                            end == offset + len,
                            cur + chunk <= e.range.end,
                            cur + chunk <= end,
                            bytes@ == read_bytes(e.device.memory(), cur - e.range.start, chunk as nat),
                            k <= bytes@.len(),
                            r@ == Seq::new((cur + k - offset) as nat, |x: int| bus_byte(self.entries(), self.default_device().memory(), offset + x)),
                        decreases bytes@.len() - k,
                    {
                        proof {
                            lemma_bus_byte_in(self.entries(), self.default_device().memory(), i as int, cur + k);
                            assert(bytes@[k as int] == mem_byte(e.device.memory(), cur - e.range.start + k));
                            assert(bus_byte(self.entries(), self.default_device().memory(), offset + (cur + k - offset)) == bytes@[k as int]);
                        }
                        let ghost r0 = r@;
                        r.push(bytes[k]);
                        proof {
                            let n = (cur + k - offset) as nat;
                            assert forall|x: int| 0 <= x < n + 1 implies r@[x] == bus_byte(self.entries(), self.default_device().memory(), offset + x) by {
                                if x < n {
                                    assert(r@[x] == r0[x]);
                                } else {
                                    assert(x == cur + k - offset);
                                }
                            }
                            assert(r@ =~= Seq::new(n + 1, |x: int| bus_byte(self.entries(), self.default_device().memory(), offset + x)));
                        }
                        k = k + 1;
                    }
                    cur = cur + chunk;
                },
                None => {
                    proof {
                        lemma_bus_byte_none(self.entries(), self.default_device().memory(), cur as int);
                    }
                    let b = self.default.read_bulk(cur, 1);
                    r.push(b[0]);
                    cur = cur + 1;
                    assert(r@ =~= Seq::new((cur - offset) as nat, |x: int| bus_byte(self.entries(), self.default_device().memory(), offset + x)));
                },
            }
        }
        r
    }
}

/// The byte at an address that device `i`'s range holds is that device's.
pub proof fn lemma_bus_byte_in<D: BusDevice>(devs: Seq<DeviceEntry<D>>, dm: Seq<u8>, i: int, a: int)
    requires
        0 <= i < devs.len(),
        devs[i].range.start <= a < devs[i].range.end,
        forall|x: int, y: int| 0 <= x < devs.len() && 0 <= y < devs.len() && x != y
            ==> !ranges_overlap(#[trigger] devs[x].range, #[trigger] devs[y].range),
    ensures
        bus_byte(devs, dm, a) == mem_byte(devs[i].device.memory(), a - devs[i].range.start),
    decreases devs.len(),
{
    if i > 0 {
        if devs[0].range.start <= a < devs[0].range.end {
            assert(ranges_overlap(devs[0].range, devs[i].range));
        }
        let rest = devs.drop_first();
        assert forall|x: int, y: int| 0 <= x < rest.len() && 0 <= y < rest.len() && x != y
            implies !ranges_overlap(#[trigger] rest[x].range, #[trigger] rest[y].range) by {
            assert(rest[x] == devs[x + 1] && rest[y] == devs[y + 1]);
        }
        lemma_bus_byte_in(rest, dm, i - 1, a);
    }
}

/// Whether one of the device ranges holds address `a`.
pub open spec fn in_some_range<D>(devs: Seq<DeviceEntry<D>>, a: int) -> bool {
    exists|i: int| 0 <= i < devs.len() && #[trigger] devs[i].range.start <= a < devs[i].range.end
}

/// The default device's bytes after `d` was written at `offset` through a
/// bus with entries `devs`: it takes the bytes that no device range holds.
pub open spec fn default_written<D>(dm: Seq<u8>, devs: Seq<DeviceEntry<D>>, offset: int, d: Seq<u8>) -> Seq<u8> {
    Seq::new(dm.len(), |j: int| if offset <= j < offset + d.len() && !in_some_range(devs, j) { d[j - offset] } else { dm[j] })
}

/// Writing the first `q` bytes of `d` is writing the first `p` of them and
/// then the rest right after.
pub proof fn lemma_write_bytes_append(m: Seq<u8>, o: int, d: Seq<u8>, p: int, q: int)
    requires
        0 <= p <= q <= d.len(),
    ensures
        write_bytes(write_bytes(m, o, d.subrange(0, p)), o + p, d.subrange(p, q)) == write_bytes(m, o, d.subrange(0, q)),
{
    assert(write_bytes(write_bytes(m, o, d.subrange(0, p)), o + p, d.subrange(p, q)) =~= write_bytes(m, o, d.subrange(0, q)));
}

/// Bytes that land outside the memory change nothing.
pub proof fn lemma_write_bytes_extend(m: Seq<u8>, o: int, d: Seq<u8>, p: int, q: int)
    requires
        0 <= p <= q <= d.len(),
        p == q || m.len() == 0 || o + q <= 0 || o + p >= m.len(),
    ensures
        write_bytes(m, o, d.subrange(0, q)) == write_bytes(m, o, d.subrange(0, p)),
{
    assert forall|j: int| 0 <= j < m.len() implies write_bytes(m, o, d.subrange(0, q))[j] == write_bytes(m, o, d.subrange(0, p))[j] by {
        if o + p <= j < o + q {
            assert(!(0 <= o + (j - o) < m.len()));
        }
    }
    assert(write_bytes(m, o, d.subrange(0, q)) =~= write_bytes(m, o, d.subrange(0, p)));
}

/// An address that no device's range holds reads as `0xFF`.
pub proof fn lemma_bus_byte_none<D: BusDevice>(devs: Seq<DeviceEntry<D>>, dm: Seq<u8>, a: int)
    requires
        forall|j: int| 0 <= j < devs.len() ==> !(#[trigger] devs[j].range.start <= a < devs[j].range.end),
    ensures
        bus_byte(devs, dm, a) == mem_byte(dm, a),
    decreases devs.len(),
{
    if devs.len() > 0 {
        let rest = devs.drop_first();
        assert forall|j: int| 0 <= j < rest.len() implies !(#[trigger] rest[j].range.start <= a < rest[j].range.end) by {
            assert(rest[j] == devs[j + 1]);
        }
        lemma_bus_byte_none(rest, dm, a);
    }
}


} // verus!
