//! Guest memory as the device model sees it: a byte-addressed space where
//! unmapped addresses read as all ones and swallow writes.

use vstd::prelude::*;

use crate::bus::{size_bytes, Request};
use crate::bytes::{le_byte, le_bytes, le_value};

verus! {

/// The byte at address `a` of a memory with content `m`: unmapped bytes read
/// as `0xFF`.
pub open spec fn mem_byte(m: Seq<u8>, a: int) -> u8 {
    if 0 <= a < m.len() {
        m[a]
    } else {
        0xFF
    }
}

/// The `n` bytes at address `a`.
pub open spec fn read_bytes(m: Seq<u8>, a: int, n: nat) -> Seq<u8> {
    Seq::new(n, |i: int| mem_byte(m, a + i))
}

/// The little-endian value of the `n` bytes at address `a`.
pub open spec fn read_value(m: Seq<u8>, a: int, n: nat) -> nat {
    le_value(read_bytes(m, a, n))
}

/// The memory after `d` was written at address `a`; bytes that fall outside
/// the mapped range are dropped.
pub open spec fn write_bytes(m: Seq<u8>, a: int, d: Seq<u8>) -> Seq<u8> {
    Seq::new(m.len(), |j: int| if a <= j < a + d.len() { d[j - a] } else { m[j] })
}

/// A device on a memory bus, seen as the bytes it holds.
pub trait BusDevice {
    /// The bytes of the device, from address 0. Every implementation in
    /// this library defines it. Devices implemented outside the library,
    /// whose contracts nothing here checks, get an unspecified value.
    closed spec fn memory(&self) -> Seq<u8> {
        vstd::pervasive::arbitrary()
    }

    /// The size of the device in bytes.
    fn size(&self) -> (r: u64)
        ensures
            r == self.memory().len(),
    ;

    /// Read the bytes of `req` as a little-endian value.
    fn read(&self, req: Request) -> (r: u64)
        ensures
            r == read_value(self.memory(), req.addr as int, size_bytes(req.size)),
    ;

    /// Write the low bytes of `value` at `req`.
    fn write(&mut self, req: Request, value: u64)
        ensures
            final(self).memory() == write_bytes(
                old(self).memory(),
                req.addr as int,
                le_bytes(value as nat, size_bytes(req.size)),
            ),
    ;

    /// Read `len` bytes starting at `offset`.
    fn read_bulk(&self, offset: u64, len: usize) -> (r: Vec<u8>)
        ensures
            r@ == read_bytes(self.memory(), offset as int, len as nat),
    ;

    /// Write `data` starting at `offset`.
    fn write_bulk(&mut self, offset: u64, data: &[u8])
        ensures
            final(self).memory() == write_bytes(old(self).memory(), offset as int, data@),
    ;
}

/// Guest memory held in a vector of bytes starting at address 0.
#[derive(Debug, Clone)]
pub struct GuestRam {
    data: Vec<u8>,
}

impl GuestRam {
    /// Memory of `size` zero bytes.
    pub fn new(size: usize) -> (r: GuestRam)
        ensures
            r.memory() == Seq::new(size as nat, |i: int| 0u8),
    {
        let r = GuestRam { data: vec![0u8; size] };
        assert(r.data@ =~= Seq::new(size as nat, |i: int| 0u8));
        r
    }

    /// Memory holding a copy of `data`.
    pub fn from_bytes(data: &[u8]) -> (r: GuestRam)
        ensures
            r.memory() == data@,
    {
        let mut v: Vec<u8> = Vec::new();
        let mut i: usize = 0;
        while i < data.len()
            invariant
                i <= data@.len(),
                v@ == data@.subrange(0, i as int),
            decreases data@.len() - i,
        {
            v.push(data[i]);
            i = i + 1;
            assert(v@ =~= data@.subrange(0, i as int));
        }
        assert(v@ =~= data@);
        GuestRam { data: v }
    }

    fn byte_at(&self, a: u64, i: usize) -> (r: u8)
        ensures
            r == mem_byte(self.memory(), a + i),
    {
        let len = self.data.len();
        match a.checked_add(i as u64) {
            Some(x) => {
                if x < self.data.len() as u64 {
                    self.data[x as usize]
                } else {
                    0xFF
                }
            },
            None => 0xFF,
        }
    }
}

impl BusDevice for GuestRam {
    closed spec fn memory(&self) -> Seq<u8> {
        self.data@
    }

    fn size(&self) -> (r: u64) {
        self.data.len() as u64
    }

    fn read(&self, req: Request) -> (r: u64) {
        let n = req.size.bytes() as usize;
        let bytes = self.read_bulk(req.addr, n);
        assert(bytes@.subrange(0, n as int) =~= bytes@);
        crate::bytes::read_le(bytes.as_slice(), 0, n)
    }

    fn write(&mut self, req: Request, value: u64) {
        let n = req.size.bytes() as usize;
        let mut bytes: Vec<u8> = Vec::new();
        let mut i: usize = 0;
        while i < n
            invariant
                i <= n,
                n <= 8,
                bytes@ == le_bytes(value as nat, i as nat),
            decreases n - i,
        {
            bytes.push(le_byte(value, i));
            i = i + 1;
            assert(bytes@ =~= le_bytes(value as nat, i as nat));
        }
        self.write_bulk(req.addr, bytes.as_slice());
    }

    fn read_bulk(&self, offset: u64, len: usize) -> (r: Vec<u8>) {
        let mut r: Vec<u8> = Vec::new();
        let mut i: usize = 0;
        while i < len
            invariant
                i <= len,
                r@ == read_bytes(self.memory(), offset as int, i as nat),
            decreases len - i,
        {
            r.push(self.byte_at(offset, i));
            i = i + 1;
            assert(r@ =~= read_bytes(self.memory(), offset as int, i as nat));
        }
        r
    }

    fn write_bulk(&mut self, offset: u64, data: &[u8]) {
        let mut i: usize = 0;
        let ghost m0 = self.data@;
        let len = self.data.len();
        while i < data.len()
            invariant
                i <= data@.len(),
                len == self.data@.len(),
                self.data@.len() == m0.len(),
                m0 == old(self).memory(),
                forall|j: int| 0 <= j < m0.len() ==> #[trigger] self.data@[j] == (if offset <= j < offset + i {
                    data@[j - offset]
                } else {
                    m0[j]
                }),
            decreases data@.len() - i,
        {
            match offset.checked_add(i as u64) {
                Some(x) => {
                    if x < len as u64 {
                        self.data.set(x as usize, data[i]);
                    }
                },
                None => {},
            }
            i = i + 1;
        }
        assert(self.data@ =~= write_bytes(m0, offset as int, data@));
    }
}

/// Compare and exchange: where the value at `req` is `current`, write `new`
/// and return `Ok(current)`; else change nothing and return the value found.
pub fn compare_exchange_request<M: BusDevice>(dev: &mut M, req: Request, current: u64, new: u64) -> (r: Result<u64, u64>)
    ensures
        ({
            let found = read_value(old(dev).memory(), req.addr as int, size_bytes(req.size));
            &&& found == current ==> r == Ok::<u64, u64>(current) && final(dev).memory() == write_bytes(
                old(dev).memory(),
                req.addr as int,
                le_bytes(new as nat, size_bytes(req.size)),
            )
            &&& found != current ==> r == Err::<u64, u64>(found as u64) && final(dev).memory() == old(dev).memory()
        }),
{
    let old_value = dev.read(req);
    if old_value == current {
        dev.write(req, new);
        Ok(current)
    } else {
        Err(old_value)
    }
}

/// How a DMA mapping may be accessed.
#[derive(Debug, Clone, Copy, PartialEq, Eq, Structural)]
pub enum AccessRights {
    ReadOnly,
    ReadWrite,
}

/// The DMA map flag that allows reads.
pub const DMA_MAP_READ: u32 = 1;
/// The DMA map flag that allows writes.
pub const DMA_MAP_WRITE: u32 = 2;

/// The access rights that DMA map flags ask for: readable, and writable
/// or not; a mapping that cannot be read has none. Unknown bits are
/// ignored.
pub fn access_rights(flags: u32) -> (r: Option<AccessRights>)
    ensures
        flags & DMA_MAP_READ == 0 ==> r is None,
        flags & DMA_MAP_READ != 0 && flags & DMA_MAP_WRITE == 0 ==> r == Some(AccessRights::ReadOnly),
        flags & DMA_MAP_READ != 0 && flags & DMA_MAP_WRITE != 0 ==> r == Some(AccessRights::ReadWrite),
{
    let readable = flags & DMA_MAP_READ != 0;
    let writable = flags & DMA_MAP_WRITE != 0;
    if !readable {
        None
    } else if writable {
        Some(AccessRights::ReadWrite)
    } else {
        Some(AccessRights::ReadOnly)
    }
}

} // verus!

