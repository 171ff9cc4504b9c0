//! Byte-addressable register windows with per-bit read-write and
//! write-one-to-clear semantics.

use vstd::prelude::*;

use crate::bus::{size_bytes, Request};
use crate::bytes::{byte_of, le_bytes, le_value, read_le, write_le};

verus! {

/// What a register window holds: the current bytes, and for each byte the
/// bits that a write may set (`rw`) and those that a written one clears
/// (`w1c`).
pub struct RegisterSetView {
    pub data: Seq<u8>,
    pub rw: Seq<u8>,
    pub w1c: Seq<u8>,
}

/// A window of `size` bytes whose masks never share a bit.
pub open spec fn window_wf(v: RegisterSetView, size: nat) -> bool {
    &&& v.data.len() == size
    &&& v.rw.len() == size
    &&& v.w1c.len() == size
    &&& forall|i: int| 0 <= i < size ==> #[trigger] v.rw[i] & v.w1c[i] == 0
}

/// `s` with the `n` little-endian bytes of `v` placed at `pos`.
pub open spec fn place(s: Seq<u8>, pos: int, v: nat, n: nat) -> Seq<u8> {
    s.subrange(0, pos) + le_bytes(v, n) + s.subrange(pos + n, s.len() as int)
}

/// `s` with the sequence `part` placed at `pos`.
pub open spec fn place_seq(s: Seq<u8>, pos: int, part: Seq<u8>) -> Seq<u8> {
    s.subrange(0, pos) + part + s.subrange(pos + part.len(), s.len() as int)
}

/// The new content of a byte after the byte `b` was written to it: the
/// writable bits take `b`, and the write-one-to-clear bits written with a one
/// become zero.
pub open spec fn write_byte(old: u8, b: u8, rw: u8, w1c: u8) -> u8 {
    ((old & !rw) | (b & rw)) & !(b & w1c)
}

/// The window's bytes after `val` was written through the masks at the bytes
/// of `req`.
pub open spec fn written(v: RegisterSetView, req: Request, val: u64) -> Seq<u8> {
    Seq::new(
        v.data.len(),
        |i: int|
            if req.addr <= i < req.end() {
                write_byte(v.data[i], byte_of(val as nat, (i - req.addr) as nat), v.rw[i], v.w1c[i])
            } else {
                v.data[i]
            },
    )
}

/// A builder for [`RegisterSet`]: places registers of one, two, four or eight
/// bytes with their masks, and turns into the finished window.
#[derive(Debug, Clone)]
pub struct RegisterSetBuilder<const SIZE: usize> {
    data: Vec<u8>,
    rw_mask: Vec<u8>,
    w1c_mask: Vec<u8>,
}

impl<const SIZE: usize> View for RegisterSetBuilder<SIZE> {
    type V = RegisterSetView;

    closed spec fn view(&self) -> RegisterSetView {
        RegisterSetView { data: self.data@, rw: self.rw_mask@, w1c: self.w1c_mask@ }
    }
}

impl<const SIZE: usize> RegisterSetBuilder<SIZE> {
    pub open spec fn wf(&self) -> bool {
        window_wf(self@, SIZE as nat)
    }

    /// A builder for a read-only window with all bits set.
    pub fn new() -> (r: Self)
        ensures
            r.wf(),
            r@.data == Seq::new(SIZE as nat, |i: int| 0xFFu8),
            r@.rw == Seq::new(SIZE as nat, |i: int| 0u8),
            r@.w1c == Seq::new(SIZE as nat, |i: int| 0u8),
    {
        let r = RegisterSetBuilder { data: vec![0xFFu8; SIZE], rw_mask: vec![0u8; SIZE], w1c_mask: vec![0u8; SIZE] };
        assert(r@.data =~= Seq::new(SIZE as nat, |i: int| 0xFFu8));
        assert(r@.rw =~= Seq::new(SIZE as nat, |i: int| 0u8));
        assert(r@.w1c =~= Seq::new(SIZE as nat, |i: int| 0u8));
        assert forall|i: int| 0 <= i < SIZE implies #[trigger] r@.rw[i] & r@.w1c[i] == 0 by {
            assert(0u8 & 0u8 == 0) by (bit_vector);
        }
        r
    }

    fn init(self, pos: usize, n: usize, value: u64, write_mask: u64, clear_mask: u64) -> (r: Self)
        requires
            self.wf(),
            n <= 8,
            pos + n <= SIZE,
            write_mask == 0 || clear_mask == 0,
        ensures
            r.wf(),
            r@.data == place(self@.data, pos as int, value as nat, n as nat),
            r@.rw == place(self@.rw, pos as int, write_mask as nat, n as nat),
            r@.w1c == place(self@.w1c, pos as int, clear_mask as nat, n as nat),
    {
        let RegisterSetBuilder { mut data, mut rw_mask, mut w1c_mask } = self;
        write_le(&mut data, pos, value, n);
        write_le(&mut rw_mask, pos, write_mask, n);
        write_le(&mut w1c_mask, pos, clear_mask, n);
        let r = RegisterSetBuilder { data, rw_mask, w1c_mask };
        assert forall|i: int| 0 <= i < SIZE implies #[trigger] r@.rw[i] & r@.w1c[i] == 0 by {
            if pos <= i < pos + n {
                let k = (i - pos) as nat;
                crate::bytes::lemma_pow256_pos(k);
                assert(0nat / crate::bytes::pow256(k) == 0) by (nonlinear_arith)
                    requires
                        crate::bytes::pow256(k) > 0,
                ;
                assert(byte_of(0, k) == 0);
                let a = r@.rw[i];
                let b = r@.w1c[i];
                assert(a == 0 || b == 0);
                assert(a == 0 ==> a & b == 0) by (bit_vector);
                assert(b == 0 ==> a & b == 0) by (bit_vector);
            } else if i < pos {
                assert(r@.rw[i] == self@.rw[i] && r@.w1c[i] == self@.w1c[i]);
            } else {
                assert(r@.rw[i] == self@.rw[i] && r@.w1c[i] == self@.w1c[i]);
            }
        }
        r
    }

    /// Place a byte with a mask of writable bits.
    pub fn u8_at(self, pos: usize, value: u8, write_mask: u8) -> (r: Self)
        requires
            self.wf(),
            pos + 1 <= SIZE,
        ensures
            r.wf(),
            r@.data == place(self@.data, pos as int, value as nat, 1),
            r@.rw == place(self@.rw, pos as int, write_mask as nat, 1),
            r@.w1c == place(self@.w1c, pos as int, 0, 1),
    {
        self.init(pos, 1, value as u64, write_mask as u64, 0)
    }

    /// Place a read-only byte.
    pub fn u8_ro_at(self, pos: usize, value: u8) -> (r: Self)
        requires
            self.wf(),
            pos + 1 <= SIZE,
        ensures
            r.wf(),
            r@.data == place(self@.data, pos as int, value as nat, 1),
            r@.rw == place(self@.rw, pos as int, 0, 1),
            r@.w1c == place(self@.w1c, pos as int, 0, 1),
    {
        self.u8_at(pos, value, 0)
    }

    /// Place a writable byte.
    pub fn u8_rw_at(self, pos: usize, value: u8) -> (r: Self)
        requires
            self.wf(),
            pos + 1 <= SIZE,
        ensures
            r.wf(),
            r@.data == place(self@.data, pos as int, value as nat, 1),
            r@.rw == place(self@.rw, pos as int, 0xFF, 1),
            r@.w1c == place(self@.w1c, pos as int, 0, 1),
    {
        self.u8_at(pos, value, 0xFF)
    }

    /// Place a write-one-to-clear byte: its bits become zero where a one is
    /// written.
    pub fn u8_w1c_at(self, pos: usize, value: u8) -> (r: Self)
        requires
            self.wf(),
            pos + 1 <= SIZE,
        ensures
            r.wf(),
            r@.data == place(self@.data, pos as int, value as nat, 1),
            r@.rw == place(self@.rw, pos as int, 0, 1),
            r@.w1c == place(self@.w1c, pos as int, 0xFF, 1),
    {
        self.init(pos, 1, value as u64, 0, 0xFF)
    }

    /// Place a little-endian 16-bit value with a mask of writable bits.
    pub fn u16_le_at(self, pos: usize, value: u16, write_mask: u16) -> (r: Self)
        requires
            self.wf(),
            pos + 2 <= SIZE,
        ensures
            r.wf(),
            r@.data == place(self@.data, pos as int, value as nat, 2),
            r@.rw == place(self@.rw, pos as int, write_mask as nat, 2),
            r@.w1c == place(self@.w1c, pos as int, 0, 2),
    {
        self.init(pos, 2, value as u64, write_mask as u64, 0)
    }

    /// Place a read-only little-endian 16-bit value.
    pub fn u16_le_ro_at(self, pos: usize, value: u16) -> (r: Self)
        requires
            self.wf(),
            pos + 2 <= SIZE,
        ensures
            r.wf(),
            r@.data == place(self@.data, pos as int, value as nat, 2),
            r@.rw == place(self@.rw, pos as int, 0, 2),
            r@.w1c == place(self@.w1c, pos as int, 0, 2),
    {
        self.u16_le_at(pos, value, 0)
    }

    /// Place a writable little-endian 16-bit value.
    pub fn u16_le_rw_at(self, pos: usize, value: u16) -> (r: Self)
        requires
            self.wf(),
            pos + 2 <= SIZE,
        ensures
            r.wf(),
            r@.data == place(self@.data, pos as int, value as nat, 2),
            r@.rw == place(self@.rw, pos as int, 0xFFFF, 2),
            r@.w1c == place(self@.w1c, pos as int, 0, 2),
    {
        self.u16_le_at(pos, value, 0xFFFF)
    }

    /// Place a write-one-to-clear little-endian 16-bit value.
    pub fn u16_le_w1c_at(self, pos: usize, value: u16) -> (r: Self)
        requires
            self.wf(),
            pos + 2 <= SIZE,
        ensures
            r.wf(),
            r@.data == place(self@.data, pos as int, value as nat, 2),
            r@.rw == place(self@.rw, pos as int, 0, 2),
            r@.w1c == place(self@.w1c, pos as int, 0xFFFF, 2),
    {
        self.init(pos, 2, value as u64, 0, 0xFFFF)
    }

    /// Place a little-endian 32-bit value with a mask of writable bits.
    pub fn u32_le_at(self, pos: usize, value: u32, write_mask: u32) -> (r: Self)
        requires
            self.wf(),
            pos + 4 <= SIZE,
        ensures
            r.wf(),
            r@.data == place(self@.data, pos as int, value as nat, 4),
            r@.rw == place(self@.rw, pos as int, write_mask as nat, 4),
            r@.w1c == place(self@.w1c, pos as int, 0, 4),
    {
        self.init(pos, 4, value as u64, write_mask as u64, 0)
    }

    /// Place a read-only little-endian 32-bit value.
    pub fn u32_le_ro_at(self, pos: usize, value: u32) -> (r: Self)
        requires
            self.wf(),
            pos + 4 <= SIZE,
        ensures
            r.wf(),
            r@.data == place(self@.data, pos as int, value as nat, 4),
            r@.rw == place(self@.rw, pos as int, 0, 4),
            r@.w1c == place(self@.w1c, pos as int, 0, 4),
    {
        self.u32_le_at(pos, value, 0)
    }

    /// Place a writable little-endian 32-bit value.
    pub fn u32_le_rw_at(self, pos: usize, value: u32) -> (r: Self)
        requires
            self.wf(),
            pos + 4 <= SIZE,
        ensures
            r.wf(),
            r@.data == place(self@.data, pos as int, value as nat, 4),
            r@.rw == place(self@.rw, pos as int, 0xFFFF_FFFF, 4),
            r@.w1c == place(self@.w1c, pos as int, 0, 4),
    {
        self.u32_le_at(pos, value, 0xFFFF_FFFF)
    }

    /// Place a write-one-to-clear little-endian 32-bit value.
    pub fn u32_le_w1c_at(self, pos: usize, value: u32) -> (r: Self)
        requires
            self.wf(),
            pos + 4 <= SIZE,
        ensures
            r.wf(),
            r@.data == place(self@.data, pos as int, value as nat, 4),
            r@.rw == place(self@.rw, pos as int, 0, 4),
            r@.w1c == place(self@.w1c, pos as int, 0xFFFF_FFFF, 4),
    {
        self.init(pos, 4, value as u64, 0, 0xFFFF_FFFF)
    }

    /// Place a little-endian 64-bit value with a mask of writable bits.
    pub fn u64_le_at(self, pos: usize, value: u64, write_mask: u64) -> (r: Self)
        requires
            self.wf(),
            pos + 8 <= SIZE,
        ensures
            r.wf(),
            r@.data == place(self@.data, pos as int, value as nat, 8),
            r@.rw == place(self@.rw, pos as int, write_mask as nat, 8),
            r@.w1c == place(self@.w1c, pos as int, 0, 8),
    {
        self.init(pos, 8, value, write_mask, 0)
    }

    /// Place a read-only little-endian 64-bit value.
    pub fn u64_le_ro_at(self, pos: usize, value: u64) -> (r: Self)
        requires
            self.wf(),
            pos + 8 <= SIZE,
        ensures
            r.wf(),
            r@.data == place(self@.data, pos as int, value as nat, 8),
            r@.rw == place(self@.rw, pos as int, 0, 8),
            r@.w1c == place(self@.w1c, pos as int, 0, 8),
    {
        self.u64_le_at(pos, value, 0)
    }

    /// Place a writable little-endian 64-bit value.
    pub fn u64_le_rw_at(self, pos: usize, value: u64) -> (r: Self)
        requires
            self.wf(),
            pos + 8 <= SIZE,
        ensures
            r.wf(),
            r@.data == place(self@.data, pos as int, value as nat, 8),
            r@.rw == place(self@.rw, pos as int, 0xFFFF_FFFF_FFFF_FFFF, 8),
            r@.w1c == place(self@.w1c, pos as int, 0, 8),
    {
        self.u64_le_at(pos, value, 0xFFFF_FFFF_FFFF_FFFF)
    }

    /// Place a write-one-to-clear little-endian 64-bit value.
    pub fn u64_le_w1c_at(self, pos: usize, value: u64) -> (r: Self)
        requires
            self.wf(),
            pos + 8 <= SIZE,
        ensures
            r.wf(),
            r@.data == place(self@.data, pos as int, value as nat, 8),
            r@.rw == place(self@.rw, pos as int, 0, 8),
            r@.w1c == place(self@.w1c, pos as int, 0xFFFF_FFFF_FFFF_FFFF, 8),
    {
        self.init(pos, 8, value, 0, 0xFFFF_FFFF_FFFF_FFFF)
    }

    /// Place a copy of an existing window, with its content and masks, at `pos`.
    pub fn register_set_at<const PART_SIZE: usize>(self, pos: usize, regs: &RegisterSet<PART_SIZE>) -> (r: Self)
        requires
            self.wf(),
            regs.wf(),
            pos + PART_SIZE <= SIZE,
        ensures
            r.wf(),
            r@.data == place_seq(self@.data, pos as int, regs@.data),
            r@.rw == place_seq(self@.rw, pos as int, regs@.rw),
            r@.w1c == place_seq(self@.w1c, pos as int, regs@.w1c),
    {
        let RegisterSetBuilder { mut data, mut rw_mask, mut w1c_mask } = self;
        let mut i: usize = 0;
        while i < PART_SIZE
            invariant
                pos + PART_SIZE <= SIZE,
                regs.wf(),
                i <= PART_SIZE,
                data@.len() == SIZE,
                rw_mask@.len() == SIZE,
                w1c_mask@.len() == SIZE,
                forall|j: int| 0 <= j < SIZE && !(pos <= j < pos + i) ==> data@[j] == self@.data[j],
                forall|j: int| 0 <= j < SIZE && !(pos <= j < pos + i) ==> rw_mask@[j] == self@.rw[j],
                forall|j: int| 0 <= j < SIZE && !(pos <= j < pos + i) ==> w1c_mask@[j] == self@.w1c[j],
                forall|j: int| 0 <= j < i ==> data@[pos + j] == regs@.data[j],
                forall|j: int| 0 <= j < i ==> rw_mask@[pos + j] == regs@.rw[j],
                forall|j: int| 0 <= j < i ==> w1c_mask@[pos + j] == regs@.w1c[j],
            decreases PART_SIZE - i,
        {
            data.set(pos + i, regs.data[i]);
            rw_mask.set(pos + i, regs.rw_mask[i]);
            w1c_mask.set(pos + i, regs.w1c_mask[i]);
            i = i + 1;
        }
        let r = RegisterSetBuilder { data, rw_mask, w1c_mask };
        assert(r@.data =~= place_seq(self@.data, pos as int, regs@.data));
        assert(r@.rw =~= place_seq(self@.rw, pos as int, regs@.rw));
        assert(r@.w1c =~= place_seq(self@.w1c, pos as int, regs@.w1c));
        assert forall|j: int| 0 <= j < SIZE implies #[trigger] r@.rw[j] & r@.w1c[j] == 0 by {
            if pos <= j < pos + PART_SIZE {
                assert(regs@.rw[j - pos] & regs@.w1c[j - pos] == 0);
            }
        }
        r
    }

    /// The finished window.
    pub fn build(self) -> (r: RegisterSet<SIZE>)
        requires
            self.wf(),
        ensures
            r.wf(),
            r@ == self@,
    {
        RegisterSet { data: self.data, rw_mask: self.rw_mask, w1c_mask: self.w1c_mask }
    }
}

/// A fixed window of `SIZE` bytes of registers.
#[derive(Debug, Clone)]
pub struct RegisterSet<const SIZE: usize> {
    data: Vec<u8>,
    rw_mask: Vec<u8>,
    w1c_mask: Vec<u8>,
}

impl<const SIZE: usize> View for RegisterSet<SIZE> {
    type V = RegisterSetView;

    closed spec fn view(&self) -> RegisterSetView {
        RegisterSetView { data: self.data@, rw: self.rw_mask@, w1c: self.w1c_mask@ }
    }
}

impl<const SIZE: usize> RegisterSet<SIZE> {
    pub open spec fn wf(&self) -> bool {
        window_wf(self@, SIZE as nat)
    }

    /// The value of the bytes that `req` covers, least significant first.
    pub open spec fn read_spec(&self, req: Request) -> nat {
        le_value(self@.data.subrange(req.addr as int, req.end()))
    }

    /// The size of the window in bytes.
    pub fn size(&self) -> (r: u64)
        ensures
            r == SIZE,
    {
        SIZE as u64
    }

    /// The byte at offset `off`.
    pub fn read_byte(&self, off: usize) -> (r: u8)
        requires
            self.wf(),
            off < SIZE,
        ensures
            r == self@.data[off as int],
    {
        self.data[off]
    }

    /// Read the bytes of `req` as a little-endian value.
    pub fn read(&self, req: Request) -> (r: u64)
        requires
            self.wf(),
            req.end() <= SIZE,
        ensures
            r == self.read_spec(req),
    {
        read_le(self.data.as_slice(), req.addr as usize, req.size.bytes() as usize)
    }

    /// Write the low bytes of `val` at `req` through the masks: writable bits
    /// take the new value, write-one-to-clear bits written with a one clear.
    pub fn write(&mut self, req: Request, val: u64)
        requires
            old(self).wf(),
            req.end() <= SIZE,
        ensures
            final(self).wf(),
            final(self)@.rw == old(self)@.rw,
            final(self)@.w1c == old(self)@.w1c,
            final(self)@.data == written(old(self)@, req, val),
            final(self)@ == writes_applied(old(self)@, seq![(req, val)]),
    {
        let start = req.addr as usize;
        let n = req.size.bytes() as usize;
        let mut cur: u64 = val;
        let mut i: usize = 0;
        assert(crate::bytes::pow256(0) == 1);
        while i < n
            invariant
                i <= n,
                n == size_bytes(req.size),
                start == req.addr,
                start + n <= SIZE,
                self.wf(),
                old(self).wf(),
                self@.rw == old(self)@.rw,
                self@.w1c == old(self)@.w1c,
                cur == val as nat / crate::bytes::pow256(i as nat),
                forall|j: int| 0 <= j < SIZE && !(start <= j < start + i) ==> self@.data[j] == old(self)@.data[j],
                forall|j: int| start <= j < start + i ==> self@.data[j] == #[trigger] written(old(self)@, req, val)[j],
            decreases n - i,
        {
            let off = start + i;
            let byte = (cur % 256) as u8;
            let old_byte = self.data[off];
            let rw = self.rw_mask[off];
            let w1c = self.w1c_mask[off];
            self.data.set(off, ((old_byte & !rw) | (byte & rw)) & !(byte & w1c));
            proof {
                crate::bytes::lemma_pow256_pos(i as nat);
                vstd::arithmetic::div_mod::lemma_div_denominator(val as int, crate::bytes::pow256(i as nat) as int, 256);
                assert(crate::bytes::pow256((i + 1) as nat) == 256 * crate::bytes::pow256(i as nat));
                vstd::arithmetic::mul::lemma_mul_is_commutative(256, crate::bytes::pow256(i as nat) as int);
                assert(byte == byte_of(val as nat, i as nat));
                assert(old_byte == old(self)@.data[off as int]);
                assert(self@.data[off as int] == written(old(self)@, req, val)[off as int]);
            }
            cur = cur / 256;
            i = i + 1;
        }
        assert(self@.data =~= written(old(self)@, req, val));
        let ghost ws = seq![(req, val)];
        assert(ws.drop_last() =~= Seq::<(Request, u64)>::empty());
        assert(ws.last() == (req, val));
        assert(writes_applied(old(self)@, ws.drop_last()) == old(self)@);
        assert(self@ == writes_applied(old(self)@, ws));
    }

    /// Write the bytes of `val` at `req`, regardless of the masks.
    pub fn write_direct(&mut self, req: Request, val: u64)
        requires
            old(self).wf(),
            req.end() <= SIZE,
        ensures
            final(self).wf(),
            final(self)@.rw == old(self)@.rw,
            final(self)@.w1c == old(self)@.w1c,
            final(self)@.data == place(old(self)@.data, req.addr as int, val as nat, size_bytes(req.size)),
    {
        write_le(&mut self.data, req.addr as usize, val, req.size.bytes() as usize);
    }
}

/// What a register window keeps through a write: a bit that is not writable
/// either keeps its value or, as a write-one-to-clear bit written with a one,
/// becomes zero; a write-one-to-clear bit written with a one is zero after.
pub proof fn lemma_write_byte_bits(old: u8, b: u8, rw: u8, w1c: u8, j: u8)
    requires
        j < 8,
        rw & w1c == 0,
    ensures
        (rw >> j) & 1 == 0 ==> ((write_byte(old, b, rw, w1c) >> j) & 1 == (old >> j) & 1 || ((w1c
            >> j) & 1 == 1 && (b >> j) & 1 == 1 && (write_byte(old, b, rw, w1c) >> j) & 1 == 0)),
        (rw >> j) & 1 == 1 ==> (write_byte(old, b, rw, w1c) >> j) & 1 == (b >> j) & 1,
        ((w1c >> j) & 1 == 1 && (b >> j) & 1 == 1) ==> (write_byte(old, b, rw, w1c) >> j) & 1 == 0,
        ((rw >> j) & 1 == 0 && ((w1c >> j) & 1 == 0 || (b >> j) & 1 == 0)) ==> (write_byte(
            old,
            b,
            rw,
            w1c,
        ) >> j) & 1 == (old >> j) & 1,
{
    let n = write_byte(old, b, rw, w1c);
    assert(n == ((old & !rw) | (b & rw)) & !(b & w1c));
    assert(n == ((old & !rw) | (b & rw)) & !(b & w1c) && j < 8 && rw & w1c == 0 ==> (
    (rw >> j) & 1 == 1 ==> (n >> j) & 1 == (b >> j) & 1)) by (bit_vector);
    assert(n == ((old & !rw) | (b & rw)) & !(b & w1c) && j < 8 ==> (
    (rw >> j) & 1 == 0 ==> ((n >> j) & 1 == (old >> j) & 1 || ((w1c >> j) & 1 == 1 && (b >> j) & 1 == 1 && (n >> j) & 1 == 0)))) by (bit_vector);
    assert(n == ((old & !rw) | (b & rw)) & !(b & w1c) && j < 8 ==> (
    ((w1c >> j) & 1 == 1 && (b >> j) & 1 == 1) ==> (n >> j) & 1 == 0)) by (bit_vector);
    assert(n == ((old & !rw) | (b & rw)) & !(b & w1c) && j < 8 ==> (
    ((rw >> j) & 1 == 0 && ((w1c >> j) & 1 == 0 || (b >> j) & 1 == 0)) ==> (n >> j) & 1 == (old >> j) & 1)) by (bit_vector);
}

/// The window after the writes `ws` (request and value) were applied in
/// order.
pub open spec fn writes_applied(v: RegisterSetView, ws: Seq<(Request, u64)>) -> RegisterSetView
    decreases ws.len(),
{
    if ws.len() == 0 {
        v
    } else {
        let v1 = writes_applied(v, ws.drop_last());
        RegisterSetView { data: written(v1, ws.last().0, ws.last().1), ..v1 }
    }
}

/// Whether one of the writes `ws` wrote a one to bit `j` of byte `i`.
pub open spec fn wrote_one(ws: Seq<(Request, u64)>, i: int, j: u8) -> bool {
    exists|k: int|
        0 <= k < ws.len() && ws[k].0.addr <= i < ws[k].0.end() && (#[trigger] byte_of(ws[k].1 as nat, (i - ws[k].0.addr) as nat) >> j) & 1 == 1
}

/// Over any sequence of writes, a bit that is not writable keeps its
/// initial value, or it is a write-one-to-clear bit that some write wrote
/// with a one and it is zero.
pub proof fn lemma_register_bits_over_writes(v: RegisterSetView, size: nat, ws: Seq<(Request, u64)>, i: int, j: u8)
    requires
        window_wf(v, size),
        forall|k: int| 0 <= k < ws.len() ==> (#[trigger] ws[k]).0.end() <= size,
        0 <= i < size,
        j < 8,
        (v.rw[i] >> j) & 1 == 0,
    ensures
        writes_applied(v, ws).rw == v.rw && writes_applied(v, ws).w1c == v.w1c,
        writes_applied(v, ws).data.len() == size,
        (writes_applied(v, ws).data[i] >> j) & 1 == (v.data[i] >> j) & 1 || ((v.w1c[i] >> j) & 1 == 1
            && wrote_one(ws, i, j) && (writes_applied(v, ws).data[i] >> j) & 1 == 0),
    decreases ws.len(),
{
    if ws.len() > 0 {
        let prev = ws.drop_last();
        assert forall|k: int| 0 <= k < prev.len() implies (#[trigger] prev[k]).0.end() <= size by {
            assert(prev[k] == ws[k]);
        }
        lemma_register_bits_over_writes(v, size, prev, i, j);
        let v1 = writes_applied(v, prev);
        let (req, val) = ws.last();
        assert(ws[ws.len() - 1] == ws.last());
        let d = written(v1, req, val);
        if req.addr <= i < req.end() {
            let b = byte_of(val as nat, (i - req.addr) as nat);
            assert(v1.rw[i] & v1.w1c[i] == 0);
            lemma_write_byte_bits(v1.data[i], b, v1.rw[i], v1.w1c[i], j);
            assert(d[i] == write_byte(v1.data[i], b, v1.rw[i], v1.w1c[i]));
            if wrote_one(prev, i, j) {
                let k = choose|k: int|
                    0 <= k < prev.len() && prev[k].0.addr <= i < prev[k].0.end() && (#[trigger] byte_of(prev[k].1 as nat, (i - prev[k].0.addr) as nat) >> j) & 1 == 1;
                assert(ws[k] == prev[k]);
            }
            if (v1.w1c[i] >> j) & 1 == 1 && (b >> j) & 1 == 1 {
                assert(ws[ws.len() - 1].0.addr <= i < ws[ws.len() - 1].0.end());
                assert((byte_of(ws[ws.len() - 1].1 as nat, (i - ws[ws.len() - 1].0.addr) as nat) >> j) & 1 == 1);
            }
        } else {
            assert(d[i] == v1.data[i]);
            if wrote_one(prev, i, j) {
                let k = choose|k: int|
                    0 <= k < prev.len() && prev[k].0.addr <= i < prev[k].0.end() && (#[trigger] byte_of(prev[k].1 as nat, (i - prev[k].0.addr) as nat) >> j) & 1 == 1;
                assert(ws[k] == prev[k]);
            }
        }
    }
}

} // verus!

