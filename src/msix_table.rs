//! The MSI-X table: per vector an address, a data word and a control word
//! whose bit 0 masks the vector.

use vstd::prelude::*;

use crate::bus::{size_bytes, Request, RequestSize};
use crate::bytes::{byte_of, le_value, lemma_byte_of_ones, lemma_place_index};
use crate::constants::MSIX_MAX_VECTORS;
use crate::msi::MsiMessage;
use crate::register_set::{place, written, RegisterSet, RegisterSetBuilder, RegisterSetView};

verus! {

/// The size of one entry of the table in bytes.
pub const MSIX_ENTRY_SIZE: usize = 16;

/// The offset of the 64-bit message address in an entry.
pub const MSIX_MESSAGE_ADDRESS: usize = 0;

/// The offset of the 32-bit message data in an entry.
pub const MSIX_MESSAGE_DATA: usize = 8;

/// The offset of the 32-bit control word in an entry.
pub const MSIX_CONTROL: usize = 12;

/// The control bit that masks a vector.
pub const CONTROL_MASKED: u32 = 1;

/// What vector `v` of a table with bytes `data` resolves to: nothing while it
/// is masked, else its address and the low 16 bits of its data.
pub open spec fn vector_spec(data: Seq<u8>, v: int) -> Option<MsiMessage> {
    if data[16 * v + 12] & 1 == 1 {
        None
    } else {
        Some(
            MsiMessage {
                address: le_value(data.subrange(16 * v, 16 * v + 8)) as u64,
                data: le_value(data.subrange(16 * v + 8, 16 * v + 10)) as u16,
            },
        )
    }
}

/// A table whose every byte is writable and has no write-one-to-clear bit.
pub open spec fn table_wf(v: RegisterSetView, size: nat) -> bool {
    &&& crate::register_set::window_wf(v, size)
    &&& size % 16 == 0
    &&& 0 < size <= 16 * MSIX_MAX_VECTORS
    &&& forall|i: int| 0 <= i < size ==> #[trigger] v.rw[i] == 0xFF && v.w1c[i] == 0
}

/// The MSI-X table, sized in bytes (`SIZE_BYTES / 16` vectors).
#[derive(Debug, Clone)]
pub struct MsixTable<const SIZE_BYTES: usize> {
    registers: RegisterSet<SIZE_BYTES>,
}

impl<const SIZE_BYTES: usize> View for MsixTable<SIZE_BYTES> {
    type V = RegisterSetView;

    closed spec fn view(&self) -> RegisterSetView {
        self.registers@
    }
}

impl<const SIZE_BYTES: usize> MsixTable<SIZE_BYTES> {
    pub open spec fn wf(&self) -> bool {
        table_wf(self@, SIZE_BYTES as nat)
    }

    /// A table with all addresses and data zero and every vector masked.
    pub fn new() -> (r: Self)
        requires
            SIZE_BYTES % 16 == 0,
            0 < SIZE_BYTES <= 16 * MSIX_MAX_VECTORS,
        ensures
            r.wf(),
            forall|v: int| 0 <= v < SIZE_BYTES / 16 ==> #[trigger] vector_spec(r@.data, v) is None,
    {
        let count = SIZE_BYTES / MSIX_ENTRY_SIZE;
        let mut builder = RegisterSetBuilder::<SIZE_BYTES>::new();
        let mut v: usize = 0;
        while v < count
            invariant
                count == SIZE_BYTES / 16,
                SIZE_BYTES % 16 == 0,
                0 < SIZE_BYTES <= 16 * MSIX_MAX_VECTORS,
                v <= count,
                builder.wf(),
                forall|i: int| 0 <= i < 16 * v ==> #[trigger] builder@.rw[i] == 0xFF && builder@.w1c[i] == 0,
                forall|w: int| 0 <= w < v ==> #[trigger] builder@.data[16 * w + 12] == 1,
            decreases count - v,
        {
            let off = v * MSIX_ENTRY_SIZE;
            let ghost b0 = builder@;
            builder = builder.u64_le_rw_at(off + MSIX_MESSAGE_ADDRESS, 0);
            let ghost b1 = builder@;
            builder = builder.u32_le_rw_at(off + MSIX_MESSAGE_DATA, 0);
            let ghost b2 = builder@;
            builder = builder.u32_le_rw_at(off + MSIX_CONTROL, CONTROL_MASKED);
            proof {
                assert forall|i: int| 0 <= i < 16 * (v + 1) implies #[trigger] builder@.rw[i] == 0xFF && builder@.w1c[i] == 0 by {
                    lemma_place_index(b0.rw, off as int, 0xFFFF_FFFF_FFFF_FFFF, 8, i);
                    lemma_place_index(b0.w1c, off as int, 0, 8, i);
                    lemma_place_index(b1.rw, off + 8, 0xFFFF_FFFF, 4, i);
                    lemma_place_index(b1.w1c, off + 8, 0, 4, i);
                    lemma_place_index(b2.rw, off + 12, 0xFFFF_FFFF, 4, i);
                    lemma_place_index(b2.w1c, off + 12, 0, 4, i);
                    if i >= off {
                        lemma_byte_of_ones((i - off) as nat);
                        lemma_byte_of_ones((i - off - 8) as nat);
                        lemma_byte_of_ones((i - off - 12) as nat);
                    }
                }
                assert forall|w: int| 0 <= w < v + 1 implies #[trigger] builder@.data[16 * w + 12] == 1 by {
                    lemma_place_index(b0.data, off as int, 0, 8, 16 * w + 12);
                    lemma_place_index(b1.data, off + 8, 0, 4, 16 * w + 12);
                    lemma_place_index(b2.data, off + 12, 1, 4, 16 * w + 12);
                    lemma_byte_of_ones(0);
                }
            }
            v = v + 1;
        }
        let r = MsixTable { registers: builder.build() };
        assert forall|w: int| 0 <= w < SIZE_BYTES / 16 implies #[trigger] vector_spec(r@.data, w) is None by {
            assert(r@.data[16 * w + 12] == 1);
            assert(1u8 & 1 == 1) by (bit_vector);
        }
        r
    }

    /// The number of vectors of the table.
    pub fn vector_count() -> (r: u16)
        requires
            SIZE_BYTES <= 16 * MSIX_MAX_VECTORS,
        ensures
            r == SIZE_BYTES / 16,
    {
        (SIZE_BYTES / MSIX_ENTRY_SIZE) as u16
    }

    /// The message of vector `vector`, or `None` while it is masked.
    pub fn vector(&self, vector: u16) -> (r: Option<MsiMessage>)
        requires
            self.wf(),
            vector < SIZE_BYTES / 16,
        ensures
            r == vector_spec(self@.data, vector as int),
    {
        assert(vector < 0x800);
        let entry_offset = (vector as u64) * 16;
        assert(entry_offset <= 0x8000);
        assert(16 * vector + 16 <= SIZE_BYTES) by (nonlinear_arith)
            requires
                vector < SIZE_BYTES / 16,
                SIZE_BYTES % 16 == 0,
        ;
        let control = self.registers.read(Request::new(entry_offset + MSIX_CONTROL as u64, RequestSize::Size1));
        proof {
            let c = self@.data[16 * vector + 12];
            let one = self@.data.subrange(16 * vector + 12, 16 * vector + 13);
            assert(one.drop_first() =~= Seq::<u8>::empty());
            assert(le_value(Seq::<u8>::empty()) == 0);
            assert(one[0] == c);
            assert(le_value(one) == one[0] + 256 * le_value(one.drop_first()));
            assert(control == c);
            assert(c & 1 == (c as u64) & 1) by (bit_vector);
            assert(c & 1 == 0 || c & 1 == 1) by (bit_vector);
        }
        if control & (CONTROL_MASKED as u64) == 0 {
            let address = self.registers.read(Request::new(entry_offset + MSIX_MESSAGE_ADDRESS as u64, RequestSize::Size8));
            let data = self.registers.read(Request::new(entry_offset + MSIX_MESSAGE_DATA as u64, RequestSize::Size2));
            proof {
                crate::bytes::lemma_le_value_bound(self@.data.subrange(16 * vector + 8, 16 * vector + 10));
                crate::bytes::lemma_pow256_8();
            }
            Some(MsiMessage::new(address, data as u16))
        } else {
            None
        }
    }

    /// The size of the table in bytes.
    pub fn size(&self) -> (r: u64)
        ensures
            r == SIZE_BYTES,
    {
        self.registers.size()
    }

    /// Read the bytes of `req` as a little-endian value.
    pub fn read(&self, req: Request) -> (r: u64)
        requires
            self.wf(),
            req.end() <= SIZE_BYTES,
        ensures
            r == le_value(self@.data.subrange(req.addr as int, req.end())),
    {
        self.registers.read(req)
    }

    /// Write the low bytes of `value` at `req`; every bit of the table is
    /// writable.
    pub fn write(&mut self, req: Request, value: u64)
        requires
            old(self).wf(),
            req.end() <= SIZE_BYTES,
        ensures
            final(self).wf(),
            final(self)@.data == place(old(self)@.data, req.addr as int, value as nat, size_bytes(req.size)),
    {
        self.registers.write(req, value);
        proof {
            let o = old(self)@;
            assert(self@.rw == o.rw && self@.w1c == o.w1c);
            assert(table_wf(self@, SIZE_BYTES as nat));
            assert forall|i: int| 0 <= i < SIZE_BYTES implies #[trigger] self@.data[i] == place(o.data, req.addr as int, value as nat, size_bytes(req.size))[i] by {
                lemma_place_index(o.data, req.addr as int, value as nat, size_bytes(req.size), i);
                if req.addr <= i < req.end() {
                    let b = byte_of(value as nat, (i - req.addr) as nat);
                    let x = o.data[i];
                    assert(((x & !0xFFu8) | (b & 0xFFu8)) & !(b & 0u8) == b) by (bit_vector);
                }
            }
            assert(self@.data =~= place(o.data, req.addr as int, value as nat, size_bytes(req.size)));
        }
    }
}

/// An unmasked vector resolves to the address and data last written to it:
/// after the control word of a vector is written with bit 0 clear and its
/// address and data are written, the vector gives exactly that message.
pub proof fn lemma_configured_vector(data: Seq<u8>, v: int, control: u32, address: u64, msg: u16)
    requires
        data.len() % 16 == 0,
        0 <= v < data.len() / 16,
        control & 1 == 0,
    ensures
        vector_spec(
            place(
                place(place(data, 16 * v + 12, control as nat, 4), 16 * v, address as nat, 8),
                16 * v + 8,
                msg as nat,
                4,
            ),
            v,
        ) == Some(MsiMessage { address, data: msg }),
{
    let d1 = place(data, 16 * v + 12, control as nat, 4);
    let d2 = place(d1, 16 * v, address as nat, 8);
    let d3 = place(d2, 16 * v + 8, msg as nat, 4);
    assert(16 * v + 16 <= data.len()) by (nonlinear_arith)
        requires
            data.len() % 16 == 0,
            0 <= v < data.len() / 16,
    ;
    crate::bytes::lemma_pow256_8();
    lemma_place_index(data, 16 * v + 12, control as nat, 4, 16 * v + 12);
    lemma_place_index(d1, 16 * v, address as nat, 8, 16 * v + 12);
    lemma_place_index(d2, 16 * v + 8, msg as nat, 4, 16 * v + 12);
    assert(crate::bytes::pow256(0) == 1);
    assert(control as nat / 1 == control as nat);
    assert(byte_of(control as nat, 0) == (control % 256) as u8);
    assert((control % 256) as u8 & 1 == 0) by (bit_vector)
        requires
            control & 1 == 0,
    ;
    assert(d3.subrange(16 * v, 16 * v + 8) =~= crate::bytes::le_bytes(address as nat, 8)) by {
        assert forall|i: int| 0 <= i < 8 implies d3.subrange(16 * v, 16 * v + 8)[i] == crate::bytes::le_bytes(address as nat, 8)[i] by {
            lemma_place_index(d1, 16 * v, address as nat, 8, 16 * v + i);
            lemma_place_index(d2, 16 * v + 8, msg as nat, 4, 16 * v + i);
        }
    }
    assert(d3.subrange(16 * v + 8, 16 * v + 10) =~= crate::bytes::le_bytes(msg as nat, 2)) by {
        assert forall|i: int| 0 <= i < 2 implies d3.subrange(16 * v + 8, 16 * v + 10)[i] == crate::bytes::le_bytes(msg as nat, 2)[i] by {
            lemma_place_index(d2, 16 * v + 8, msg as nat, 4, 16 * v + 8 + i);
        }
    }
    crate::bytes::lemma_le_round_trip(address as nat, 8);
    crate::bytes::lemma_le_round_trip(msg as nat, 2);
}

} // verus!
