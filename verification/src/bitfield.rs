//! Packed bit-field unit.
//!
//! Several wire structures pack sub-byte fields (a layer number, an event
//! number, one-bit flags) into a small block of bytes.  This unit models
//! such a block: `get` and `set` address a field by its bit offset and
//! width, exactly as the driver's packed layout defines it, and the block
//! serialises to its little-endian byte array for the wire.

use vstd::prelude::*;

verus! {

/// The low `width` bits set, as a 64-bit word.
pub open spec fn spec_mask(width: u64) -> u64 {
    if width >= 64 {
        0xFFFF_FFFF_FFFF_FFFFu64
    } else {
        ((1u64 << width) - 1) as u64
    }
}

/// The value of the `width`-bit field at bit `offset` of `bits`.
pub open spec fn spec_get(bits: u64, offset: u64, width: u64) -> u64 {
    (bits >> offset) & spec_mask(width)
}

/// `bits` with the `width`-bit field at bit `offset` replaced by the low
/// `width` bits of `val`.
pub open spec fn spec_set(bits: u64, offset: u64, width: u64, val: u64) -> u64 {
    (bits & !(spec_mask(width) << offset)) | ((val & spec_mask(width)) << offset)
}

/// The byte at little-endian position `k` of `bits`.
pub open spec fn spec_byte(bits: u64, k: int) -> u8 {
    ((bits >> (8 * k) as u64) & 0xFF) as u8
}

/// Law: writing a field and reading the same field back recovers exactly
/// the low `width` bits of the written value, so every representable
/// value round-trips unchanged.
pub proof fn lemma_bitfield_set_get(bits: u64, offset: u64, width: u64, val: u64)
    by (bit_vector)
    requires
        1 <= width,
        offset + width <= 64,
    ensures
        spec_get(spec_set(bits, offset, width, val), offset, width) == val & spec_mask(width),
        val <= spec_mask(width) ==> spec_get(spec_set(bits, offset, width, val), offset, width)
            == val,
{
}

/// Law: writing one field does not perturb any field disjoint from it.
pub proof fn lemma_bitfield_isolation(
    bits: u64,
    offset: u64,
    width: u64,
    val: u64,
    offset2: u64,
    width2: u64,
)
    by (bit_vector)
    requires
        1 <= width,
        offset + width <= 64,
        1 <= width2,
        offset2 + width2 <= 64,
        offset + width <= offset2 || offset2 + width2 <= offset,
    ensures
        spec_get(spec_set(bits, offset, width, val), offset2, width2) == spec_get(
            bits,
            offset2,
            width2,
        ),
{
}

/// A value read from a field fits in that field's width.
pub proof fn lemma_bitfield_get_bound(bits: u64, offset: u64, width: u64)
    by (bit_vector)
    requires
        1 <= width,
        offset + width <= 64,
    ensures
        spec_get(bits, offset, width) <= spec_mask(width),
{
}

/// A block of up to eight bytes holding packed sub-byte fields.
///
/// The block's view is its packed little-endian value; each field is the
/// bit range `[offset, offset + width)` of that value.
#[derive(Debug, Clone, Copy)]
pub struct BitfieldUnit {
    storage: u64,
    size_bytes: usize,
}

impl BitfieldUnit {
    /// The packed value of the whole block.
    pub closed spec fn view(&self) -> u64 {
        self.storage
    }

    /// The block's size in bytes.
    pub closed spec fn spec_size(&self) -> usize {
        self.size_bytes
    }

    /// The block is between one and eight bytes and its value fits in its
    /// bytes.
    pub closed spec fn wf(&self) -> bool {
        1 <= self.size_bytes <= 8 && self.storage <= spec_mask((8 * self.size_bytes) as u64)
    }

    /// A zeroed block of `size_bytes` bytes.
    pub fn new(size_bytes: usize) -> (r: BitfieldUnit)
        requires
            1 <= size_bytes <= 8,
        ensures
            r.wf(),
            r@ == 0u64,
            r.spec_size() == size_bytes,
    {
        proof {
            lemma_mask_nonneg((8 * size_bytes) as u64);
        }
        BitfieldUnit { storage: 0, size_bytes }
    }

    /// A block of `bytes.len()` bytes whose little-endian value is `bytes`.
    pub fn from_bytes(bytes: &Vec<u8>) -> (r: BitfieldUnit)
        requires
            1 <= bytes.len() <= 8,
        ensures
            r.wf(),
            r.spec_size() == bytes.len(),
            forall|k: int| 0 <= k < bytes.len() ==> spec_byte(r@, k) == bytes[k],
    {
        let n = bytes.len();
        let mut storage: u64 = 0;
        let mut i: usize = 0;
        while i < n
            invariant
                i <= n <= 8,
                n == bytes.len(),
                storage <= spec_mask((8 * i) as u64),
                forall|k: int| 0 <= k < i ==> spec_byte(storage, k) == bytes[k],
            decreases n - i,
        {
            let b = bytes[i];
            let ghost old_storage = storage;
            storage = storage | ((b as u64) << (8 * i as u64));
            proof {
                lemma_from_bytes_step(old_storage, b, i as u64);
                assert forall|k: int| 0 <= k < i + 1 implies spec_byte(storage, k) == bytes[k] by {
                    if k < i {
                        lemma_from_bytes_step_old(old_storage, b, i as u64, k as u64);
                    }
                }
            }
            i = i + 1;
        }
        proof {
            lemma_mask_monotonic((8 * n) as u64, (8 * i) as u64);
        }
        BitfieldUnit { storage, size_bytes: n }
    }

    /// The block as its little-endian byte array.
    pub fn to_bytes(&self) -> (r: Vec<u8>)
        requires
            self.wf(),
        ensures
            r.len() == self.spec_size(),
            forall|k: int| 0 <= k < r.len() ==> r[k] == spec_byte(self@, k),
    {
        let mut r: Vec<u8> = Vec::new();
        let mut i: usize = 0;
        while i < self.size_bytes
            invariant
                self.wf(),
                i <= self.size_bytes,
                r.len() == i,
                forall|k: int| 0 <= k < i ==> r[k] == spec_byte(self@, k),
            decreases self.size_bytes - i,
        {
            let b = ((self.storage >> (8 * i as u64)) & 0xFF) as u8;
            r.push(b);
            i = i + 1;
        }
        r
    }

    /// Reads the `width`-bit field at bit `offset`.
    pub fn get(&self, offset: u64, width: u64) -> (r: u64)
        requires
            self.wf(),
            1 <= width,
            offset + width <= 8 * self.spec_size(),
        ensures
            r == spec_get(self@, offset, width),
            r <= spec_mask(width),
    {
        proof {
            lemma_bitfield_get_bound(self.storage, offset, width);
        }
        let mask = if width >= 64 {
            u64::MAX
        } else {
            proof {
                lemma_small_shift_pos(width);
            }
            (1u64 << width) - 1
        };
        (self.storage >> offset) & mask
    }

    /// Writes the low `width` bits of `val` into the field at bit
    /// `offset`, leaving every other bit of the block unchanged.
    pub fn set(&mut self, offset: u64, width: u64, val: u64)
        requires
            old(self).wf(),
            1 <= width,
            offset + width <= 8 * old(self).spec_size(),
        ensures
            final(self).wf(),
            final(self).spec_size() == old(self).spec_size(),
            final(self)@ == spec_set(old(self)@, offset, width, val),
    {
        proof {
            lemma_set_in_unit(self.storage, offset, width, val, (8 * self.size_bytes) as u64);
        }
        let mask = if width >= 64 {
            u64::MAX
        } else {
            proof {
                lemma_small_shift_pos(width);
            }
            (1u64 << width) - 1
        };
        self.storage = (self.storage & !(mask << offset)) | ((val & mask) << offset);
    }

    /// The block's size in bytes.
    pub fn size(&self) -> (r: usize)
        ensures
            r == self.spec_size(),
    {
        self.size_bytes
    }
}

/// A one shifted within the word is at least one.
proof fn lemma_small_shift_pos(width: u64)
    by (bit_vector)
    requires
        width < 64,
    ensures
        1u64 << width >= 1,
{
}

/// A zero block stays within any unit mask.
proof fn lemma_mask_nonneg(width: u64)
    by (bit_vector)
    ensures
        0u64 <= spec_mask(width),
{
}

/// A value within a narrower mask is within the wider one.
proof fn lemma_mask_monotonic(w1: u64, w2: u64)
    by (bit_vector)
    requires
        w2 <= w1,
    ensures
        spec_mask(w2) <= spec_mask(w1),
{
}

/// Oring byte `b` into the zeroed byte position `i` keeps the value within
/// `i + 1` bytes and makes `b` the byte at position `i`.
proof fn lemma_from_bytes_step(storage: u64, b: u8, i: u64)
    by (bit_vector)
    requires
        i < 8,
        storage <= spec_mask((8 * i) as u64),
    ensures
        (storage | ((b as u64) << ((8 * i) as u64))) <= spec_mask((8 * (i + 1)) as u64),
        spec_byte(storage | ((b as u64) << ((8 * i) as u64)), i as int) == b,
{
}

/// Oring byte `b` into position `i` leaves the bytes below `i` unchanged.
proof fn lemma_from_bytes_step_old(storage: u64, b: u8, i: u64, k: u64)
    by (bit_vector)
    requires
        i < 8,
        k < i,
        storage <= spec_mask((8 * i) as u64),
    ensures
        spec_byte(storage | ((b as u64) << ((8 * i) as u64)), k as int) == spec_byte(storage, k as int),
{
}

/// A masked field write within the unit keeps the value within the unit.
proof fn lemma_set_in_unit(bits: u64, offset: u64, width: u64, val: u64, unit: u64)
    by (bit_vector)
    requires
        1 <= width,
        offset + width <= unit,
        unit <= 64,
        bits <= spec_mask(unit),
    ensures
        spec_set(bits, offset, width, val) <= spec_mask(unit),
{
}

} // verus!
