//! Verified byte-buffer primitives: single-byte access and little-endian
//! multi-byte loads and stores, matching the hardware's bus endianness.

use vstd::prelude::*;

use vstd::bytes::spec_u16_from_le_bytes;
use vstd::bytes::spec_u16_to_le_bytes;
use vstd::bytes::spec_u32_from_le_bytes;
use vstd::bytes::spec_u32_to_le_bytes;
use vstd::bytes::u16_from_le_bytes;
use vstd::bytes::u16_to_le_bytes;
use vstd::bytes::u32_from_le_bytes;
use vstd::bytes::u32_to_le_bytes;
use vstd::slice::slice_subrange;

verus! {

/// The buffer after `bytes` replace the bytes at offset `off`.
pub open spec fn splice(s: Seq<u8>, off: int, bytes: Seq<u8>) -> Seq<u8> {
    s.take(off) + bytes + s.skip(off + bytes.len())
}

/// A buffer of `n` zero bytes.
pub fn zero_vec(n: usize) -> (v: Vec<u8>)
    ensures
        v@.len() == n,
        forall|i: int| 0 <= i < n ==> v@[i] == 0u8,
{
    let v = vec![0u8; n];
    proof {
        assert forall|i: int| 0 <= i < n implies v@[i] == 0u8 by {
            assert(cloned(0u8, v@[i]));
        }
    }
    v
}

pub fn load8(mem: &Vec<u8>, off: usize) -> (r: u8)
    requires
        off < mem@.len(),
    ensures
        r == mem@[off as int],
{
    mem[off]
}

pub fn load16(mem: &Vec<u8>, off: usize) -> (r: u16)
    requires
        off + 2 <= mem@.len(),
    ensures
        r == spec_u16_from_le_bytes(mem@.subrange(off as int, off + 2)),
{
    let n = mem.len();
    assert(off + 2 <= n);
    let s = slice_subrange(mem.as_slice(), off, off + 2);
    u16_from_le_bytes(s)
}

pub fn load32(mem: &Vec<u8>, off: usize) -> (r: u32)
    requires
        off + 4 <= mem@.len(),
    ensures
        r == spec_u32_from_le_bytes(mem@.subrange(off as int, off + 4)),
{
    let n = mem.len();
    assert(off + 4 <= n);
    let s = slice_subrange(mem.as_slice(), off, off + 4);
    u32_from_le_bytes(s)
}

pub fn store8(mem: &mut Vec<u8>, off: usize, val: u8)
    requires
        off < old(mem)@.len(),
    ensures
        final(mem)@ == splice(old(mem)@, off as int, seq![val]),
        final(mem)@.len() == old(mem)@.len(),
{
    mem[off] = val;
    proof {
        assert(mem@ =~= splice(old(mem)@, off as int, seq![val]));
    }
}

pub fn store16(mem: &mut Vec<u8>, off: usize, val: u16)
    requires
        off + 2 <= old(mem)@.len(),
    ensures
        final(mem)@ == splice(old(mem)@, off as int, spec_u16_to_le_bytes(val)),
        final(mem)@.len() == old(mem)@.len(),
{
    let n = mem.len();
    assert(off + 2 <= n);
    let bytes = u16_to_le_bytes(val);
    let b0 = bytes[0];
    let b1 = bytes[1];
    mem[off] = b0;
    mem[off + 1] = b1;
    proof {
        assert(mem@ =~= splice(old(mem)@, off as int, spec_u16_to_le_bytes(val)));
    }
}

pub fn store32(mem: &mut Vec<u8>, off: usize, val: u32)
    requires
        off + 4 <= old(mem)@.len(),
    ensures
        final(mem)@ == splice(old(mem)@, off as int, spec_u32_to_le_bytes(val)),
        final(mem)@.len() == old(mem)@.len(),
{
    let n = mem.len();
    assert(off + 4 <= n);
    let bytes = u32_to_le_bytes(val);
    let b0 = bytes[0];
    let b1 = bytes[1];
    let b2 = bytes[2];
    let b3 = bytes[3];
    mem[off] = b0;
    mem[off + 1] = b1;
    mem[off + 2] = b2;
    mem[off + 3] = b3;
    proof {
        assert(mem@ =~= splice(old(mem)@, off as int, spec_u32_to_le_bytes(val)));
    }
}

/// A store followed by a load at the same offset gives back the stored value,
/// and leaves every byte outside the stored range untouched.
pub proof fn lemma_store16_load16(s: Seq<u8>, off: int, val: u16)
    requires
        0 <= off,
        off + 2 <= s.len(),
    ensures
        spec_u16_from_le_bytes(splice(s, off, spec_u16_to_le_bytes(val)).subrange(off, off + 2))
            == val,
        splice(s, off, spec_u16_to_le_bytes(val)).len() == s.len(),
        forall|i: int|
            0 <= i < s.len() && !(off <= i < off + 2) ==> splice(
                s,
                off,
                spec_u16_to_le_bytes(val),
            )[i] == s[i],
{
    vstd::bytes::lemma_auto_spec_u16_to_from_le_bytes();
    assert(splice(s, off, spec_u16_to_le_bytes(val)).subrange(off, off + 2) =~= spec_u16_to_le_bytes(
        val,
    ));
}

/// A 32-bit store followed by a 32-bit load at the same offset gives back the
/// stored value, and leaves every byte outside the stored range untouched.
pub proof fn lemma_store32_load32(s: Seq<u8>, off: int, val: u32)
    requires
        0 <= off,
        off + 4 <= s.len(),
    ensures
        spec_u32_from_le_bytes(splice(s, off, spec_u32_to_le_bytes(val)).subrange(off, off + 4))
            == val,
        splice(s, off, spec_u32_to_le_bytes(val)).len() == s.len(),
        forall|i: int|
            0 <= i < s.len() && !(off <= i < off + 4) ==> splice(
                s,
                off,
                spec_u32_to_le_bytes(val),
            )[i] == s[i],
{
    vstd::bytes::lemma_auto_spec_u32_to_from_le_bytes();
    assert(splice(s, off, spec_u32_to_le_bytes(val)).subrange(off, off + 4) =~= spec_u32_to_le_bytes(
        val,
    ));
}

} // verus!
