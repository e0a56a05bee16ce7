use vstd::prelude::*;
use vstd::bytes::{u32_to_le_bytes, spec_u32_to_le_bytes, lemma_auto_spec_u32_to_from_le_bytes};
use crate::fbits::F32_ZERO;
use crate::vecs::Vec4;

verus! {

// The fixed binary layout handed to the rendering backend: 32-bit words,
// little endian, in a canonical order shared by every surface variant.

/// The little-endian bytes of one 32-bit word.
pub open spec fn spec_word_bytes(w: u32) -> Seq<u8> {
    spec_u32_to_le_bytes(w)
}

/// The canonical parameter block: three four-component vectors, three
/// scalars, and zero padding to the next 16-byte boundary — 64 bytes in all.
pub open spec fn spec_param_block(v1: Vec4, v2: Vec4, v3: Vec4, r1: u32, r2: u32, r3: u32) -> Seq<
    u8,
> {
    spec_word_bytes(v1.x) + spec_word_bytes(v1.y) + spec_word_bytes(v1.z) + spec_word_bytes(v1.w)
        + spec_word_bytes(v2.x) + spec_word_bytes(v2.y) + spec_word_bytes(v2.z) + spec_word_bytes(
        v2.w,
    ) + spec_word_bytes(v3.x) + spec_word_bytes(v3.y) + spec_word_bytes(v3.z) + spec_word_bytes(
        v3.w,
    ) + spec_word_bytes(r1) + spec_word_bytes(r2) + spec_word_bytes(r3) + spec_word_bytes(F32_ZERO)
}

/// Appends the little-endian bytes of one word to a byte buffer.
pub fn push_word(out: &mut Vec<u8>, w: u32)
    ensures
        final(out)@ == old(out)@ + spec_word_bytes(w),
{
    let mut b = u32_to_le_bytes(w);
    out.append(&mut b);
}

/// Builds the canonical parameter block for the given vectors and scalars.
pub fn param_block(v1: Vec4, v2: Vec4, v3: Vec4, r1: u32, r2: u32, r3: u32) -> (r: Vec<u8>)
    ensures
        r@ == spec_param_block(v1, v2, v3, r1, r2, r3),
        r@.len() == 64,
{
    let mut out: Vec<u8> = Vec::new();
    push_word(&mut out, v1.x);
    push_word(&mut out, v1.y);
    push_word(&mut out, v1.z);
    push_word(&mut out, v1.w);
    push_word(&mut out, v2.x);
    push_word(&mut out, v2.y);
    push_word(&mut out, v2.z);
    push_word(&mut out, v2.w);
    push_word(&mut out, v3.x);
    push_word(&mut out, v3.y);
    push_word(&mut out, v3.z);
    push_word(&mut out, v3.w);
    push_word(&mut out, r1);
    push_word(&mut out, r2);
    push_word(&mut out, r3);
    push_word(&mut out, F32_ZERO);
    proof {
        lemma_param_block_len(v1, v2, v3, r1, r2, r3);
        assert(out@ =~= spec_param_block(v1, v2, v3, r1, r2, r3));
    }
    out
}

/// The parameter block is 64 bytes long, whatever its fields hold.
pub proof fn lemma_param_block_len(v1: Vec4, v2: Vec4, v3: Vec4, r1: u32, r2: u32, r3: u32)
    ensures
        spec_param_block(v1, v2, v3, r1, r2, r3).len() == 64,
{
    lemma_auto_spec_u32_to_from_le_bytes();
}

} // verus!
