//! Construction of the verifier's public-input vector.
//!
//! The three 32-byte field elements checked against a proof are built only
//! from values already on record — the defender's stored commitment, the
//! pending attack's tile index, and the claimed tile type the proof must
//! vouch for.  [`lemma_public_inputs_injective`] states the binding property:
//! distinct inputs always yield distinct byte vectors, so tampering with any
//! of the three changes what the verifier is asked to check.

use vstd::prelude::*;

use crate::types::PUB_INPUT_BYTES;

verus! {

/// A `u32` as a 32-byte big-endian field element: 28 zero bytes, then the
/// four bytes of the value, most significant first.
pub open spec fn be_padded(x: u32) -> Seq<u8> {
    Seq::new(
        32,
        |i: int|
            if i == 28 {
                ((x >> 24) & 0xff) as u8
            } else if i == 29 {
                ((x >> 16) & 0xff) as u8
            } else if i == 30 {
                ((x >> 8) & 0xff) as u8
            } else if i == 31 {
                (x & 0xff) as u8
            } else {
                0u8
            },
    )
}

/// The exact 96-byte public-input vector for one response: the defender's
/// commitment, then the tile index, then the claimed tile type.
pub open spec fn public_inputs_for(commitment: Seq<u8>, tile_index: u32, tile_type: u32) -> Seq<
    u8,
> {
    commitment + be_padded(tile_index) + be_padded(tile_type)
}

/// Append the 32-byte big-endian form of `x` to `out`.
fn push_be_padded(out: &mut Vec<u8>, x: u32)
    ensures
        final(out)@ == old(out)@ + be_padded(x),
{
    let mut k: usize = 0;
    while k < 28
        invariant
            0 <= k <= 28,
            out@ =~= old(out)@ + be_padded(x).take(k as int),
        decreases 28 - k,
    {
        out.push(0u8);
        proof {
            assert(be_padded(x).take(k + 1) =~= be_padded(x).take(k as int) + seq![0u8]);
        }
        k += 1;
    }
    proof {
        assert((x >> 24) & 0xff < 256) by (bit_vector);
        assert((x >> 16) & 0xff < 256) by (bit_vector);
        assert((x >> 8) & 0xff < 256) by (bit_vector);
        assert(x & 0xff < 256) by (bit_vector);
    }
    out.push(((x >> 24) & 0xff) as u8);
    out.push(((x >> 16) & 0xff) as u8);
    out.push(((x >> 8) & 0xff) as u8);
    out.push((x & 0xff) as u8);
    proof {
        assert(final(out)@ =~= old(out)@ + be_padded(x));
    }
}

/// Build the public-input vector the proof verifier must check for one
/// response: commitment, tile index, claimed tile type, 96 bytes in all.
pub fn build_public_inputs(commitment: &Vec<u8>, tile_index: u32, tile_type: u32) -> (r: Vec<u8>)
    requires
        commitment@.len() == 32,
    ensures
        r@ == public_inputs_for(commitment@, tile_index, tile_type),
        r@.len() == PUB_INPUT_BYTES,
{
    let mut out: Vec<u8> = Vec::new();
    let mut i: usize = 0;
    while i < 32
        invariant
            commitment@.len() == 32,
            0 <= i <= 32,
            out@ =~= commitment@.take(i as int),
        decreases 32 - i,
    {
        out.push(commitment[i]);
        proof {
            assert(commitment@.take(i + 1) =~= commitment@.take(i as int) + seq![
                commitment@[i as int],
            ]);
        }
        i += 1;
    }
    proof {
        assert(out@ =~= commitment@);
    }
    push_be_padded(&mut out, tile_index);
    push_be_padded(&mut out, tile_type);
    proof {
        assert(out@ =~= public_inputs_for(commitment@, tile_index, tile_type));
    }
    out
}

/// Recovering a `u32` from its four big-endian bytes is unambiguous.
proof fn lemma_be_padded_injective(x: u32, y: u32)
    requires
        be_padded(x) == be_padded(y),
    ensures
        x == y,
{
    assert(be_padded(x)[28] == ((x >> 24) & 0xff) as u8);
    assert(be_padded(x)[29] == ((x >> 16) & 0xff) as u8);
    assert(be_padded(x)[30] == ((x >> 8) & 0xff) as u8);
    assert(be_padded(x)[31] == (x & 0xff) as u8);
    assert(be_padded(y)[28] == ((y >> 24) & 0xff) as u8);
    assert(be_padded(y)[29] == ((y >> 16) & 0xff) as u8);
    assert(be_padded(y)[30] == ((y >> 8) & 0xff) as u8);
    assert(be_padded(y)[31] == (y & 0xff) as u8);
    assert(x == y) by (bit_vector)
        requires
            ((x >> 24) & 0xff) as u8 == ((y >> 24) & 0xff) as u8,
            ((x >> 16) & 0xff) as u8 == ((y >> 16) & 0xff) as u8,
            ((x >> 8) & 0xff) as u8 == ((y >> 8) & 0xff) as u8,
            (x & 0xff) as u8 == (y & 0xff) as u8,
    ;
}

/// The public-input vector binds all three of its ingredients: two vectors
/// built from 32-byte commitments agree only if the commitments, the tile
/// indices and the claimed tile types all agree.  Tampering with any one of
/// them therefore changes the bytes the verifier is asked to check.
pub proof fn lemma_public_inputs_injective(
    c1: Seq<u8>,
    i1: u32,
    t1: u32,
    c2: Seq<u8>,
    i2: u32,
    t2: u32,
)
    requires
        c1.len() == 32,
        c2.len() == 32,
        public_inputs_for(c1, i1, t1) == public_inputs_for(c2, i2, t2),
    ensures
        c1 == c2,
        i1 == i2,
        t1 == t2,
{
    let p1 = public_inputs_for(c1, i1, t1);
    let p2 = public_inputs_for(c2, i2, t2);
    assert forall|k: int| 0 <= k < 32 implies c1[k] == c2[k] by {
        assert(p1[k] == c1[k]);
        assert(p2[k] == c2[k]);
    }
    assert(c1 =~= c2);
    assert forall|k: int| 0 <= k < 32 implies be_padded(i1)[k] == be_padded(i2)[k] by {
        assert(p1[32 + k] == be_padded(i1)[k]);
        assert(p2[32 + k] == be_padded(i2)[k]);
    }
    assert(be_padded(i1) =~= be_padded(i2));
    lemma_be_padded_injective(i1, i2);
    assert forall|k: int| 0 <= k < 32 implies be_padded(t1)[k] == be_padded(t2)[k] by {
        assert(p1[64 + k] == be_padded(t1)[k]);
        assert(p2[64 + k] == be_padded(t2)[k]);
    }
    assert(be_padded(t1) =~= be_padded(t2));
    lemma_be_padded_injective(t1, t2);
}

} // verus!
