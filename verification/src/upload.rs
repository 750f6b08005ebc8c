//! The bytes an index buffer is created with: the `u16` indices reinterpreted
//! as bytes, two per index, in the machine's byte order.

use vstd::prelude::*;
use vstd::endian::endianness;

verus! {

/// The two bytes of a `u16`, least significant first when `little_endian`
/// holds, most significant first otherwise.
pub open spec fn u16_bytes(x: u16, little_endian: bool) -> Seq<u8> {
    if little_endian {
        seq![(x % 256) as u8, (x / 256) as u8]
    } else {
        seq![(x / 256) as u8, (x % 256) as u8]
    }
}

/// The bytes of a sequence of `u16` values laid out one after the other.
pub open spec fn encode_u16s(values: Seq<u16>, little_endian: bool) -> Seq<u8>
    decreases values.len(),
{
    if values.len() == 0 {
        Seq::empty()
    } else {
        encode_u16s(values.drop_last(), little_endian) + u16_bytes(values.last(), little_endian)
    }
}

/// The memory of a `u16` slice seen as bytes: each value's two bytes in the
/// byte order of the machine the code runs on.
pub open spec fn is_u16_memory(bytes: Seq<u8>, values: Seq<u16>) -> bool {
    bytes == encode_u16s(values, endianness() is Little)
}

/// `bytemuck::cast_slice` from `u16` to `u8`: the same memory, viewed as
/// bytes. The contract claims that the bytes are the values' two bytes each,
/// in order, all in the byte order of the machine the code runs on (vstd's
/// `endianness()`), which is not fixed here. The cast cannot fail for these types: `u8` has
/// alignment 1 and any byte length is a whole number of `u8`.
#[verifier::external_body]
fn cast_u16s_to_bytes(values: &[u16]) -> (bytes: &[u8])
    ensures
        is_u16_memory(bytes@, values@),
{
    bytemuck::cast_slice(values)
}

/// Every value's bytes take two bytes.
pub proof fn lemma_encode_len(values: Seq<u16>, little_endian: bool)
    ensures
        encode_u16s(values, little_endian).len() == 2 * values.len(),
    decreases values.len(),
{
    if values.len() > 0 {
        lemma_encode_len(values.drop_last(), little_endian);
    }
}

/// The contents of an index buffer of `u16` indices: index `i` occupies bytes
/// `2 * i` and `2 * i + 1`, in the machine's byte order.
pub fn index_bytes(indices: &[u16]) -> (bytes: &[u8])
    ensures
        is_u16_memory(bytes@, indices@),
        bytes@.len() == 2 * indices@.len(),
{
    let bytes = cast_u16s_to_bytes(indices);
    proof {
        lemma_encode_len(indices@, endianness() is Little);
    }
    bytes
}

/// In the bytes of a sequence of `u16` values, value `i` sits at bytes `2 * i`
/// and `2 * i + 1`: an index buffer read two bytes at a time gives back the
/// indices in order.
pub proof fn law_index_bytes_positions(values: Seq<u16>, little_endian: bool)
    ensures
        forall|i: int|
            0 <= i < values.len() ==> #[trigger] encode_u16s(values, little_endian).subrange(
                2 * i,
                2 * i + 2,
            ) == u16_bytes(values[i], little_endian),
    decreases values.len(),
{
    if values.len() > 0 {
        let init = values.drop_last();
        law_index_bytes_positions(init, little_endian);
        lemma_encode_len(init, little_endian);
        let e = encode_u16s(values, little_endian);
        let ei = encode_u16s(init, little_endian);
        assert forall|i: int| 0 <= i < values.len() implies #[trigger] encode_u16s(
            values,
            little_endian,
        ).subrange(2 * i, 2 * i + 2) == u16_bytes(values[i], little_endian) by {
            if i < init.len() {
                assert(e.subrange(2 * i, 2 * i + 2) =~= ei.subrange(2 * i, 2 * i + 2));
            } else {
                assert(e.subrange(2 * i, 2 * i + 2) =~= u16_bytes(values.last(), little_endian));
            }
        }
    }
}

} // verus!
