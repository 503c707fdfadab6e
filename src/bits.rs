//! Bit order on the wire: the transport shifts least-significant bit first,
//! while the configuration logic frames its bytes and words most-significant
//! bit first.
use vstd::prelude::*;

verus! {

/// Whether bit `i` of the byte `b` is set.
pub open spec fn bit8(b: u8, i: u8) -> bool {
    (b >> i) & 1u8 == 1u8
}

/// Whether bit `i` of the word `w` is set.
pub open spec fn bit_at(w: u32, i: u32) -> bool {
    (w >> i) & 1u32 == 1u32
}

/// `r` holds the bits of `b` in the opposite order.
pub open spec fn is_bit_reversal(r: u8, b: u8) -> bool {
    forall|i: u8| i < 8 ==> bit8(r, i) == bit8(b, (7 - i) as u8)
}

/// Each byte of `r` is the bit reversal of the byte of `data` at its index.
pub open spec fn is_buffer_reversal(r: Seq<u8>, data: Seq<u8>) -> bool {
    &&& r.len() == data.len()
    &&& forall|j: int| 0 <= j < data.len() ==> is_bit_reversal(#[trigger] r[j], data[j])
}

/// The bits of `data` in transmission order: byte by byte, each byte most
/// significant bit first.
pub open spec fn msb_first_bits(data: Seq<u8>) -> Seq<bool> {
    Seq::new(8 * data.len(), |t: int| bit8(data[t / 8], (7 - t % 8) as u8))
}

/// The word that a 32-bit read of `bits` carries when the device sends it
/// most significant bit first: bit `p` is `bits[31 - p]`, and bits that
/// were not read count as clear.
pub open spec fn is_msb_first_word(w: u32, bits: Seq<bool>) -> bool {
    forall|p: u32| p < 32 ==> #[trigger] bit_at(w, p) == (31 - p < bits.len() && bits[31 - p])
}

/// Two bytes with the same eight bits are equal.
proof fn lemma_byte_from_bits(x: u8, y: u8)
    requires
        forall|i: u8| i < 8 ==> bit8(x, i) == bit8(y, i),
    ensures
        x == y,
{
    assert(bit8(x, 0) == bit8(y, 0));
    assert(bit8(x, 1) == bit8(y, 1));
    assert(bit8(x, 2) == bit8(y, 2));
    assert(bit8(x, 3) == bit8(y, 3));
    assert(bit8(x, 4) == bit8(y, 4));
    assert(bit8(x, 5) == bit8(y, 5));
    assert(bit8(x, 6) == bit8(y, 6));
    assert(bit8(x, 7) == bit8(y, 7));
    assert(x == y) by (bit_vector)
        requires
            ((x >> 0u8) & 1u8 == 1u8) == ((y >> 0u8) & 1u8 == 1u8),
            ((x >> 1u8) & 1u8 == 1u8) == ((y >> 1u8) & 1u8 == 1u8),
            ((x >> 2u8) & 1u8 == 1u8) == ((y >> 2u8) & 1u8 == 1u8),
            ((x >> 3u8) & 1u8 == 1u8) == ((y >> 3u8) & 1u8 == 1u8),
            ((x >> 4u8) & 1u8 == 1u8) == ((y >> 4u8) & 1u8 == 1u8),
            ((x >> 5u8) & 1u8 == 1u8) == ((y >> 5u8) & 1u8 == 1u8),
            ((x >> 6u8) & 1u8 == 1u8) == ((y >> 6u8) & 1u8 == 1u8),
            ((x >> 7u8) & 1u8 == 1u8) == ((y >> 7u8) & 1u8 == 1u8),
    ;
}

/// Reversing the bit order of a byte twice gives the byte back.
pub proof fn lemma_reverse_byte_involution(b: u8, r: u8, s: u8)
    requires
        is_bit_reversal(r, b),
        is_bit_reversal(s, r),
    ensures
        s == b,
{
    assert forall|i: u8| i < 8 implies bit8(s, i) == bit8(b, i) by {
        assert(bit8(s, i) == bit8(r, (7 - i) as u8));
        assert(bit8(r, (7 - i) as u8) == bit8(b, (7 - (7 - i) as u8) as u8));
    }
    lemma_byte_from_bits(s, b);
}

/// Reversing the bit order of every byte of a buffer twice gives the buffer
/// back, for every buffer, the empty one included.
pub proof fn lemma_reverse_buffer_involution(data: Seq<u8>, once: Seq<u8>, twice: Seq<u8>)
    requires
        is_buffer_reversal(once, data),
        is_buffer_reversal(twice, once),
    ensures
        twice == data,
{
    assert forall|j: int| 0 <= j < data.len() implies twice[j] == data[j] by {
        lemma_reverse_byte_involution(data[j], once[j], twice[j]);
    }
    assert(twice =~= data);
}

/// The byte `b` with its bit order reversed.
pub fn reverse_bits_in_byte(b: u8) -> (r: u8)
    ensures
        is_bit_reversal(r, b),
{
    let r: u8 = ((b >> 7u8) & 1u8) | (((b >> 6u8) & 1u8) << 1u8) | (((b >> 5u8) & 1u8) << 2u8)
        | (((b >> 4u8) & 1u8) << 3u8) | (((b >> 3u8) & 1u8) << 4u8) | (((b >> 2u8) & 1u8) << 5u8)
        | (((b >> 1u8) & 1u8) << 6u8) | ((b & 1u8) << 7u8);
    assert forall|i: u8| i < 8 implies bit8(r, i) == bit8(b, (7 - i) as u8) by {
        assert((r >> i) & 1u8 == (b >> ((7 - i) as u8)) & 1u8) by (bit_vector)
            requires
                i < 8,
                r == ((b >> 7u8) & 1u8) | (((b >> 6u8) & 1u8) << 1u8) | (((b >> 5u8) & 1u8)
                    << 2u8) | (((b >> 4u8) & 1u8) << 3u8) | (((b >> 3u8) & 1u8) << 4u8) | (((b
                    >> 2u8) & 1u8) << 5u8) | (((b >> 1u8) & 1u8) << 6u8) | ((b & 1u8) << 7u8),
        ;
    }
    r
}

/// A copy of `data` with the bit order of every byte reversed.
pub fn reverse_bits_in_buffer(data: &[u8]) -> (r: Vec<u8>)
    ensures
        is_buffer_reversal(r@, data@),
{
    let mut r: Vec<u8> = Vec::with_capacity(data.len());
    let mut j: usize = 0;
    while j < data.len()
        invariant
            j <= data@.len(),
            r@.len() == j,
            forall|k: int| 0 <= k < j ==> is_bit_reversal(#[trigger] r@[k], data@[k]),
        decreases data@.len() - j,
    {
        r.push(reverse_bits_in_byte(data[j]));
        j = j + 1;
    }
    r
}

/// The bits of `data` in the order the configuration logic expects them,
/// each byte most significant bit first.
pub fn msb_first(data: &[u8]) -> (r: Vec<bool>)
    requires
        8 * data@.len() <= usize::MAX,
    ensures
        r@ == msb_first_bits(data@),
{
    let reversed = reverse_bits_in_buffer(data);
    let mut r: Vec<bool> = Vec::with_capacity(8 * data.len());
    let mut j: usize = 0;
    while j < reversed.len()
        invariant
            is_buffer_reversal(reversed@, data@),
            8 * data@.len() <= usize::MAX,
            j <= reversed@.len(),
            r@.len() == 8 * j,
            forall|t: int| 0 <= t < r@.len() ==> #[trigger] r@[t] == bit8(data@[t / 8], (7 - t % 8) as u8),
        decreases reversed@.len() - j,
    {
        let byte = reversed[j];
        assert(is_bit_reversal(byte, data@[j as int]));
        let mut i: u8 = 0;
        while i < 8
            invariant
                is_bit_reversal(byte, data@[j as int]),
                j < reversed@.len(),
                reversed@.len() == data@.len(),
                i <= 8,
                r@.len() == 8 * j + i,
                forall|t: int| 0 <= t < r@.len() ==> #[trigger] r@[t] == bit8(data@[t / 8], (7 - t % 8) as u8),
            decreases 8 - i,
        {
            let ghost t: int = 8 * j + i;
            assert(t / 8 == j as int && t % 8 == i as int) by (nonlinear_arith)
                requires
                    t == 8 * (j as int) + (i as int),
                    0 <= i < 8,
            ;
            assert(bit8(byte, i) == bit8(data@[j as int], (7 - i) as u8));
            r.push((byte >> i) & 1u8 == 1u8);
            assert(r@[t] == bit8(data@[t / 8], (7 - t % 8) as u8));
            i = i + 1;
        }
        j = j + 1;
    }
    assert(r@ =~= msb_first_bits(data@));
    r
}

/// The word that a 32-bit read of `bits` carries, the device sending it most
/// significant bit first. Bits beyond those read count as clear.
pub fn word_from_msb_first(bits: &[bool]) -> (w: u32)
    ensures
        is_msb_first_word(w, bits@),
{
    let mut w: u32 = 0;
    let mut i: u32 = 0;
    assert forall|p: u32| p < 32 implies !#[trigger] bit_at(0u32, p) by {
        assert((0u32 >> p) & 1u32 == 0u32) by (bit_vector);
    }
    while i < 32
        invariant
            i <= 32,
            forall|p: u32| 32 - i <= p < 32 ==> #[trigger] bit_at(w, p) == (31 - p < bits@.len() && bits@[31 - p]),
            forall|p: u32| p < 32 - i ==> !#[trigger] bit_at(w, p),
        decreases 32 - i,
    {
        let set = (i as usize) < bits.len() && bits[i as usize];
        let old_w = w;
        let q: u32 = 31 - i;
        if set {
            w = w | (1u32 << q);
        }
        assert forall|p: u32| p < 32 implies #[trigger] bit_at(w, p) == (if p == q { set } else {
            bit_at(old_w, p)
        }) by {
            assert(((if set { old_w | (1u32 << q) } else { old_w }) >> p) & 1u32 == (if p == q {
                if set { 1u32 } else { (old_w >> p) & 1u32 }
            } else {
                (old_w >> p) & 1u32
            })) by (bit_vector)
                requires
                    p < 32,
                    q < 32,
            ;
        }
        i = i + 1;
    }
    w
}

} // verus!
