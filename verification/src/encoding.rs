//! Digests and text encodings that device identifiers are made of.
use vstd::prelude::*;
use vstd::arithmetic::power2::pow2;

verus! {

/// The 32 symbols of Crockford's base32 alphabet, in the order of their values.
pub open spec fn crockford_alphabet() -> Seq<char> {
    seq![
        '0', '1', '2', '3', '4', '5', '6', '7', '8', '9', 'A', 'B', 'C', 'D', 'E', 'F',
        'G', 'H', 'J', 'K', 'M', 'N', 'P', 'Q', 'R', 'S', 'T', 'V', 'W', 'X', 'Y', 'Z',
    ]
}

/// Bit `k` of `data` read as a big-endian bit string (the most significant bit of
/// each byte first), and 0 past its end.
pub open spec fn bit_at(data: Seq<u8>, k: int) -> int {
    if 0 <= k < 8 * data.len() {
        (data[k / 8] as int / pow2((7 - k % 8) as nat) as int) % 2
    } else {
        0
    }
}

/// The value of the `i`-th group of five bits of `data`.
pub open spec fn five_bit_group(data: Seq<u8>, i: int) -> int {
    16 * bit_at(data, 5 * i) + 8 * bit_at(data, 5 * i + 1) + 4 * bit_at(data, 5 * i + 2)
        + 2 * bit_at(data, 5 * i + 3) + bit_at(data, 5 * i + 4)
}

/// Crockford base32 text of `data`, without padding: one symbol for each group of
/// five bits, the last group filled up with zero bits.
pub open spec fn crockford_encoding(data: Seq<u8>) -> Seq<char> {
    Seq::new(
        ((8 * data.len() + 4) / 5) as nat,
        |i: int| crockford_alphabet()[five_bit_group(data, i)],
    )
}

/// The BLAKE3 digest of `data`.
pub uninterp spec fn blake3_digest(data: Seq<u8>) -> Seq<u8>;

/// Calls `base32::encode` with `Alphabet::Crockford`. Its contract claims what the
/// crate's source does: eight symbols for each five bytes, taken from the Crockford
/// alphabet by successive five-bit groups, the trailing symbols that stand for no
/// input bits cut off, no padding.
#[verifier::external_body]
pub(crate) fn encode_crockford(data: &[u8]) -> (text: String)
    ensures
        text@ == crockford_encoding(data@),
{
    base32::encode(base32::Alphabet::Crockford, data)
}

/// Calls `blake3::hash` and copies out the 32 bytes of the digest. The contract only
/// names the digest: it is a function of the input bytes alone.
#[verifier::external_body]
pub(crate) fn blake3_hash(data: &[u8]) -> (digest: [u8; 32])
    ensures
        digest@ == blake3_digest(data@),
{
    *blake3::hash(data).as_bytes()
}

/// Each five-bit group stands for one of the 32 symbols.
pub proof fn lemma_five_bit_group_range(data: Seq<u8>, i: int)
    ensures
        0 <= five_bit_group(data, i) < 32,
{
}

/// Crockford text consists of symbols of the Crockford alphabet only.
pub proof fn lemma_crockford_symbols(data: Seq<u8>)
    ensures
        forall|i: int|
            0 <= i < crockford_encoding(data).len() ==> crockford_alphabet().contains(
                #[trigger] crockford_encoding(data)[i],
            ),
{
    assert forall|i: int| 0 <= i < crockford_encoding(data).len() implies crockford_alphabet().contains(
        #[trigger] crockford_encoding(data)[i],
    ) by {
        lemma_five_bit_group_range(data, i);
        let g = five_bit_group(data, i);
        assert(crockford_alphabet()[g] == crockford_encoding(data)[i]);
    }
}

} // verus!
