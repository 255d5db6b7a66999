//! The stored form of an embedding vector.
//!
//! A vector is kept as opaque bytes: each component is a 32-bit pattern laid
//! down as four bytes, least significant first. Reading it back groups the
//! bytes in fours and drops an incomplete group at the end.

use vstd::prelude::*;

verus! {

/// The four bytes of one component, least significant first.
pub open spec fn word_bytes(w: u32) -> Seq<u8> {
    seq![
        (w % 256) as u8,
        (w / 256 % 256) as u8,
        (w / 65536 % 256) as u8,
        (w / 16777216) as u8,
    ]
}

/// The component that four bytes stand for.
pub open spec fn word_of(b0: u8, b1: u8, b2: u8, b3: u8) -> u32 {
    (b0 + 256 * b1 + 65536 * b2 + 16777216 * b3) as u32
}

/// The bytes of a whole vector: four per component, in order.
pub open spec fn embedding_bytes(words: Seq<u32>) -> Seq<u8> {
    Seq::new(4 * words.len(), |i: int| word_bytes(words[i / 4])[i % 4])
}

/// The vector that a byte string stands for; up to three trailing bytes that
/// do not fill a component are ignored.
pub open spec fn embedding_words(bytes: Seq<u8>) -> Seq<u32> {
    Seq::new(
        (bytes.len() / 4) as nat,
        |k: int| word_of(bytes[4 * k], bytes[4 * k + 1], bytes[4 * k + 2], bytes[4 * k + 3]),
    )
}

/// Lays a vector down as bytes.
pub fn embedding_to_bytes(words: &[u32]) -> (bytes: Vec<u8>)
    ensures
        bytes@ == embedding_bytes(words@),
        bytes@.len() == 4 * words@.len(),
{
    let mut bytes: Vec<u8> = Vec::new();
    let mut i: usize = 0;
    while i < words.len()
        invariant
            i <= words.len(),
            bytes@.len() == 4 * i,
            forall|j: int| 0 <= j < 4 * i ==> bytes@[j] == word_bytes(words@[j / 4])[j % 4],
        decreases words.len() - i,
    {
        let w: u32 = words[i];
        bytes.push((w % 256) as u8);
        bytes.push((w / 256 % 256) as u8);
        bytes.push((w / 65536 % 256) as u8);
        bytes.push((w / 16777216) as u8);
        i = i + 1;
    }
    assert(bytes@ =~= embedding_bytes(words@));
    bytes
}

/// Reads a vector back from its bytes.
pub fn bytes_to_embedding(bytes: &[u8]) -> (words: Vec<u32>)
    ensures
        words@ == embedding_words(bytes@),
        words@.len() == bytes@.len() / 4,
{
    let mut words: Vec<u32> = Vec::new();
    let n: usize = bytes.len() / 4;
    let mut k: usize = 0;
    while k < n
        invariant
            k <= n,
            n == bytes@.len() / 4,
            4 * n <= bytes.len(),
            words@.len() == k,
            forall|j: int| 0 <= j < k ==> words@[j] == word_of(
                bytes@[4 * j],
                bytes@[4 * j + 1],
                bytes@[4 * j + 2],
                bytes@[4 * j + 3],
            ),
        decreases n - k,
    {
        let b0: u32 = bytes[4 * k] as u32;
        let b1: u32 = bytes[4 * k + 1] as u32;
        let b2: u32 = bytes[4 * k + 2] as u32;
        let b3: u32 = bytes[4 * k + 3] as u32;
        words.push(b0 + 256 * b1 + 65536 * b2 + 16777216 * b3);
        k = k + 1;
    }
    assert(words@ =~= embedding_words(bytes@));
    words
}

/// Reading back what was laid down gives the same vector.
pub proof fn lemma_embedding_round_trip(words: Seq<u32>)
    ensures
        embedding_words(embedding_bytes(words)) == words,
{
    let bytes = embedding_bytes(words);
    assert(bytes.len() / 4 == words.len());
    assert forall|k: int| 0 <= k < words.len() implies embedding_words(bytes)[k] == words[k] by {
        let w = words[k];
        assert((4 * k) / 4 == k && (4 * k) % 4 == 0);
        assert((4 * k + 1) / 4 == k && (4 * k + 1) % 4 == 1);
        assert((4 * k + 2) / 4 == k && (4 * k + 2) % 4 == 2);
        assert((4 * k + 3) / 4 == k && (4 * k + 3) % 4 == 3);
        assert(bytes[4 * k] == word_bytes(w)[0]);
        assert(bytes[4 * k + 1] == word_bytes(w)[1]);
        assert(bytes[4 * k + 2] == word_bytes(w)[2]);
        assert(bytes[4 * k + 3] == word_bytes(w)[3]);
    }
    assert(embedding_words(bytes) =~= words);
}

} // verus!
