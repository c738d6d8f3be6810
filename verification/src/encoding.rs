//! The byte layout of what goes into GPU buffers: 32-bit words and 16-bit
//! indices, least significant byte first.

use vstd::prelude::*;

verus! {

/// The four bytes of `word`, least significant first.
pub open spec fn word_le(word: u32) -> Seq<u8> {
    seq![
        (word % 256) as u8,
        (word / 256 % 256) as u8,
        (word / 65536 % 256) as u8,
        (word / 16777216) as u8,
    ]
}

/// The four bytes of `word`, most significant first.
pub open spec fn word_be(word: u32) -> Seq<u8> {
    seq![
        (word / 16777216) as u8,
        (word / 65536 % 256) as u8,
        (word / 256 % 256) as u8,
        (word % 256) as u8,
    ]
}

/// The word whose least-significant-first bytes are `b0, b1, b2, b3`.
pub open spec fn word_of(b0: u8, b1: u8, b2: u8, b3: u8) -> u32 {
    (b0 as int + 256 * (b1 as int) + 65536 * (b2 as int) + 16777216 * (b3 as int)) as u32
}

/// A run of words laid out one after another, each least significant byte first.
pub open spec fn words_le(words: Seq<u32>) -> Seq<u8> {
    Seq::new((4 * words.len()) as nat, |i: int| word_le(words[i / 4])[i % 4])
}

/// A run of words laid out one after another, each most significant byte first.
pub open spec fn words_be(words: Seq<u32>) -> Seq<u8> {
    Seq::new((4 * words.len()) as nat, |i: int| word_be(words[i / 4])[i % 4])
}

/// The words that a little-endian byte run holds; a tail shorter than a word is ignored.
pub open spec fn words_from_le(bytes: Seq<u8>) -> Seq<u32> {
    Seq::new(
        (bytes.len() / 4) as nat,
        |i: int| word_of(bytes[4 * i], bytes[4 * i + 1], bytes[4 * i + 2], bytes[4 * i + 3]),
    )
}

/// The words that a big-endian byte run holds; a tail shorter than a word is ignored.
pub open spec fn words_from_be(bytes: Seq<u8>) -> Seq<u32> {
    Seq::new(
        (bytes.len() / 4) as nat,
        |i: int| word_of(bytes[4 * i + 3], bytes[4 * i + 2], bytes[4 * i + 1], bytes[4 * i]),
    )
}

/// Splitting a word into bytes and joining them again gives the word back.
pub proof fn lemma_word_round_trip(word: u32)
    ensures
        word_le(word).len() == 4,
        word_of(word_le(word)[0], word_le(word)[1], word_le(word)[2], word_le(word)[3]) == word,
        word_be(word) == word_le(word).reverse(),
{
    assert(word_be(word) =~= word_le(word).reverse());
}

/// Joining four bytes into a word and splitting it again gives the bytes back.
pub proof fn lemma_bytes_round_trip(b0: u8, b1: u8, b2: u8, b3: u8)
    ensures
        word_le(word_of(b0, b1, b2, b3)) == seq![b0, b1, b2, b3],
{
    let low: int = b0 as int + 256 * (b1 as int);
    let mid: int = low + 65536 * (b2 as int);
    let all: int = mid + 16777216 * (b3 as int);
    assert(all % 256 == b0 as int && all / 256 % 256 == b1 as int) by {
        assert(all == b0 as int + 256 * (b1 as int + 256 * (b2 as int) + 65536 * (b3 as int)));
    }
    assert(all / 65536 % 256 == b2 as int) by {
        assert(all == low + 65536 * (b2 as int + 256 * (b3 as int)));
    }
    assert(all / 16777216 == b3 as int);
    assert(word_of(b0, b1, b2, b3) == all);
    assert(word_le(word_of(b0, b1, b2, b3)) =~= seq![b0, b1, b2, b3]);
}

/// Decoding an encoded run of words gives the same words.
pub proof fn lemma_words_round_trip(words: Seq<u32>)
    ensures
        words_le(words).len() == 4 * words.len(),
        words_from_le(words_le(words)) == words,
{
    let bytes = words_le(words);
    assert forall|i: int| 0 <= i < words.len() implies words_from_le(bytes)[i] == words[i] by {
        lemma_word_round_trip(words[i]);
        assert(bytes[4 * i] == word_le(words[i])[0]);
        assert(bytes[4 * i + 1] == word_le(words[i])[1]);
        assert(bytes[4 * i + 2] == word_le(words[i])[2]);
        assert(bytes[4 * i + 3] == word_le(words[i])[3]);
    }
    assert(words_from_le(bytes) =~= words);
}

/// Encoding the words decoded from a whole number of words gives the same bytes.
pub proof fn lemma_bytes_words_round_trip(bytes: Seq<u8>)
    requires
        bytes.len() % 4 == 0,
    ensures
        words_le(words_from_le(bytes)) == bytes,
{
    let words = words_from_le(bytes);
    assert forall|k: int| 0 <= k < bytes.len() implies words_le(words)[k] == bytes[k] by {
        let i = k / 4;
        lemma_bytes_round_trip(bytes[4 * i], bytes[4 * i + 1], bytes[4 * i + 2], bytes[4 * i + 3]);
    }
    assert(words_le(words) =~= bytes);
}

/// Stands in front of every run handed to the host for reinterpretation. Its
/// first byte is 1 in little-endian memory and 4 in big-endian memory, so the
/// bytes that come back tell which order the host uses.
pub const ORDER_MARK: u32 = 0x0403_0201;

/// `bytemuck::cast_slice::<u32, u8>`, copied into a vector: the bytes of the
/// words as they lie in the host's memory. That is every word least
/// significant byte first on a little-endian host, and every word most
/// significant byte first on a big-endian one; nothing says which.
#[verifier::external_body]
fn words_in_memory(words: &[u32]) -> (bytes: Vec<u8>)
    ensures
        bytes@ == words_le(words@) || bytes@ == words_be(words@),
{
    bytemuck::cast_slice::<u32, u8>(words).to_vec()
}

/// The bytes of `words` for upload, each word least significant byte first.
///
/// The host reinterprets the words in its own byte order; the mark in front
/// shows which order that was, and a big-endian result is turned around word
/// by word.
pub fn words_to_bytes(words: &[u32]) -> (bytes: Vec<u8>)
    ensures
        bytes@ == words_le(words@),
{
    let n: usize = words.len();
    let mut marked: Vec<u32> = Vec::new();
    marked.push(ORDER_MARK);
    let mut i: usize = 0;
    while i < n
        invariant
            n == words@.len(),
            i <= n,
            marked@.len() == i + 1,
            marked@[0] == ORDER_MARK,
            forall|k: int| 0 <= k < i ==> marked@[k + 1] == words@[k],
        decreases n - i,
    {
        marked.push(words[i]);
        i += 1;
    }
    let raw: Vec<u8> = words_in_memory(marked.as_slice());
    let raw_len: usize = raw.len();
    assert(raw_len == 4 * (n + 1));
    assert(words_le(marked@)[0] == word_le(ORDER_MARK)[0]);
    assert(words_be(marked@)[0] == word_be(ORDER_MARK)[0]);
    let little: bool = raw[0] == 1;
    assert(little ==> raw@ == words_le(marked@));
    assert(!little ==> raw@ == words_be(marked@));
    let mut bytes: Vec<u8> = Vec::new();
    let mut i: usize = 0;
    while i < n
        invariant
            n == words@.len(),
            i <= n,
            raw_len == raw@.len(),
            raw_len == 4 * (n + 1),
            marked@.len() == n + 1,
            forall|k: int| 0 <= k < n ==> marked@[k + 1] == words@[k],
            little ==> raw@ == words_le(marked@),
            !little ==> raw@ == words_be(marked@),
            bytes@.len() == 4 * i,
            forall|k: int| 0 <= k < 4 * i ==> bytes@[k] == word_le(words@[k / 4])[k % 4],
        decreases n - i,
    {
        let at: usize = 4 * (i + 1);
        let ghost word = words@[i as int];
        assert(marked@[i + 1] == word);
        assert(raw@[at as int] == if little { word_le(word)[0] } else { word_be(word)[0] });
        assert(raw@[at + 1] == if little { word_le(word)[1] } else { word_be(word)[1] });
        assert(raw@[at + 2] == if little { word_le(word)[2] } else { word_be(word)[2] });
        assert(raw@[at + 3] == if little { word_le(word)[3] } else { word_be(word)[3] });
        if little {
            bytes.push(raw[at]);
            bytes.push(raw[at + 1]);
            bytes.push(raw[at + 2]);
            bytes.push(raw[at + 3]);
        } else {
            bytes.push(raw[at + 3]);
            bytes.push(raw[at + 2]);
            bytes.push(raw[at + 1]);
            bytes.push(raw[at]);
        }
        i += 1;
    }
    assert(bytes@ =~= words_le(words@));
    bytes
}

/// The words held by `bytes`, each read least significant byte first; `None`
/// where the length is not a whole number of words.
pub fn bytes_to_words(bytes: &[u8]) -> (words: Option<Vec<u32>>)
    ensures
        words is Some <==> bytes@.len() % 4 == 0,
        words matches Some(w) ==> w@ == words_from_le(bytes@),
{
    let len: usize = bytes.len();
    if len % 4 != 0 {
        return None;
    }
    let count: usize = len / 4;
    let mut words: Vec<u32> = Vec::new();
    let mut i: usize = 0;
    while i < count
        invariant
            len == bytes@.len(),
            len == 4 * count,
            i <= count,
            words@.len() == i,
            forall|k: int| 0 <= k < i ==> words@[k] == words_from_le(bytes@)[k],
        decreases count - i,
    {
        let at: usize = 4 * i;
        let b0: u32 = bytes[at] as u32;
        let b1: u32 = bytes[at + 1] as u32;
        let b2: u32 = bytes[at + 2] as u32;
        let b3: u32 = bytes[at + 3] as u32;
        words.push(b0 + 256 * b1 + 65536 * b2 + 16777216 * b3);
        i += 1;
    }
    assert(words@ =~= words_from_le(bytes@));
    Some(words)
}

/// The two bytes of `index`, least significant first.
pub open spec fn index_le(index: u16) -> Seq<u8> {
    seq![(index % 256) as u8, (index / 256) as u8]
}

/// The two bytes of `index`, most significant first.
pub open spec fn index_be(index: u16) -> Seq<u8> {
    seq![(index / 256) as u8, (index % 256) as u8]
}

/// A run of 16-bit indices laid out one after another, each least significant byte first.
pub open spec fn indices_le(indices: Seq<u16>) -> Seq<u8> {
    Seq::new((2 * indices.len()) as nat, |i: int| index_le(indices[i / 2])[i % 2])
}

/// A run of 16-bit indices laid out one after another, each most significant byte first.
pub open spec fn indices_be(indices: Seq<u16>) -> Seq<u8> {
    Seq::new((2 * indices.len()) as nat, |i: int| index_be(indices[i / 2])[i % 2])
}

/// The 16-bit counterpart of [`ORDER_MARK`]: first byte 1 in little-endian
/// memory, 2 in big-endian memory.
pub const INDEX_ORDER_MARK: u16 = 0x0201;

/// `bytemuck::cast_slice::<u16, u8>`, copied into a vector: the bytes of the
/// indices as they lie in the host's memory, all least significant byte first
/// or all most significant byte first, depending on the host.
#[verifier::external_body]
fn indices_in_memory(indices: &[u16]) -> (bytes: Vec<u8>)
    ensures
        bytes@ == indices_le(indices@) || bytes@ == indices_be(indices@),
{
    bytemuck::cast_slice::<u16, u8>(indices).to_vec()
}

/// The bytes of an index list for upload, each index least significant byte first.
pub fn indices_to_bytes(indices: &[u16]) -> (bytes: Vec<u8>)
    ensures
        bytes@ == indices_le(indices@),
{
    let n: usize = indices.len();
    let mut marked: Vec<u16> = Vec::new();
    marked.push(INDEX_ORDER_MARK);
    let mut i: usize = 0;
    while i < n
        invariant
            n == indices@.len(),
            i <= n,
            marked@.len() == i + 1,
            marked@[0] == INDEX_ORDER_MARK,
            forall|k: int| 0 <= k < i ==> marked@[k + 1] == indices@[k],
        decreases n - i,
    {
        marked.push(indices[i]);
        i += 1;
    }
    let raw: Vec<u8> = indices_in_memory(marked.as_slice());
    let raw_len: usize = raw.len();
    assert(raw_len == 2 * (n + 1));
    assert(indices_le(marked@)[0] == index_le(INDEX_ORDER_MARK)[0]);
    assert(indices_be(marked@)[0] == index_be(INDEX_ORDER_MARK)[0]);
    let little: bool = raw[0] == 1;
    assert(little ==> raw@ == indices_le(marked@));
    assert(!little ==> raw@ == indices_be(marked@));
    let mut bytes: Vec<u8> = Vec::new();
    let mut i: usize = 0;
    while i < n
        invariant
            n == indices@.len(),
            i <= n,
            raw_len == raw@.len(),
            raw_len == 2 * (n + 1),
            marked@.len() == n + 1,
            forall|k: int| 0 <= k < n ==> marked@[k + 1] == indices@[k],
            little ==> raw@ == indices_le(marked@),
            !little ==> raw@ == indices_be(marked@),
            bytes@.len() == 2 * i,
            forall|k: int| 0 <= k < 2 * i ==> bytes@[k] == index_le(indices@[k / 2])[k % 2],
        decreases n - i,
    {
        let at: usize = 2 * (i + 1);
        let ghost index = indices@[i as int];
        assert(marked@[i + 1] == index);
        assert(raw@[at as int] == if little { index_le(index)[0] } else { index_be(index)[0] });
        assert(raw@[at + 1] == if little { index_le(index)[1] } else { index_be(index)[1] });
        if little {
            bytes.push(raw[at]);
            bytes.push(raw[at + 1]);
        } else {
            bytes.push(raw[at + 1]);
            bytes.push(raw[at]);
        }
        i += 1;
    }
    assert(bytes@ =~= indices_le(indices@));
    bytes
}

} // verus!
