//! Big-endian conversions between bytes and 16-bit words, and bounds-checked
//! extraction from byte arrays.

use vstd::prelude::*;

verus! {

/// The two big-endian bytes of a word: high byte first.
pub open spec fn word_to_bytes(w: u16) -> Seq<u8> {
    seq![(w / 256) as u8, (w % 256) as u8]
}

/// The word whose big-endian bytes are `high` and `low`.
pub open spec fn bytes_to_word(high: u8, low: u8) -> u16 {
    (high as int * 256 + low as int) as u16
}

/// Each word as two big-endian bytes, in order.
pub open spec fn words_to_bytes(words: Seq<u16>) -> Seq<u8> {
    Seq::new(
        2 * words.len(),
        |i: int|
            if i % 2 == 0 {
                (words[i / 2] / 256) as u8
            } else {
                (words[i / 2] % 256) as u8
            },
    )
}

/// `count` big-endian words read from `bytes`, the first at byte `start`.
pub open spec fn bytes_to_words(bytes: Seq<u8>, start: int, count: nat) -> Seq<u16> {
    Seq::new(count, |k: int| bytes_to_word(bytes[start + 2 * k], bytes[start + 2 * k + 1]))
}

/// The `count` bytes of `source` from `start` on, when they exist and
/// `count` is positive.
pub open spec fn extract_range(source: Seq<u8>, start: int, count: int) -> Option<Seq<u8>> {
    if 0 < count && 0 <= start && start + count <= source.len() {
        Some(source.subrange(start, start + count))
    } else {
        None
    }
}

/// Converting a word to bytes and back gives the word.
pub proof fn lemma_word_round_trip(w: u16)
    ensures
        bytes_to_word(word_to_bytes(w)[0], word_to_bytes(w)[1]) == w,
{
}

/// Appends one byte.
pub fn append_byte_to_bytearray(array: &mut Vec<u8>, databyte: u8)
    ensures
        final(array)@ == old(array)@.push(databyte),
{
    array.push(databyte);
}

/// Appends every byte of `source_array`, in order.
pub fn append_bytearray_to_bytearray(target_array: &mut Vec<u8>, source_array: &Vec<u8>)
    ensures
        final(target_array)@ == old(target_array)@ + source_array@,
{
    let ghost start = target_array@;
    let mut i: usize = 0;
    while i < source_array.len()
        invariant
            i <= source_array.len(),
            target_array@ == start + source_array@.take(i as int),
        decreases source_array.len() - i,
    {
        append_byte_to_bytearray(target_array, source_array[i]);
        i += 1;
        assert(source_array@.take(i as int) =~= source_array@.take(i - 1).push(source_array@[i - 1]));
    }
    assert(source_array@.take(i as int) =~= source_array@);
}

/// The two big-endian bytes of a word.
pub fn split_word_to_bytes(dataword: u16) -> (r: Vec<u8>)
    ensures
        r@ == word_to_bytes(dataword),
{
    let highbyte: u8 = (dataword / 256) as u8;
    let lowbyte: u8 = (dataword % 256) as u8;
    let r = vec![highbyte, lowbyte];
    assert(r@ =~= word_to_bytes(dataword));
    r
}

/// Appends a word as two big-endian bytes.
pub fn append_word_to_bytearray(array: &mut Vec<u8>, dataword: u16)
    ensures
        final(array)@ == old(array)@ + word_to_bytes(dataword),
{
    let splitted_word = split_word_to_bytes(dataword);
    array.push(splitted_word[0]);
    array.push(splitted_word[1]);
    assert(array@ =~= old(array)@ + word_to_bytes(dataword));
}

/// The view of an optional byte vector.
pub open spec fn bytes_view(v: Option<Vec<u8>>) -> Option<Seq<u8>> {
    match v {
        Some(b) => Some(b@),
        None => None,
    }
}

/// The `count` bytes of `source_array` from `start_index` on; `None` when
/// `count` is zero or the range runs past the end.
pub(crate) fn extract_slice(source_array: &Vec<u8>, start_index: usize, byte_count: usize) -> (r:
    Option<Vec<u8>>)
    ensures
        bytes_view(r) == extract_range(source_array@, start_index as int, byte_count as int),
{
    if byte_count == 0 || start_index > source_array.len() || byte_count > source_array.len()
        - start_index {
        return None;
    }
    let end: usize = start_index + byte_count;
    let mut copy_array: Vec<u8> = Vec::new();
    let mut index: usize = start_index;
    while index < end
        invariant
            start_index <= index <= end <= source_array.len(),
            copy_array@ == source_array@.subrange(start_index as int, index as int),
        decreases end - index,
    {
        copy_array.push(source_array[index]);
        index += 1;
        assert(copy_array@ =~= source_array@.subrange(start_index as int, index as int));
    }
    Some(copy_array)
}

/// The `byte_count` bytes from `start_index` on: present exactly when
/// `byte_count > 0` and `start_index + byte_count` is within the array.
pub fn extract_bytes_from_bytearray(source_array: &Vec<u8>, start_index: u8, byte_count: u8) -> (r:
    Option<Vec<u8>>)
    ensures
        r.is_some() <==> (byte_count > 0 && start_index + byte_count <= source_array@.len()),
        bytes_view(r) == extract_range(source_array@, start_index as int, byte_count as int),
{
    extract_slice(source_array, start_index as usize, byte_count as usize)
}

/// The byte at `start_index`, when there is one.
pub fn extract_byte_from_bytearray(source_array: &Vec<u8>, start_index: u8) -> (r: Option<u8>)
    ensures
        r == (if (start_index as int) < source_array@.len() {
            Some(source_array@[start_index as int])
        } else {
            None::<u8>
        }),
{
    match extract_bytes_from_bytearray(source_array, start_index, 1) {
        Some(result) => Some(result[0]),
        None => None,
    }
}

/// The big-endian word at `index` and `index + 1`.
pub fn transform_bytes_to_word(bytes: &Vec<u8>, index: u8) -> (r: u16)
    requires
        index + 1 < bytes@.len(),
    ensures
        r == bytes_to_word(bytes@[index as int], bytes@[index + 1]),
{
    let high: u16 = bytes[index as usize] as u16;
    let low: u16 = bytes[index as usize + 1] as u16;
    high * 256 + low
}

/// The big-endian word at `start_index`, when both of its bytes exist.
pub fn extract_word_from_bytearray(source_array: &Vec<u8>, start_index: u8) -> (r: Option<u16>)
    ensures
        r == (if start_index + 2 <= source_array@.len() {
            Some(bytes_to_word(source_array@[start_index as int], source_array@[start_index + 1]))
        } else {
            None::<u16>
        }),
{
    match extract_bytes_from_bytearray(source_array, start_index, 2) {
        Some(result) => Some(transform_bytes_to_word(&result, 0)),
        None => None,
    }
}

/// `word_count` big-endian words from `start_index` on, or no words at all
/// when the array is too short for them.
pub fn transform_bytes_to_words(databytes: &Vec<u8>, start_index: u8, word_count: u8) -> (r: Vec<
    u16,
>)
    ensures
        r@ == (if start_index + 2 * word_count <= databytes@.len() {
            bytes_to_words(databytes@, start_index as int, word_count as nat)
        } else {
            Seq::<u16>::empty()
        }),
{
    let mut reply: Vec<u16> = Vec::new();
    let start: usize = start_index as usize;
    let count: usize = word_count as usize;
    if start + 2 * count <= databytes.len() {
        let mut k: usize = 0;
        while k < count
            invariant
                k <= count <= 255,
                start <= 255,
                start + 2 * count <= databytes@.len(),
                reply@ == bytes_to_words(databytes@, start as int, k as nat),
            decreases count - k,
        {
            let high: u16 = databytes[start + 2 * k] as u16;
            let low: u16 = databytes[start + 2 * k + 1] as u16;
            reply.push(high * 256 + low);
            k += 1;
            assert(reply@ =~= bytes_to_words(databytes@, start as int, k as nat));
        }
    }
    reply
}

/// The two big-endian bytes of a word.
pub fn transform_word_to_bytes(dataword: u16) -> (r: Vec<u8>)
    ensures
        r@ == word_to_bytes(dataword),
{
    split_word_to_bytes(dataword)
}

/// Every word as two big-endian bytes, in order.
pub fn transform_words_to_bytes(datawords: &Vec<u16>) -> (r: Vec<u8>)
    ensures
        r@ == words_to_bytes(datawords@),
{
    let mut reply: Vec<u8> = Vec::new();
    let mut i: usize = 0;
    while i < datawords.len()
        invariant
            i <= datawords.len(),
            reply@ == words_to_bytes(datawords@.take(i as int)),
        decreases datawords.len() - i,
    {
        append_word_to_bytearray(&mut reply, datawords[i]);
        i += 1;
        assert(reply@ =~= words_to_bytes(datawords@.take(i as int)));
    }
    assert(datawords@.take(i as int) =~= datawords@);
    reply
}

} // verus!
