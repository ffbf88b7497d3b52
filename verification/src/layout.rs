//! The data the host and the device share, and its byte layout.
//!
//! Every number that crosses to the device is a 32-bit word: the bit pattern
//! of an IEEE-754 single. A word occupies four bytes, least significant
//! first, with no padding between words.

use vstd::prelude::*;

verus! {

/// A 2D vector. `x` and `y` hold the bit patterns of its two components.
#[derive(Clone, Copy, Debug, PartialEq, Eq, Structural)]
pub struct Vec2f {
    pub x: u32,
    pub y: u32,
}

/// One slot of the device array: a single vector, eight bytes.
#[derive(Clone, Copy, Debug, PartialEq, Eq, Structural)]
pub struct StorageData {
    pub vector: Vec2f,
}

/// The kernel's parameter block: the bit pattern of the rotation angle in
/// degrees, four bytes.
#[derive(Clone, Copy, Debug, PartialEq, Eq, Structural)]
pub struct UniformData {
    pub rotate_deg: u32,
}

impl Default for Vec2f {
    fn default() -> (zero: Vec2f)
        ensures
            zero == (Vec2f { x: 0, y: 0 }),
    {
        Vec2f { x: 0, y: 0 }
    }
}

/// The four bytes of a word, least significant first.
pub open spec fn word_bytes(word: u32) -> Seq<u8> {
    seq![
        (word & 0xff) as u8,
        ((word >> 8) & 0xff) as u8,
        ((word >> 16) & 0xff) as u8,
        ((word >> 24) & 0xff) as u8,
    ]
}

/// The word whose bytes, least significant first, are `bytes[at..at + 4]`.
pub open spec fn word_at(bytes: Seq<u8>, at: int) -> u32 {
    (bytes[at] as u32) | ((bytes[at + 1] as u32) << 8) | ((bytes[at + 2] as u32) << 16) | ((
    bytes[at + 3] as u32) << 24)
}

/// The eight bytes of a storage entry: `x`, then `y`.
pub open spec fn entry_bytes(entry: StorageData) -> Seq<u8> {
    word_bytes(entry.vector.x) + word_bytes(entry.vector.y)
}

/// The storage entry laid out at `bytes[at..at + 8]`.
pub open spec fn entry_at(bytes: Seq<u8>, at: int) -> StorageData {
    StorageData { vector: Vec2f { x: word_at(bytes, at), y: word_at(bytes, at + 4) } }
}

/// The bytes of an array of entries: entry `i` occupies bytes `8 * i` to
/// `8 * i + 7`.
pub open spec fn entries_bytes(entries: Seq<StorageData>) -> Seq<u8> {
    Seq::new(8 * entries.len(), |i: int| entry_bytes(entries[i / 8])[i % 8])
}

/// The entries laid out in `bytes`; a trailing fragment shorter than an
/// entry is not part of any.
pub open spec fn entries_at(bytes: Seq<u8>) -> Seq<StorageData> {
    Seq::new(bytes.len() / 8, |i: int| entry_at(bytes, 8 * i))
}

/// The four bytes of the uniform block.
pub open spec fn uniform_bytes(params: UniformData) -> Seq<u8> {
    word_bytes(params.rotate_deg)
}

/// Reading back the bytes of a word gives the word.
pub proof fn lemma_word_round_trip(word: u32)
    ensures
        word_bytes(word).len() == 4,
        word_at(word_bytes(word), 0) == word,
{
    assert(((word & 0xff) as u8 as u32) | ((((word >> 8) & 0xff) as u8 as u32) << 8) | ((((word
        >> 16) & 0xff) as u8 as u32) << 16) | ((((word >> 24) & 0xff) as u8 as u32) << 24) == word)
        by (bit_vector);
}

/// Laying out the word read from four bytes gives those bytes.
pub proof fn lemma_bytes_round_trip(bytes: Seq<u8>, at: int)
    requires
        0 <= at,
        at + 4 <= bytes.len(),
    ensures
        word_bytes(word_at(bytes, at)) == bytes.subrange(at, at + 4),
{
    let b0: u8 = bytes[at];
    let b1: u8 = bytes[at + 1];
    let b2: u8 = bytes[at + 2];
    let b3: u8 = bytes[at + 3];
    let word: u32 = (b0 as u32) | ((b1 as u32) << 8) | ((b2 as u32) << 16) | ((b3 as u32) << 24);
    assert((word & 0xff) as u8 == b0 && ((word >> 8) & 0xff) as u8 == b1 && ((word >> 16) & 0xff) as u8
        == b2 && ((word >> 24) & 0xff) as u8 == b3) by (bit_vector)
        requires
            word == (b0 as u32) | ((b1 as u32) << 8) | ((b2 as u32) << 16) | ((b3 as u32) << 24),
    ;
    assert(word_bytes(word) =~= bytes.subrange(at, at + 4));
}

/// Entries that are laid out and read back come out unchanged, bit for
/// bit, and occupy eight bytes each.
pub proof fn lemma_entries_round_trip(entries: Seq<StorageData>)
    ensures
        entries_bytes(entries).len() == 8 * entries.len(),
        entries_at(entries_bytes(entries)) == entries,
{
    let bytes = entries_bytes(entries);
    assert forall|i: int| 0 <= i < entries.len() implies entry_at(bytes, 8 * i) == entries[i] by {
        let entry = entries[i];
        lemma_word_round_trip(entry.vector.x);
        lemma_word_round_trip(entry.vector.y);
        assert forall|k: int| 0 <= k < 8 implies bytes[8 * i + k] == entry_bytes(entry)[k] by {
            assert((8 * i + k) / 8 == i && (8 * i + k) % 8 == k);
        }
    }
    assert(entries_at(bytes) =~= entries);
}

/// Bytes that hold a whole number of entries are exactly the layout of the
/// entries read from them.
pub proof fn lemma_bytes_are_layout(bytes: Seq<u8>)
    requires
        bytes.len() % 8 == 0,
    ensures
        entries_bytes(entries_at(bytes)) == bytes,
{
    let entries = entries_at(bytes);
    assert forall|i: int| 0 <= i < bytes.len() implies entries_bytes(entries)[i] == bytes[i] by {
        let slot: int = i / 8;
        let k: int = i % 8;
        lemma_bytes_round_trip(bytes, 8 * slot);
        lemma_bytes_round_trip(bytes, 8 * slot + 4);
        if k < 4 {
            assert(bytes.subrange(8 * slot, 8 * slot + 4)[k] == bytes[i]);
        } else {
            assert(bytes.subrange(8 * slot + 4, 8 * slot + 8)[k - 4] == bytes[i]);
        }
    }
    assert(entries_bytes(entries) =~= bytes);
}

/// An entry read inside a window of `bytes` is the entry read at the same
/// place in `bytes`.
proof fn lemma_entry_in_window(bytes: Seq<u8>, from: int, to: int, at: int)
    requires
        0 <= from <= to <= bytes.len(),
        0 <= at,
        at + 8 <= to - from,
    ensures
        entry_at(bytes.subrange(from, to), at) == entry_at(bytes, from + at),
{
    let window = bytes.subrange(from, to);
    assert(window[at] == bytes[from + at]);
    assert(window[at + 1] == bytes[from + at + 1]);
    assert(window[at + 2] == bytes[from + at + 2]);
    assert(window[at + 3] == bytes[from + at + 3]);
    assert(window[at + 4] == bytes[from + at + 4]);
    assert(window[at + 5] == bytes[from + at + 5]);
    assert(window[at + 6] == bytes[from + at + 6]);
    assert(window[at + 7] == bytes[from + at + 7]);
}

/// One written slot, read back.
proof fn lemma_slot_read_back(array: Seq<u8>, offset: int, entries: Seq<StorageData>, i: int)
    requires
        0 <= offset,
        0 <= i < entries.len(),
        8 * (offset + entries.len()) <= array.len(),
        array.subrange(8 * offset, 8 * (offset + entries.len())) == entries_bytes(entries),
    ensures
        offset + i < entries_at(array).len(),
        entries_at(array)[offset + i] == entries[i],
{
    let written = entries_bytes(entries);
    let count: int = entries.len() as int;
    assert(offset + i < array.len() / 8) by (nonlinear_arith)
        requires
            0 <= i < count,
            8 * (offset + count) <= array.len(),
    ;
    assert(entries_at(array)[offset + i] == entry_at(array, 8 * (offset + i)));
    assert(entry_at(array, 8 * offset + 8 * i) == entry_at(written, 8 * i)) by {
        lemma_entry_in_window(array, 8 * offset, 8 * (offset + count), 8 * i);
    }
    assert(entry_at(written, 8 * i) == entries[i]) by {
        lemma_entries_round_trip(entries);
        assert(entries_at(written)[i] == entry_at(written, 8 * i));
    }
}

/// What is written is what is read: if the bytes of a device array hold
/// the layout of `entries` from slot `offset` on, then the entries read from
/// the array hold `entries` in those slots, bit for bit.
pub proof fn lemma_written_slots_read_back(
    array: Seq<u8>,
    offset: int,
    entries: Seq<StorageData>,
)
    requires
        0 <= offset,
        8 * (offset + entries.len()) <= array.len(),
        array.subrange(8 * offset, 8 * (offset + entries.len())) == entries_bytes(entries),
    ensures
        offset + entries.len() <= entries_at(array).len(),
        entries_at(array).subrange(offset, offset + entries.len()) == entries,
{
    let read = entries_at(array);
    let count: int = entries.len() as int;
    assert(offset + count <= array.len() / 8) by (nonlinear_arith)
        requires
            8 * (offset + count) <= array.len(),
    ;
    let slots = read.subrange(offset, offset + count);
    assert forall|i: int| 0 <= i < count implies #[trigger] slots[i] == entries[i] by {
        lemma_slot_read_back(array, offset, entries, i);
    }
    assert(slots =~= entries);
}

/// Appends the four bytes of `word` to `out`.
fn push_word(out: &mut Vec<u8>, word: u32)
    ensures
        final(out)@ == old(out)@ + word_bytes(word),
{
    out.push((word & 0xff) as u8);
    out.push(((word >> 8) & 0xff) as u8);
    out.push(((word >> 16) & 0xff) as u8);
    out.push(((word >> 24) & 0xff) as u8);
    assert(out@ =~= old(out)@ + word_bytes(word));
}

/// Reads the word laid out at `bytes[at..at + 4]`.
fn read_word(bytes: &[u8], at: usize) -> (word: u32)
    requires
        at + 4 <= bytes.len(),
    ensures
        word == word_at(bytes@, at as int),
{
    (bytes[at] as u32) | ((bytes[at + 1] as u32) << 8) | ((bytes[at + 2] as u32) << 16) | ((
    bytes[at + 3] as u32) << 24)
}

impl UniformData {
    /// The block as the device reads it.
    pub fn to_bytes(&self) -> (bytes: Vec<u8>)
        ensures
            bytes@ == uniform_bytes(*self),
    {
        let mut bytes: Vec<u8> = Vec::new();
        push_word(&mut bytes, self.rotate_deg);
        assert(bytes@ =~= uniform_bytes(*self));
        bytes
    }
}

/// Lays out `entries` as the device reads them.
pub fn encode_entries(entries: &[StorageData]) -> (bytes: Vec<u8>)
    ensures
        bytes@ == entries_bytes(entries@),
{
    let mut bytes: Vec<u8> = Vec::new();
    let mut done: usize = 0;
    while done < entries.len()
        invariant
            done <= entries.len(),
            bytes@ == entries_bytes(entries@.take(done as int)),
        decreases entries.len() - done,
    {
        let entry = entries[done];
        push_word(&mut bytes, entry.vector.x);
        push_word(&mut bytes, entry.vector.y);
        done = done + 1;
        assert(bytes@ =~= entries_bytes(entries@.take(done as int)));
    }
    assert(entries@.take(done as int) =~= entries@);
    bytes
}

/// Reads back the entries laid out in `bytes`. The length must be a whole
/// number of entries; otherwise nothing is extracted.
pub fn decode_entries(bytes: &[u8]) -> (entries: Option<Vec<StorageData>>)
    ensures
        match entries {
            Some(found) => bytes.len() % 8 == 0 && found@ == entries_at(bytes@),
            None => bytes.len() % 8 != 0,
        },
{
    if bytes.len() % 8 != 0 {
        return None;
    }
    let count: usize = bytes.len() / 8;
    let mut found: Vec<StorageData> = Vec::new();
    let mut done: usize = 0;
    while done < count
        invariant
            done <= count,
            count == bytes.len() / 8,
            found@ == entries_at(bytes@).take(done as int),
        decreases count - done,
    {
        let at: usize = 8 * done;
        let x: u32 = read_word(bytes, at);
        let y: u32 = read_word(bytes, at + 4);
        found.push(StorageData { vector: Vec2f { x, y } });
        done = done + 1;
        assert(found@ =~= entries_at(bytes@).take(done as int));
    }
    assert(found@ =~= entries_at(bytes@));
    Some(found)
}

} // verus!
