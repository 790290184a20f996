//! The binary encoding of a `tsvector`, as a specification, and what the
//! decoder makes of it.

use crate::types::{
    decoded, entries_at, entry_at, positions_at, terminator, DecodeError, EntryView,
};
use crate::wire::{be16_at, be16_bytes, be32_at, be32_bytes, lemma_be32_bytes_of_value};
use vstd::prelude::*;
use vstd::utf8::{
    char_is_scalar, char_u32_cast, decode_utf8_encode_utf8, encode_scalar, encode_utf8,
    encode_utf8_decode_utf8, encode_utf8_valid_utf8, has_width_1_encoding, has_width_2_encoding,
    has_width_3_encoding, is_scalar,
};

verus! {

/// The word positions of one lexeme on the wire: two bytes each, in order.
pub open spec fn positions_encoding(positions: Seq<u16>) -> Seq<u8> {
    Seq::new(
        2 * positions.len(),
        |i: int|
            if i % 2 == 0 {
                be16_bytes(positions[i / 2])[0]
            } else {
                be16_bytes(positions[i / 2])[1]
            },
    )
}

/// One record on the wire: the lexeme in UTF-8, a zero byte, the number of
/// positions, the positions.
pub open spec fn entry_encoding(entry: EntryView) -> Seq<u8> {
    encode_utf8(entry.lexeme) + seq![0u8] + be16_bytes(entry.positions.len() as u16)
        + positions_encoding(entry.positions)
}

/// The records of `entries` on the wire, one after the other.
pub open spec fn entries_encoding(entries: Seq<EntryView>) -> Seq<u8>
    decreases entries.len(),
{
    if entries.len() == 0 {
        Seq::empty()
    } else {
        entry_encoding(entries[0]) + entries_encoding(entries.drop_first())
    }
}

/// A `tsvector` on the wire: the number of entries, then the records.
pub open spec fn encoding(entries: Seq<EntryView>) -> Seq<u8> {
    be32_bytes(entries.len() as u32) + entries_encoding(entries)
}

/// Whether the wire format can hold `entry`: the lexeme has no character
/// zero, which would end it early, and the number of positions fits in 16
/// bits.
pub open spec fn entry_encodable(entry: EntryView) -> bool {
    &&& !entry.lexeme.contains('\0')
    &&& entry.positions.len() <= u16::MAX
}

/// Whether the wire format can hold `entries`: each entry can be held, and
/// their number fits in 32 bits.
pub open spec fn encodable(entries: Seq<EntryView>) -> bool {
    &&& entries.len() <= u32::MAX
    &&& forall|i: int| 0 <= i < entries.len() ==> entry_encodable(#[trigger] entries[i])
}

/// The UTF-8 form of a scalar other than zero has no zero byte.
pub proof fn lemma_scalar_without_zero_byte(scalar: u32)
    requires
        is_scalar(scalar),
        scalar != 0,
    ensures
        !encode_scalar(scalar).contains(0u8),
{
    let bytes = encode_scalar(scalar);
    assert(scalar <= 0x7F && scalar != 0 ==> (scalar & 0x7F) as u8 != 0) by (bit_vector);
    assert(0xC0u8 | ((scalar >> 6) & 0x1F) as u8 != 0) by (bit_vector);
    assert(0xE0u8 | ((scalar >> 12) & 0x0F) as u8 != 0) by (bit_vector);
    assert(0xF0u8 | ((scalar >> 18) & 0x7) as u8 != 0) by (bit_vector);
    assert(0x80u8 | (scalar & 0x3F) as u8 != 0) by (bit_vector);
    assert(0x80u8 | ((scalar >> 6) & 0x3F) as u8 != 0) by (bit_vector);
    assert(0x80u8 | ((scalar >> 12) & 0x3F) as u8 != 0) by (bit_vector);
    assert forall|j: int| 0 <= j < bytes.len() implies bytes[j] != 0 by {
        if has_width_1_encoding(scalar) {
        } else if has_width_2_encoding(scalar) {
        } else if has_width_3_encoding(scalar) {
        } else {
        }
    }
}

/// The UTF-8 form of a text without the character zero has no zero byte.
pub proof fn lemma_text_without_zero_byte(text: Seq<char>)
    requires
        !text.contains('\0'),
    ensures
        !encode_utf8(text).contains(0u8),
    decreases text.len(),
{
    if text.len() > 0 {
        char_is_scalar(text[0]);
        assert(text.contains(text[0]));
        if text[0] as u32 == 0 {
            char_u32_cast(text[0], 0u32);
            char_u32_cast('\0', 0u32);
        }
        let first = encode_scalar(text[0] as u32);
        let rest = encode_utf8(text.drop_first());
        lemma_scalar_without_zero_byte(text[0] as u32);
        assert(!text.drop_first().contains('\0')) by {
            if text.drop_first().contains('\0') {
                let i = choose|i: int|
                    0 <= i < text.drop_first().len() && text.drop_first()[i] == '\0';
                assert(text[i + 1] == '\0');
            }
        }
        lemma_text_without_zero_byte(text.drop_first());
        assert forall|j: int| 0 <= j < (first + rest).len() implies (first + rest)[j] != 0 by {
            if j < first.len() {
                assert(first.contains(first[j]));
            } else {
                assert(rest.contains(rest[j - first.len()]));
            }
        }
    }
}

/// The first zero byte at or after `from` is at `zero` where no byte between
/// the two is zero.
pub proof fn lemma_terminator_is_first_zero(bytes: Seq<u8>, from: int, zero: int)
    requires
        0 <= from <= zero < bytes.len(),
        bytes[zero] == 0,
        forall|j: int| from <= j < zero ==> bytes[j] != 0,
    ensures
        terminator(bytes, from) == zero,
    decreases zero - from,
{
    if from < zero {
        lemma_terminator_is_first_zero(bytes, from + 1, zero);
    }
}

/// A record that stands at `at` in a buffer is read back as it was written,
/// and reading stops right after it.
pub proof fn lemma_entry_at_encoding(bytes: Seq<u8>, at: int, entry: EntryView)
    requires
        entry_encodable(entry),
        0 <= at,
        at + entry_encoding(entry).len() <= bytes.len(),
        bytes.subrange(at, at + entry_encoding(entry).len()) == entry_encoding(entry),
    ensures
        entry_at(bytes, at) == Ok::<(EntryView, int), DecodeError>(
            (entry, at + entry_encoding(entry).len()),
        ),
{
    let text = encode_utf8(entry.lexeme);
    let record = entry_encoding(entry);
    lemma_text_without_zero_byte(entry.lexeme);
    let count = entry.positions.len();
    let n = text.len() as int;
    let zero = at + n;
    assert(record.len() == n + 3 + 2 * count);
    assert forall|k: int| 0 <= k < record.len() implies bytes[at + k] == record[k] by {
        assert(bytes.subrange(at, at + record.len())[k] == bytes[at + k]);
    }
    assert forall|j: int| at <= j < zero implies bytes[j] != 0 by {
        assert(bytes[at + (j - at)] == record[j - at]);
        assert(record[j - at] == text[j - at]);
        assert(text.contains(text[j - at]));
    }
    assert(bytes[at + n] == record[n]);
    lemma_terminator_is_first_zero(bytes, at, zero);
    assert(bytes.subrange(at, zero) =~= text) by {
        assert forall|k: int| 0 <= k < n implies bytes.subrange(at, zero)[k] == text[k] by {
            assert(bytes[at + k] == record[k]);
        }
    }
    encode_utf8_valid_utf8(entry.lexeme);
    encode_utf8_decode_utf8(entry.lexeme);
    assert(bytes[zero + 1] == record[n + 1]);
    assert(bytes[zero + 2] == record[n + 2]);
    assert(be16_at(bytes, zero + 1) == count);
    assert(positions_at(bytes, zero + 3, count) =~= entry.positions) by {
        assert forall|i: int| 0 <= i < count implies positions_at(bytes, zero + 3, count)[i]
            == entry.positions[i] by {
            assert(bytes[at + (n + 3 + 2 * i)] == record[n + 3 + 2 * i]);
            assert(bytes[at + (n + 3 + 2 * i + 1)] == record[n + 3 + 2 * i + 1]);
            assert(record[n + 3 + 2 * i] == positions_encoding(entry.positions)[2 * i]);
            assert(record[n + 3 + 2 * i + 1] == positions_encoding(entry.positions)[2 * i + 1]);
            assert((2 * i) / 2 == i && (2 * i) % 2 == 0);
            assert((2 * i + 1) / 2 == i && (2 * i + 1) % 2 == 1);
        }
    }
}

/// Records that fill a buffer from `at` to its end are read back as they were
/// written.
pub proof fn lemma_entries_at_encoding(
    bytes: Seq<u8>,
    at: int,
    entries: Seq<EntryView>,
)
    requires
        encodable(entries),
        0 <= at <= bytes.len(),
        bytes.subrange(at, bytes.len() as int) == entries_encoding(entries),
    ensures
        entries_at(bytes, at, entries.len()) == Ok::<
            (Seq<EntryView>, int),
            DecodeError,
        >((entries, bytes.len() as int)),
    decreases entries.len(),
{
    if entries.len() == 0 {
        assert(entries =~= Seq::empty());
        assert(bytes.subrange(at, bytes.len() as int).len() == 0);
    } else {
        let first = entries[0];
        let rest = entries.drop_first();
        let record = entry_encoding(first);
        let tail = bytes.subrange(at, bytes.len() as int);
        assert(tail.len() == record.len() + entries_encoding(rest).len());
        assert(bytes.subrange(at, at + record.len()) =~= record) by {
            assert forall|k: int| 0 <= k < record.len() implies bytes[at + k] == record[k] by {
                assert(tail[k] == bytes[at + k]);
            }
        }
        lemma_entry_at_encoding(bytes, at, first);
        let next = at + record.len();
        assert(bytes.subrange(next, bytes.len() as int) =~= entries_encoding(rest)) by {
            assert forall|k: int| 0 <= k < entries_encoding(rest).len() implies bytes[next + k]
                == entries_encoding(rest)[k] by {
                assert(tail[record.len() + k] == bytes[at + (record.len() + k)]);
            }
        }
        assert(encodable(rest)) by {
            assert forall|i: int| 0 <= i < rest.len() implies entry_encodable(
                #[trigger] rest[i],
            ) by {
                assert(rest[i] == entries[i + 1]);
            }
        }
        lemma_entries_at_encoding(bytes, next, rest);
        assert(seq![first] + rest =~= entries);
    }
}

/// Where no byte at or after `from` is zero, the search for one ends at the
/// end of the buffer.
pub proof fn lemma_terminator_without_zero(bytes: Seq<u8>, from: int)
    requires
        0 <= from <= bytes.len(),
        forall|j: int| from <= j < bytes.len() ==> bytes[j] != 0,
    ensures
        terminator(bytes, from) == bytes.len(),
    decreases bytes.len() - from,
{
    if from < bytes.len() {
        lemma_terminator_without_zero(bytes, from + 1);
    }
}

/// A buffer that ends inside a record is refused as truncated, wherever in
/// the record it ends.
pub proof fn lemma_entry_at_truncated(bytes: Seq<u8>, at: int, entry: EntryView)
    requires
        entry_encodable(entry),
        0 <= at <= bytes.len(),
        bytes.len() - at < entry_encoding(entry).len(),
        bytes.subrange(at, bytes.len() as int) == entry_encoding(entry).take(bytes.len() - at),
    ensures
        entry_at(bytes, at) == Err::<(EntryView, int), DecodeError>(
            DecodeError::Truncated,
        ),
{
    let text = encode_utf8(entry.lexeme);
    let record = entry_encoding(entry);
    lemma_text_without_zero_byte(entry.lexeme);
    let count = entry.positions.len();
    let n = text.len() as int;
    let have = bytes.len() - at;
    let tail = bytes.subrange(at, bytes.len() as int);
    assert(record.len() == n + 3 + 2 * count);
    assert forall|k: int| 0 <= k < have implies bytes[at + k] == record[k] by {
        assert(tail[k] == bytes[at + k]);
        assert(record.take(have)[k] == record[k]);
    }
    if have <= n {
        assert forall|j: int| at <= j < bytes.len() implies bytes[j] != 0 by {
            assert(bytes[at + (j - at)] == record[j - at]);
            assert(record[j - at] == text[j - at]);
            assert(text.contains(text[j - at]));
        }
        lemma_terminator_without_zero(bytes, at);
    } else {
        let zero = at + n;
        assert forall|j: int| at <= j < zero implies bytes[j] != 0 by {
            assert(bytes[at + (j - at)] == record[j - at]);
            assert(record[j - at] == text[j - at]);
            assert(text.contains(text[j - at]));
        }
        assert(bytes[at + n] == record[n]);
        lemma_terminator_is_first_zero(bytes, at, zero);
        assert(bytes.subrange(at, zero) =~= text) by {
            assert forall|k: int| 0 <= k < n implies bytes.subrange(at, zero)[k] == text[k] by {
                assert(bytes[at + k] == record[k]);
            }
        }
        encode_utf8_valid_utf8(entry.lexeme);
        if have >= n + 3 {
            assert(bytes[at + (n + 1)] == record[n + 1]);
            assert(bytes[at + (n + 2)] == record[n + 2]);
            assert(be16_at(bytes, zero + 1) == count);
        }
    }
}

/// A buffer that ends before the last of the records written from `at` on
/// is complete is refused as truncated.
pub proof fn lemma_entries_at_truncated(
    bytes: Seq<u8>,
    at: int,
    entries: Seq<EntryView>,
)
    requires
        encodable(entries),
        0 <= at <= bytes.len(),
        bytes.len() - at < entries_encoding(entries).len(),
        bytes.subrange(at, bytes.len() as int) == entries_encoding(entries).take(bytes.len() - at),
    ensures
        entries_at(bytes, at, entries.len()) == Err::<
            (Seq<EntryView>, int),
            DecodeError,
        >(DecodeError::Truncated),
    decreases entries.len(),
{
    let first = entries[0];
    let rest = entries.drop_first();
    let record = entry_encoding(first);
    let all = entries_encoding(entries);
    let have = bytes.len() - at;
    let tail = bytes.subrange(at, bytes.len() as int);
    assert(all.len() == record.len() + entries_encoding(rest).len());
    assert forall|k: int| 0 <= k < have implies bytes[at + k] == all[k] by {
        assert(tail[k] == bytes[at + k]);
        assert(all.take(have)[k] == all[k]);
    }
    if have < record.len() {
        assert(tail =~= record.take(have)) by {
            assert forall|k: int| 0 <= k < have implies tail[k] == record.take(have)[k] by {
                assert(bytes[at + k] == all[k]);
            }
        }
        lemma_entry_at_truncated(bytes, at, first);
    } else {
        assert(bytes.subrange(at, at + record.len()) =~= record) by {
            assert forall|k: int| 0 <= k < record.len() implies bytes[at + k] == record[k] by {
                assert(bytes[at + k] == all[k]);
            }
        }
        lemma_entry_at_encoding(bytes, at, first);
        let next = at + record.len();
        let left = bytes.len() - next;
        assert(bytes.subrange(next, bytes.len() as int) =~= entries_encoding(rest).take(left)) by {
            assert forall|k: int| 0 <= k < left implies bytes[next + k] == entries_encoding(
                rest,
            )[k] by {
                assert(bytes[at + (record.len() + k)] == all[record.len() + k]);
            }
        }
        assert(encodable(rest)) by {
            assert forall|i: int| 0 <= i < rest.len() implies entry_encodable(
                #[trigger] rest[i],
            ) by {
                assert(rest[i] == entries[i + 1]);
            }
        }
        lemma_entries_at_truncated(bytes, next, rest);
    }
}

/// The UTF-8 form of a text with the character zero has a zero byte.
pub proof fn lemma_zero_char_gives_zero_byte(text: Seq<char>)
    requires
        text.contains('\0'),
    ensures
        encode_utf8(text).contains(0u8),
    decreases text.len(),
{
    let first = encode_scalar(text[0] as u32);
    let rest = encode_utf8(text.drop_first());
    if text[0] == '\0' {
        assert(0u32 & 0x7F == 0) by (bit_vector);
        assert((first + rest)[0] == 0u8);
    } else {
        let i = choose|i: int| 0 <= i < text.len() && text[i] == '\0';
        assert(text.drop_first()[i - 1] == '\0');
        lemma_zero_char_gives_zero_byte(text.drop_first());
        let k = choose|k: int| 0 <= k < rest.len() && rest[k] == 0u8;
        assert((first + rest)[first.len() + k] == 0u8);
    }
}

/// Where the search for a zero byte ends: not before `from`, on a zero byte
/// unless at the end of the buffer, and past no zero byte.
pub proof fn lemma_terminator_bounds(bytes: Seq<u8>, from: int)
    requires
        0 <= from <= bytes.len(),
    ensures
        from <= terminator(bytes, from) <= bytes.len(),
        terminator(bytes, from) < bytes.len() ==> bytes[terminator(bytes, from)] == 0,
        forall|j: int| from <= j < terminator(bytes, from) ==> bytes[j] != 0,
    decreases bytes.len() - from,
{
    if from < bytes.len() && bytes[from] != 0 {
        lemma_terminator_bounds(bytes, from + 1);
    }
}

/// A record that the decoder accepts is the encoding of what it reads from
/// it, and what it reads is a value that the wire format can hold.
pub proof fn lemma_entry_encoding_of_entry_at(bytes: Seq<u8>, at: int)
    requires
        0 <= at <= bytes.len(),
        entry_at(bytes, at) is Ok,
    ensures
        ({
            let (entry, next) = entry_at(bytes, at)->Ok_0;
            &&& at < next <= bytes.len()
            &&& entry_encodable(entry)
            &&& entry_encoding(entry) == bytes.subrange(at, next)
        }),
{
    let (entry, next) = entry_at(bytes, at)->Ok_0;
    let zero = terminator(bytes, at);
    let lexeme = bytes.subrange(at, zero);
    let count = be16_at(bytes, zero + 1);
    lemma_terminator_bounds(bytes, at);
    decode_utf8_encode_utf8(lexeme);
    if entry.lexeme.contains('\0') {
        lemma_zero_char_gives_zero_byte(entry.lexeme);
        let k = choose|k: int| 0 <= k < lexeme.len() && lexeme[k] == 0u8;
        assert(bytes[at + k] == 0);
    }
    let record = entry_encoding(entry);
    assert(record.len() == lexeme.len() + 3 + 2 * count);
    assert forall|k: int| 0 <= k < record.len() implies record[k] == bytes[at + k] by {
        let n = lexeme.len() as int;
        if k < n {
            assert(record[k] == lexeme[k]);
        } else if k >= n + 3 {
            let i = (k - n - 3) / 2;
            assert(record[k] == positions_encoding(entry.positions)[k - n - 3]);
            assert(entry.positions[i] == be16_at(bytes, zero + 3 + 2 * i) as u16);
        }
    }
    assert(record =~= bytes.subrange(at, next));
}

/// Records that the decoder accepts are the encoding of what it reads from
/// them, as many as were asked for, each a value that the wire format can
/// hold.
pub proof fn lemma_entries_encoding_of_entries_at(bytes: Seq<u8>, at: int, count: nat)
    requires
        0 <= at <= bytes.len(),
        entries_at(bytes, at, count) is Ok,
    ensures
        ({
            let (entries, end) = entries_at(bytes, at, count)->Ok_0;
            &&& at <= end <= bytes.len()
            &&& entries.len() == count
            &&& forall|i: int| 0 <= i < entries.len() ==> entry_encodable(#[trigger] entries[i])
            &&& entries_encoding(entries) == bytes.subrange(at, end)
        }),
    decreases count,
{
    let (entries, end) = entries_at(bytes, at, count)->Ok_0;
    if count == 0 {
        assert(entries_encoding(entries) =~= bytes.subrange(at, end));
    } else {
        let (entry, next) = entry_at(bytes, at)->Ok_0;
        lemma_entry_encoding_of_entry_at(bytes, at);
        lemma_entries_encoding_of_entries_at(bytes, next, (count - 1) as nat);
        let (rest, last) = entries_at(bytes, next, (count - 1) as nat)->Ok_0;
        assert(entries == seq![entry] + rest);
        assert(entries.drop_first() =~= rest);
        assert(entries_encoding(entries) =~= bytes.subrange(at, end));
        assert forall|i: int| 0 <= i < entries.len() implies entry_encodable(
            #[trigger] entries[i],
        ) by {
            if i > 0 {
                assert(entries[i] == rest[i - 1]);
            }
        }
    }
}

/// Decoding undoes encoding: every value that the wire format can hold is
/// read back from its encoding exactly, entries and positions in order,
/// empty position lists included.
pub proof fn lemma_decode_encoding(entries: Seq<EntryView>)
    requires
        encodable(entries),
    ensures
        decoded(encoding(entries)) == Ok::<Seq<EntryView>, DecodeError>(entries),
{
    let bytes = encoding(entries);
    let count = entries.len() as u32;
    assert(be32_at(bytes, 0) == be32_at(be32_bytes(count), 0));
    assert(bytes.subrange(4, bytes.len() as int) =~= entries_encoding(entries));
    lemma_entries_at_encoding(bytes, 4, entries);
}

/// Every proper prefix of an encoding is refused as truncated: a buffer cut
/// short, inside the count or inside a record or between two records, never
/// decodes to a value.
pub proof fn lemma_decode_truncated_encoding(entries: Seq<EntryView>, len: int)
    requires
        encodable(entries),
        0 <= len < encoding(entries).len(),
    ensures
        decoded(encoding(entries).take(len)) == Err::<Seq<EntryView>, DecodeError>(
            DecodeError::Truncated,
        ),
{
    let whole = encoding(entries);
    let bytes = whole.take(len);
    if len >= 4 {
        let count = entries.len() as u32;
        assert(be32_at(bytes, 0) == be32_at(be32_bytes(count), 0));
        assert(bytes.subrange(4, len) =~= entries_encoding(entries).take(len - 4));
        lemma_entries_at_truncated(bytes, 4, entries);
    }
}

/// A buffer that holds the count zero and nothing else decodes to the value
/// without entries.
pub proof fn lemma_decode_zero_count(bytes: Seq<u8>)
    requires
        bytes.len() == 4,
        be32_at(bytes, 0) == 0,
    ensures
        decoded(bytes) == Ok::<Seq<EntryView>, DecodeError>(Seq::empty()),
{
}

/// Encoding undoes decoding: a buffer that the decoder accepts is the
/// encoding of the value that it decodes to, byte for byte, and that value
/// is one that the wire format can hold. So the decoder accepts the
/// encodings and nothing else.
pub proof fn lemma_encoding_of_decoded(bytes: Seq<u8>)
    requires
        decoded(bytes) is Ok,
    ensures
        encodable(decoded(bytes)->Ok_0),
        encoding(decoded(bytes)->Ok_0) == bytes,
{
    let entries = decoded(bytes)->Ok_0;
    let count = be32_at(bytes, 0);
    lemma_entries_encoding_of_entries_at(bytes, 4, count as nat);
    lemma_be32_bytes_of_value(bytes.subrange(0, 4));
    assert(be32_at(bytes.subrange(0, 4), 0) == count);
    assert(encoding(entries) =~= bytes);
}

} // verus!
