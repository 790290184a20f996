//! The SQL types of text search, the decoded form of a `tsvector` and the
//! decoder for its binary encoding.

use crate::wire::{be16_at, be32_at, read_u16, read_u32};
use std::marker::PhantomData;
use vstd::prelude::*;
use vstd::slice::{slice_subrange, slice_to_vec};
use vstd::utf8::{decode_utf8, valid_utf8};

verus! {

/// The SQL type `tsquery`, a parsed search expression.
#[derive(Clone, Copy)]
pub struct TsQuery;

/// The SQL type `tsvector`, the lexemes of a document with their positions.
#[derive(Clone, Copy)]
pub struct TsVector;

/// `TsVector` under the name that the server writes.
pub type Tsvector = TsVector;

/// The SQL type `regconfig`, a text-search configuration.
pub struct RegConfig;

/// The SQL type of a truth value.
pub struct Bool;

/// The SQL type of a 32-bit integer.
pub struct Integer;

/// The SQL type of a single-precision number.
pub struct Float;

/// The SQL type of text.
pub struct Text;

/// The SQL type of a single character.
pub struct CChar;

/// The SQL type of a value of type `T` that may be null.
pub struct Nullable<T> {
    pub of: PhantomData<T>,
}

/// The SQL type of an array with elements of type `T`.
pub struct Array<T> {
    pub of: PhantomData<T>,
}

/// The SQL types that a document can have: text and nullable text.
pub trait TextOrNullableText {}

impl TextOrNullableText for Text {}

impl TextOrNullableText for Nullable<Text> {}

/// Why a buffer is not the binary encoding of a value.
#[derive(Debug, Clone, Copy, PartialEq, Eq, Structural)]
pub enum DecodeError {
    /// The buffer ends before the value is complete.
    Truncated,
    /// A lexeme is not valid UTF-8.
    InvalidUtf8,
    /// Bytes follow the end of the value.
    TrailingBytes,
}

/// One lexeme of a `tsvector` with the word positions at which it occurs.
#[derive(Debug, Clone, PartialEq)]
pub struct PgTsVectorEntry {
    pub lexeme: String,
    pub positions: Vec<u16>,
}

/// A decoded `tsvector`: its entries in the order in which the server sent
/// them.
#[derive(Debug, Clone, PartialEq)]
pub struct PgTsVector {
    pub entries: Vec<PgTsVectorEntry>,
}

/// What an entry holds: the characters of the lexeme and the positions.
pub struct EntryView {
    pub lexeme: Seq<char>,
    pub positions: Seq<u16>,
}

impl View for PgTsVectorEntry {
    type V = EntryView;

    open spec fn view(&self) -> EntryView {
        EntryView { lexeme: self.lexeme@, positions: self.positions@ }
    }
}

/// What each of `entries` holds, in order.
pub open spec fn entry_views(entries: Seq<PgTsVectorEntry>) -> Seq<EntryView> {
    Seq::new(entries.len(), |i: int| entries[i]@)
}

impl View for PgTsVector {
    type V = Seq<EntryView>;

    open spec fn view(&self) -> Seq<EntryView> {
        entry_views(self.entries@)
    }
}

/// The index of the first zero byte of `bytes` at or after `from`, or the
/// length of `bytes` where there is none.
pub open spec fn terminator(bytes: Seq<u8>, from: int) -> int
    decreases bytes.len() - from,
{
    if from >= bytes.len() {
        bytes.len() as int
    } else if bytes[from] == 0 {
        from
    } else {
        terminator(bytes, from + 1)
    }
}

/// The `count` big-endian 16-bit numbers that start at `at`.
pub open spec fn positions_at(bytes: Seq<u8>, at: int, count: nat) -> Seq<u16> {
    Seq::new(count, |i: int| be16_at(bytes, at + 2 * i) as u16)
}

/// The record that starts at `at`, with the index of the byte after it: a
/// zero-terminated UTF-8 lexeme, a 16-bit count, and that many 16-bit word
/// positions.
pub open spec fn entry_at(bytes: Seq<u8>, at: int) -> Result<
    (EntryView, int),
    DecodeError,
> {
    let zero = terminator(bytes, at);
    let lexeme = bytes.subrange(at, zero);
    if zero >= bytes.len() {
        Err(DecodeError::Truncated)
    } else if !valid_utf8(lexeme) {
        Err(DecodeError::InvalidUtf8)
    } else if zero + 3 > bytes.len() {
        Err(DecodeError::Truncated)
    } else {
        let count = be16_at(bytes, zero + 1);
        if zero + 3 + 2 * count > bytes.len() {
            Err(DecodeError::Truncated)
        } else {
            Ok(
                (
                    EntryView {
                        lexeme: decode_utf8(lexeme),
                        positions: positions_at(bytes, zero + 3, count as nat),
                    },
                    zero + 3 + 2 * count,
                ),
            )
        }
    }
}

/// The `count` records that start at `at`, with the index of the byte after
/// the last, or the error of the first record that is malformed.
pub open spec fn entries_at(bytes: Seq<u8>, at: int, count: nat) -> Result<
    (Seq<EntryView>, int),
    DecodeError,
>
    decreases count,
{
    if count == 0 {
        Ok((Seq::empty(), at))
    } else {
        match entry_at(bytes, at) {
            Err(e) => Err(e),
            Ok((entry, next)) => match entries_at(bytes, next, (count - 1) as nat) {
                Err(e) => Err(e),
                Ok((rest, end)) => Ok((seq![entry] + rest, end)),
            },
        }
    }
}

/// What a buffer decodes to: a 32-bit count, then that many records, then
/// nothing.
pub open spec fn decoded(bytes: Seq<u8>) -> Result<Seq<EntryView>, DecodeError> {
    if bytes.len() < 4 {
        Err(DecodeError::Truncated)
    } else {
        match entries_at(bytes, 4, be32_at(bytes, 0) as nat) {
            Err(e) => Err(e),
            Ok((entries, end)) => if end == bytes.len() {
                Ok(entries)
            } else {
                Err(DecodeError::TrailingBytes)
            },
        }
    }
}

/// Calls `String::from_utf8`, which gives the string that the bytes encode,
/// or an error where they are not UTF-8. Trusted: the contract restates that,
/// it is not proved.
#[verifier::external_body]
fn string_from_utf8(bytes: Vec<u8>) -> (text: Option<String>)
    ensures
        text is Some <==> valid_utf8(bytes@),
        text matches Some(s) ==> s@ == decode_utf8(bytes@),
{
    String::from_utf8(bytes).ok()
}

/// Finds the first zero byte at or after `from`.
fn find_terminator(bytes: &[u8], from: usize) -> (zero: usize)
    requires
        from <= bytes@.len(),
    ensures
        zero == terminator(bytes@, from as int),
        from <= zero <= bytes@.len(),
{
    let mut zero: usize = from;
    while zero < bytes.len() && bytes[zero] != 0
        invariant
            from <= zero <= bytes@.len(),
            terminator(bytes@, from as int) == terminator(bytes@, zero as int),
        decreases bytes@.len() - zero,
    {
        zero += 1;
    }
    zero
}

/// Reads the word positions that fill `field`, two bytes each.
fn read_positions(field: &[u8]) -> (positions: Vec<u16>)
    requires
        field@.len() % 2 == 0,
    ensures
        positions@ == positions_at(field@, 0, field@.len() / 2),
{
    let mut positions: Vec<u16> = Vec::new();
    let mut pos: usize = 0;
    while pos < field.len()
        invariant
            pos <= field@.len(),
            pos % 2 == 0,
            field@.len() % 2 == 0,
            positions@ == positions_at(field@, 0, (pos / 2) as nat),
        decreases field@.len() - pos,
    {
        let position = read_u16(slice_subrange(field, pos, pos + 2));
        positions.push(position);
        pos += 2;
        assert(positions@ =~= positions_at(field@, 0, (pos / 2) as nat));
    }
    positions
}

/// Reads the record that starts at `at`.
fn read_entry(bytes: &[u8], at: usize) -> (r: Result<(PgTsVectorEntry, usize), DecodeError>)
    requires
        at <= bytes@.len(),
    ensures
        match entry_at(bytes@, at as int) {
            Ok((entry, next)) => r matches Ok((e, n)) && e@ == entry && n == next && at < n
                <= bytes@.len(),
            Err(e) => r == Err::<(PgTsVectorEntry, usize), DecodeError>(e),
        },
{
    let zero = find_terminator(bytes, at);
    if zero >= bytes.len() {
        return Err(DecodeError::Truncated);
    }
    let lexeme = match string_from_utf8(slice_to_vec(slice_subrange(bytes, at, zero))) {
        Some(lexeme) => lexeme,
        None => {
            return Err(DecodeError::InvalidUtf8);
        },
    };
    if bytes.len() - zero < 3 {
        return Err(DecodeError::Truncated);
    }
    let count = read_u16(slice_subrange(bytes, zero + 1, zero + 3));
    let need: usize = 2 * (count as usize);
    if bytes.len() - zero - 3 < need {
        return Err(DecodeError::Truncated);
    }
    let next: usize = zero + 3 + need;
    let positions = read_positions(slice_subrange(bytes, zero + 3, next));
    assert(positions@ =~= positions_at(bytes@, zero + 3, count as nat));
    Ok((PgTsVectorEntry { lexeme, positions }, next))
}

impl PgTsVector {
    /// Decodes the binary form of a `tsvector`. Every malformed buffer is
    /// refused: one that ends early, one with a lexeme that is not UTF-8, one
    /// with bytes after the last record.
    pub fn from_sql(bytes: &[u8]) -> (r: Result<PgTsVector, DecodeError>)
        ensures
            match decoded(bytes@) {
                Ok(entries) => r matches Ok(v) && v@ == entries,
                Err(e) => r == Err::<PgTsVector, DecodeError>(e),
            },
    {
        if bytes.len() < 4 {
            return Err(DecodeError::Truncated);
        }
        let count = read_u32(slice_subrange(bytes, 0, 4));
        let mut entries: Vec<PgTsVectorEntry> = Vec::new();
        let mut at: usize = 4;
        let mut i: u32 = 0;
        let ghost whole = entries_at(bytes@, 4, count as nat);
        while i < count
            invariant
                i <= count,
                4 <= at <= bytes@.len(),
                count == be32_at(bytes@, 0),
                whole == entries_at(bytes@, 4, count as nat),
                match entries_at(bytes@, at as int, (count - i) as nat) {
                    Ok((rest, end)) => whole == Ok::<
                        (Seq<EntryView>, int),
                        DecodeError,
                    >((entry_views(entries@) + rest, end)),
                    Err(e) => whole == Err::<(Seq<EntryView>, int), DecodeError>(e),
                },
            decreases count - i,
        {
            let ghost before = entry_views(entries@);
            match read_entry(bytes, at) {
                Err(e) => {
                    return Err(e);
                },
                Ok((entry, next)) => {
                    entries.push(entry);
                    at = next;
                    i += 1;
                    proof {
                        let after = entry_views(entries@);
                        assert(after =~= before + seq![entry@]);
                        match entries_at(bytes@, at as int, (count - i) as nat) {
                            Ok((rest, end)) => {
                                assert(after + rest =~= before + (seq![entry@] + rest));
                            },
                            Err(e) => {},
                        }
                    }
                },
            }
        }
        if at != bytes.len() {
            return Err(DecodeError::TrailingBytes);
        }
        Ok(PgTsVector { entries })
    }
}

} // verus!
