//! Text-search configurations: by object identifier, as a value that crosses
//! the wire, and by name, as a literal in the SQL text.

use crate::types::DecodeError;
use crate::wire::{be32_at, be32_bytes, read_u32, write_u32};
use vstd::prelude::*;

verus! {

/// A text-search configuration, by the object identifier that the server
/// gave it.
#[derive(Debug, PartialEq, Eq, Structural)]
pub struct TsConfiguration(pub u32);

/// The identifiers of the configurations that the server comes with.
impl TsConfiguration {
    pub const SIMPLE: u32 = 3748;

    pub const DANISH: u32 = 12824;

    pub const DUTCH: u32 = 12826;

    pub const ENGLISH: u32 = 12828;

    pub const FINNISH: u32 = 12830;

    pub const FRENCH: u32 = 12832;

    pub const GERMAN: u32 = 12834;

    pub const HUNGARIAN: u32 = 12836;

    pub const ITALIAN: u32 = 12838;

    pub const NORWEGIAN: u32 = 12840;

    pub const PORTUGUESE: u32 = 12842;

    pub const ROMANIAN: u32 = 12844;

    pub const RUSSIAN: u32 = 12846;

    pub const SPANISH: u32 = 12848;

    pub const SWEDISH: u32 = 12850;

    pub const TURKISH: u32 = 12852;
}

impl TsConfiguration {
    /// Reads a configuration from its binary form, four bytes in network
    /// byte order. Any four bytes are accepted: whether the server knows the
    /// identifier is not looked at.
    pub fn from_sql(bytes: &[u8]) -> (r: Result<TsConfiguration, DecodeError>)
        ensures
            bytes@.len() < 4 ==> r == Err::<TsConfiguration, DecodeError>(DecodeError::Truncated),
            bytes@.len() > 4 ==> r == Err::<TsConfiguration, DecodeError>(
                DecodeError::TrailingBytes,
            ),
            bytes@.len() == 4 ==> r == Ok::<TsConfiguration, DecodeError>(
                TsConfiguration(be32_at(bytes@, 0) as u32),
            ),
    {
        if bytes.len() < 4 {
            Err(DecodeError::Truncated)
        } else if bytes.len() > 4 {
            Err(DecodeError::TrailingBytes)
        } else {
            Ok(TsConfiguration(read_u32(bytes)))
        }
    }

    /// The binary form of the configuration: its identifier as four bytes in
    /// network byte order.
    pub fn to_sql(&self) -> (bytes: [u8; 4])
        ensures
            bytes@ == be32_bytes(self.0),
    {
        write_u32(self.0)
    }
}

/// A text-search configuration by name. It never crosses the wire as a
/// value: the name is written into the SQL text as a quoted literal.
#[derive(Debug, Clone, Copy, PartialEq, Eq)]
pub struct TsConfigurationByName(pub &'static str);

/// `text` with each single quote doubled.
pub open spec fn escaped(text: Seq<char>) -> Seq<char>
    decreases text.len(),
{
    if text.len() == 0 {
        Seq::empty()
    } else if text[0] == '\'' {
        seq!['\'', '\''] + escaped(text.drop_first())
    } else {
        seq![text[0]] + escaped(text.drop_first())
    }
}

/// The SQL literal for `text`: between single quotes, with each single quote
/// of `text` doubled.
pub open spec fn sql_literal(text: Seq<char>) -> Seq<char> {
    seq!['\''] + escaped(text) + seq!['\'']
}

/// What the inside of a quoted SQL literal stands for: two single quotes are
/// one, and a single quote alone has no place there.
pub open spec fn unescaped(body: Seq<char>) -> Option<Seq<char>>
    decreases body.len(),
{
    if body.len() == 0 {
        Some(Seq::empty())
    } else if body[0] != '\'' {
        match unescaped(body.drop_first()) {
            Some(rest) => Some(seq![body[0]] + rest),
            None => None,
        }
    } else if body.len() >= 2 && body[1] == '\'' {
        match unescaped(body.skip(2)) {
            Some(rest) => Some(seq!['\''] + rest),
            None => None,
        }
    } else {
        None
    }
}

/// The text that an SQL string literal stands for, where `sql` is one.
pub open spec fn literal_text(sql: Seq<char>) -> Option<Seq<char>> {
    if sql.len() >= 2 && sql[0] == '\'' && sql.last() == '\'' {
        unescaped(sql.subrange(1, sql.len() - 1))
    } else {
        None
    }
}

/// Doubling the quotes of a text and reading the result as the inside of a
/// literal gives the text back.
pub proof fn lemma_unescaped_escaped(text: Seq<char>)
    ensures
        unescaped(escaped(text)) == Some(text),
    decreases text.len(),
{
    if text.len() > 0 {
        let rest = text.drop_first();
        lemma_unescaped_escaped(rest);
        let body = escaped(text);
        if text[0] == '\'' {
            assert(body.skip(2) =~= escaped(rest));
        } else {
            assert(body.drop_first() =~= escaped(rest));
        }
        assert(seq![text[0]] + rest =~= text);
    } else {
        assert(text =~= Seq::empty());
    }
}

/// The literal written for a name is read by SQL as exactly that name,
/// whatever quotes the name holds.
pub proof fn lemma_literal_round_trip(text: Seq<char>)
    ensures
        literal_text(sql_literal(text)) == Some(text),
{
    let sql = sql_literal(text);
    assert(sql.subrange(1, sql.len() - 1) =~= escaped(text));
    lemma_unescaped_escaped(text);
}

/// Calls `String::push`, which appends one character to the string.
/// Trusted: the contract restates that, it is not proved.
#[verifier::external_body]
fn push_char(text: &mut String, c: char)
    ensures
        final(text)@ == old(text)@.push(c),
{
    text.push(c)
}

impl TsConfigurationByName {
    /// Appends the configuration to the SQL text `out`, as a quoted literal
    /// with each single quote of the name doubled.
    pub fn walk_ast(&self, out: &mut String)
        ensures
            final(out)@ == old(out)@ + sql_literal(self.0@),
    {
        let name = self.0;
        push_char(out, '\'');
        assert(name@.skip(0) =~= name@);
        assert(out@ =~= old(out)@ + seq!['\'']);
        for c in it: name.chars()
            invariant
                it.seq() == name@,
                out@ + escaped(name@.skip(it.index() as int)) == old(out)@ + seq!['\''] + escaped(
                    name@,
                ),
        {
            let ghost before = out@;
            let ghost left = name@.skip(it.index() as int);
            assert(left.drop_first() =~= name@.skip(it.index() + 1));
            if c == '\'' {
                push_char(out, '\'');
                push_char(out, '\'');
                assert(out@ + escaped(left.drop_first()) =~= before + escaped(left));
            } else {
                push_char(out, c);
                assert(out@ + escaped(left.drop_first()) =~= before + escaped(left));
            }
        }
        assert(escaped(name@.skip(name@.len() as int)) =~= Seq::empty());
        push_char(out, '\'');
        assert(out@ =~= old(out)@ + sql_literal(name@));
    }
}

} // verus!
