//! Serialization of an erased payload as JSON text. The exact output, down
//! to every escape, is stated by spec functions over the payload's
//! structural view, and the renderer is proved to produce it; the handle
//! therefore serializes to precisely the structure of the value it erased.

use vstd::prelude::*;

use crate::erased::Erasable;
use crate::erased::ErasedData;
use crate::erased::FieldView;
use crate::erased::JsonScalar;
use crate::erased::ScalarView;

verus! {

/// The hexadecimal digit character for `n`, lower case.
pub open spec fn hex_digit(n: nat) -> char {
    if n == 0 {
        '0'
    } else if n == 1 {
        '1'
    } else if n == 2 {
        '2'
    } else if n == 3 {
        '3'
    } else if n == 4 {
        '4'
    } else if n == 5 {
        '5'
    } else if n == 6 {
        '6'
    } else if n == 7 {
        '7'
    } else if n == 8 {
        '8'
    } else if n == 9 {
        '9'
    } else if n == 10 {
        'a'
    } else if n == 11 {
        'b'
    } else if n == 12 {
        'c'
    } else if n == 13 {
        'd'
    } else if n == 14 {
        'e'
    } else {
        'f'
    }
}

/// The decimal digit character for `n`'s last decimal digit.
pub open spec fn dec_digit(n: nat) -> char {
    hex_digit(n % 10)
}

/// How one character of a JSON string is written: the two-character escapes
/// for the quote, the backslash and the common control characters, a
/// hexadecimal escape for every other control character, the character
/// itself for everything else.
pub open spec fn escaped_char(c: char) -> Seq<char> {
    if c == '"' {
        seq!['\\', '"']
    } else if c == '\\' {
        seq!['\\', '\\']
    } else if c == '\u{08}' {
        seq!['\\', 'b']
    } else if c == '\t' {
        seq!['\\', 't']
    } else if c == '\n' {
        seq!['\\', 'n']
    } else if c == '\u{0C}' {
        seq!['\\', 'f']
    } else if c == '\r' {
        seq!['\\', 'r']
    } else if (c as u32) < 0x20 {
        seq!['\\', 'u', '0', '0', hex_digit((c as u32 / 16) as nat), hex_digit((c as u32 % 16) as nat)]
    } else {
        seq![c]
    }
}

/// The body of a JSON string: every character escaped, in order.
pub open spec fn escaped_seq(s: Seq<char>) -> Seq<char>
    decreases s.len(),
{
    if s.len() == 0 {
        Seq::empty()
    } else {
        escaped_seq(s.drop_last()) + escaped_char(s.last())
    }
}

/// A JSON string: the escaped body between two quotes.
pub open spec fn quoted_seq(s: Seq<char>) -> Seq<char> {
    seq!['"'] + escaped_seq(s) + seq!['"']
}

/// The decimal notation of `n`, most significant digit first.
pub open spec fn decimal_digits(n: nat) -> Seq<char>
    decreases n,
{
    if n < 10 {
        seq![dec_digit(n)]
    } else {
        decimal_digits(n / 10) + seq![dec_digit(n % 10)]
    }
}

/// The JSON text of one scalar payload value.
pub open spec fn scalar_json(v: ScalarView) -> Seq<char> {
    match v {
        ScalarView::Text(s) => quoted_seq(s),
        ScalarView::Unsigned(n) => decimal_digits(n as nat),
        ScalarView::Truth(b) => if b {
            seq!['t', 'r', 'u', 'e']
        } else {
            seq!['f', 'a', 'l', 's', 'e']
        },
    }
}

/// The JSON text of one named field: quoted key, colon, value.
pub open spec fn field_json(f: FieldView) -> Seq<char> {
    quoted_seq(f.key) + seq![':'] + scalar_json(f.value)
}

/// The comma-separated field list of a JSON object, in field order.
pub open spec fn object_body(fields: Seq<FieldView>) -> Seq<char>
    decreases fields.len(),
{
    if fields.len() == 0 {
        Seq::empty()
    } else if fields.len() == 1 {
        field_json(fields[0])
    } else {
        object_body(fields.drop_last()) + seq![','] + field_json(fields.last())
    }
}

/// The JSON text of a whole erased payload: its fields between braces.
pub open spec fn object_json(fields: Seq<FieldView>) -> Seq<char> {
    seq!['{'] + object_body(fields) + seq!['}']
}

/// The hexadecimal digit character for `n`, lower case.
fn hex_digit_char(n: u8) -> (c: char)
    requires
        n < 16,
    ensures
        c == hex_digit(n as nat),
{
    match n {
        0 => '0',
        1 => '1',
        2 => '2',
        3 => '3',
        4 => '4',
        5 => '5',
        6 => '6',
        7 => '7',
        8 => '8',
        9 => '9',
        10 => 'a',
        11 => 'b',
        12 => 'c',
        13 => 'd',
        14 => 'e',
        _ => 'f',
    }
}

/// Append the escaped body of one JSON string.
fn push_escaped(out: &mut Vec<char>, s: &str)
    ensures
        final(out)@ == old(out)@ + escaped_seq(s@),
{
    for c in it: s.chars()
        invariant
            it.seq() == s@,
            out@ == old(out)@ + escaped_seq(s@.take(it.index() as int)),
    {
        let ghost i = it.index() as int;
        if c == '"' {
            out.push('\\');
            out.push('"');
        } else if c == '\\' {
            out.push('\\');
            out.push('\\');
        } else if c == '\u{08}' {
            out.push('\\');
            out.push('b');
        } else if c == '\t' {
            out.push('\\');
            out.push('t');
        } else if c == '\n' {
            out.push('\\');
            out.push('n');
        } else if c == '\u{0C}' {
            out.push('\\');
            out.push('f');
        } else if c == '\r' {
            out.push('\\');
            out.push('r');
        } else if (c as u32) < 0x20 {
            let n = c as u32;
            out.push('\\');
            out.push('u');
            out.push('0');
            out.push('0');
            out.push(hex_digit_char((n / 16) as u8));
            out.push(hex_digit_char((n % 16) as u8));
        } else {
            out.push(c);
        }
        proof {
            let t = s@.take(i + 1);
            assert(t.drop_last() =~= s@.take(i));
            assert(t.last() == s@[i]);
            assert(out@ =~= old(out)@ + escaped_seq(s@.take(i + 1)));
        }
    }
    proof {
        assert(s@.take(s@.len() as int) =~= s@);
    }
}

/// Append one whole JSON string, quotes included.
fn push_quoted(out: &mut Vec<char>, s: &str)
    ensures
        final(out)@ == old(out)@ + quoted_seq(s@),
{
    out.push('"');
    push_escaped(out, s);
    out.push('"');
    proof {
        assert(out@ =~= old(out)@ + quoted_seq(s@));
    }
}

/// Append the decimal notation of `n`.
fn push_decimal(out: &mut Vec<char>, n: u64)
    ensures
        final(out)@ == old(out)@ + decimal_digits(n as nat),
{
    let mut rev: Vec<char> = Vec::new();
    let mut m: u64 = n;
    proof {
        assert(decimal_digits(n as nat) =~= decimal_digits(m as nat) + rev@.reverse());
    }
    loop
        invariant_except_break
            decimal_digits(n as nat) == decimal_digits(m as nat) + rev@.reverse(),
        ensures
            decimal_digits(n as nat) == rev@.reverse(),
        decreases m,
    {
        let d = (m % 10) as u8;
        let next = m / 10;
        proof {
            if m >= 10 {
                assert(decimal_digits(m as nat) == decimal_digits(
                    (m as nat) / 10,
                ) + seq![dec_digit((m as nat) % 10)]);
            } else {
                assert(m % 10 == m);
                assert(decimal_digits(m as nat) == seq![dec_digit((m as nat) % 10)]);
            }
            assert(rev@.push(dec_digit((m as nat) % 10)).reverse() =~= seq![
                dec_digit((m as nat) % 10),
            ] + rev@.reverse());
            assert(decimal_digits((m as nat) / 10) + seq![dec_digit((m as nat) % 10)]
                + rev@.reverse() =~= decimal_digits((m as nat) / 10) + (seq![
                dec_digit((m as nat) % 10),
            ] + rev@.reverse()));
        }
        rev.push(hex_digit_char(d));
        m = next;
        if m == 0 {
            break;
        }
    }
    let ghost base = out@;
    let mut i: usize = rev.len();
    while i > 0
        invariant
            i <= rev@.len(),
            out@ == base + rev@.reverse().take((rev@.len() - i) as int),
        decreases i,
    {
        i = i - 1;
        out.push(rev[i]);
        proof {
            let k = (rev@.len() - i) as int;
            assert(rev@.reverse().take(k).drop_last() =~= rev@.reverse().take(k - 1));
            assert(rev@.reverse()[k - 1] == rev@[i as int]);
            assert(out@ =~= base + rev@.reverse().take(k));
        }
    }
    proof {
        assert(rev@.reverse().take(rev@.len() as int) =~= rev@.reverse());
    }
}

/// Append the JSON text of one scalar value.
fn push_scalar(out: &mut Vec<char>, v: &JsonScalar)
    ensures
        final(out)@ == old(out)@ + scalar_json(v@),
{
    match v {
        JsonScalar::Text(s) => {
            push_quoted(out, s.as_str());
        },
        JsonScalar::Unsigned(n) => {
            push_decimal(out, *n);
        },
        JsonScalar::Truth(b) => {
            if *b {
                out.push('t');
                out.push('r');
                out.push('u');
                out.push('e');
            } else {
                out.push('f');
                out.push('a');
                out.push('l');
                out.push('s');
                out.push('e');
            }
            proof {
                assert(out@ =~= old(out)@ + scalar_json(v@));
            }
        },
    }
}

/// Law: erasure is serialization-transparent. Any handle the erasure
/// boundary produces for a payload serializes to exactly the JSON text of
/// the payload's own direct structure; nothing is added, dropped or
/// reordered on the way through the boundary.
pub proof fn lemma_erasure_serialization_transparent<T: Erasable>(x: T, e: ErasedData)
    requires
        e@ == x.erased_view(),
    ensures
        object_json(e@) == object_json(x.erased_view()),
{
}

/// Turn collected characters into the output string.
/// Relies on String's FromIterator<char> implementation: collecting
/// characters yields the string holding exactly those characters in order.
#[verifier::external_body]
fn string_from_chars(chars: &Vec<char>) -> (r: String)
    ensures
        r@ == chars@,
{
    chars.iter().collect()
}

impl ErasedData {
    /// The JSON text of this erased payload, character by character:
    /// exactly `object_json` of its structural view.
    pub fn to_json_chars(&self) -> (r: Vec<char>)
        ensures
            r@ == object_json(self@),
    {
        let mut out: Vec<char> = Vec::new();
        out.push('{');
        let n = self.fields.len();
        for i in 0..n
            invariant
                n == self.fields@.len(),
                out@ == seq!['{'] + object_body(self@.take(i as int)),
        {
            if i > 0 {
                out.push(',');
            }
            push_quoted(&mut out, self.fields[i].key.as_str());
            out.push(':');
            push_scalar(&mut out, &self.fields[i].value);
            proof {
                let t = self@.take(i + 1);
                assert(self@[i as int] == self.fields@[i as int]@);
                assert(t.last() == self@[i as int]);
                assert(t.drop_last() =~= self@.take(i as int));
                if i == 0 {
                    assert(object_body(t) == field_json(self@[0]));
                } else {
                    assert(object_body(t) == object_body(t.drop_last()) + seq![','] + field_json(
                        t.last(),
                    ));
                }
                assert(out@ =~= seq!['{'] + object_body(self@.take(i + 1)));
            }
        }
        out.push('}');
        proof {
            assert(self@.take(self@.len() as int) =~= self@);
            assert(out@ =~= object_json(self@));
        }
        out
    }

    /// The JSON text of this erased payload as one string.
    pub fn to_json_text(&self) -> (r: String)
        ensures
            r@ == object_json(self@),
    {
        let chars = self.to_json_chars();
        string_from_chars(&chars)
    }
}

} // verus!
