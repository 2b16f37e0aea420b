use vstd::prelude::*;

use crate::models::Book;
use crate::models::BookView;
use crate::models::Status;
use crate::models::views_of;

verus! {

/// The lower-case hexadecimal digit for a value below sixteen.
pub open spec fn hex_digit(n: int) -> char {
    if n == 0 {
        '0'
    } else if n == 1 {
        '1'
    } else if n == 2 {
        '2'
    } else if n == 3 {
        '3'
    } else if n == 4 {
        '4'
    } else if n == 5 {
        '5'
    } else if n == 6 {
        '6'
    } else if n == 7 {
        '7'
    } else if n == 8 {
        '8'
    } else if n == 9 {
        '9'
    } else if n == 10 {
        'a'
    } else if n == 11 {
        'b'
    } else if n == 12 {
        'c'
    } else if n == 13 {
        'd'
    } else if n == 14 {
        'e'
    } else {
        'f'
    }
}

/// JSON escape of one character: quote, backslash and control
/// characters are escaped; every other character stands for itself.
pub open spec fn spec_escape_char(c: char) -> Seq<char> {
    if c == '"' {
        seq!['\\', '"']
    } else if c == '\\' {
        seq!['\\', '\\']
    } else if c == '\n' {
        seq!['\\', 'n']
    } else if c == '\r' {
        seq!['\\', 'r']
    } else if c == '\t' {
        seq!['\\', 't']
    } else if (c as u32) < 32 {
        seq!['\\', 'u', '0', '0', hex_digit((c as u32) as int / 16), hex_digit((c as u32) as int % 16)]
    } else {
        seq![c]
    }
}

/// JSON escape of a text, character by character.
pub open spec fn spec_escape(s: Seq<char>) -> Seq<char>
    decreases s.len(),
{
    if s.len() == 0 {
        Seq::<char>::empty()
    } else {
        spec_escape(s.drop_last()) + spec_escape_char(s.last())
    }
}

/// A JSON string literal: the escaped text in double quotes.
pub open spec fn spec_json_str(s: Seq<char>) -> Seq<char> {
    "\""@ + spec_escape(s) + "\""@
}

/// Decimal digits of a natural number, most significant first.
pub open spec fn spec_dec_of_nat(n: nat) -> Seq<char>
    decreases n,
{
    if n < 10 {
        seq![hex_digit(n as int)]
    } else {
        spec_dec_of_nat(n / 10) + seq![hex_digit((n % 10) as int)]
    }
}

/// Decimal form of an integer, with a leading minus when negative.
pub open spec fn spec_dec_of_int(i: int) -> Seq<char> {
    if i < 0 {
        seq!['-'] + spec_dec_of_nat((-i) as nat)
    } else {
        spec_dec_of_nat(i as nat)
    }
}

/// The JSON object for one record, fields in declaration order.
pub open spec fn spec_json_of_book(b: BookView) -> Seq<char> {
    "{\"id\":"@ + spec_dec_of_int(b.id) + ",\"title\":"@ + spec_json_str(b.title) + ",\"isbn\":"@
        + spec_json_str(b.isbn) + ",\"author\":"@ + spec_json_str(b.author) + ",\"category\":"@
        + spec_json_str(b.category) + "}"@
}

/// Comma-separated JSON objects of a record sequence.
pub open spec fn spec_json_items(bs: Seq<BookView>) -> Seq<char>
    decreases bs.len(),
{
    if bs.len() == 0 {
        Seq::<char>::empty()
    } else if bs.len() == 1 {
        spec_json_of_book(bs[0])
    } else {
        spec_json_items(bs.drop_last()) + ","@ + spec_json_of_book(bs.last())
    }
}

/// The JSON array of a record sequence.
pub open spec fn spec_json_of_books(bs: Seq<BookView>) -> Seq<char> {
    "["@ + spec_json_items(bs) + "]"@
}

/// The JSON object for the liveness probe body.
pub open spec fn spec_json_of_status(s: Seq<char>) -> Seq<char> {
    "{\"status\":"@ + spec_json_str(s) + "}"@
}

/// Relies on String::push, which appends the given character to the
/// end of the string.
#[verifier::external_body]
fn push_char(out: &mut String, c: char)
    ensures
        final(out)@ == old(out)@.push(c),
{
    out.push(c);
}

/// The lower-case hexadecimal digit character of `n`.
fn hex_digit_char(n: u32) -> (c: char)
    requires
        n < 16,
    ensures
        c == hex_digit(n as int),
{
    if n == 0 {
        '0'
    } else if n == 1 {
        '1'
    } else if n == 2 {
        '2'
    } else if n == 3 {
        '3'
    } else if n == 4 {
        '4'
    } else if n == 5 {
        '5'
    } else if n == 6 {
        '6'
    } else if n == 7 {
        '7'
    } else if n == 8 {
        '8'
    } else if n == 9 {
        '9'
    } else if n == 10 {
        'a'
    } else if n == 11 {
        'b'
    } else if n == 12 {
        'c'
    } else if n == 13 {
        'd'
    } else if n == 14 {
        'e'
    } else {
        'f'
    }
}

/// Appends the JSON escape of `s` to `out`.
fn push_escaped(out: &mut String, s: &str)
    ensures
        final(out)@ == old(out)@ + spec_escape(s@),
{
    let n = s.unicode_len();
    let mut i: usize = 0;
    while i < n
        invariant
            i <= n,
            n == s@.len(),
            out@ == old(out)@ + spec_escape(s@.subrange(0, i as int)),
        decreases n - i,
    {
        let c = s.get_char(i);
        if c == '"' {
            push_char(out, '\\');
            push_char(out, '"');
        } else if c == '\\' {
            push_char(out, '\\');
            push_char(out, '\\');
        } else if c == '\n' {
            push_char(out, '\\');
            push_char(out, 'n');
        } else if c == '\r' {
            push_char(out, '\\');
            push_char(out, 'r');
        } else if c == '\t' {
            push_char(out, '\\');
            push_char(out, 't');
        } else if (c as u32) < 32 {
            push_char(out, '\\');
            push_char(out, 'u');
            push_char(out, '0');
            push_char(out, '0');
            push_char(out, hex_digit_char((c as u32) / 16));
            push_char(out, hex_digit_char((c as u32) % 16));
        } else {
            push_char(out, c);
        }
        proof {
            assert(s@.subrange(0, i as int + 1).drop_last() =~= s@.subrange(0, i as int));
            assert(s@.subrange(0, i as int + 1).last() == s@[i as int]);
            assert(out@ =~= old(out)@ + spec_escape(s@.subrange(0, i as int + 1)));
        }
        i = i + 1;
    }
    proof {
        assert(s@.subrange(0, n as int) =~= s@);
    }
}

/// Appends `s` as a JSON string literal to `out`.
fn push_json_str(out: &mut String, s: &str)
    ensures
        final(out)@ == old(out)@ + spec_json_str(s@),
{
    out.append("\"");
    push_escaped(out, s);
    out.append("\"");
}

/// Appends the decimal digits of `n` to `out`.
fn push_dec(out: &mut String, n: u32)
    ensures
        final(out)@ == old(out)@ + spec_dec_of_nat(n as nat),
    decreases n,
{
    if n < 10 {
        push_char(out, hex_digit_char(n));
        proof {
            assert(out@ =~= old(out)@ + spec_dec_of_nat(n as nat));
        }
    } else {
        proof {
            assert(n / 10 < n) by (nonlinear_arith)
                requires
                    10 <= n,
            ;
        }
        push_dec(out, n / 10);
        push_char(out, hex_digit_char(n % 10));
        proof {
            assert(out@ =~= old(out)@ + spec_dec_of_nat(n as nat));
        }
    }
}

/// Appends the decimal form of `i` to `out`.
fn push_dec_i32(out: &mut String, i: i32)
    ensures
        final(out)@ == old(out)@ + spec_dec_of_int(i as int),
{
    if i < 0 {
        out.append("-");
        let m: u32 = (-(i as i64)) as u32;
        assert(m as int == -(i as int));
        push_dec(out, m);
        proof {
            assert("-"@ =~= seq!['-']) by {
                reveal_strlit("-");
            }
            assert(out@ =~= old(out)@ + spec_dec_of_int(i as int));
        }
    } else {
        push_dec(out, i as u32);
    }
}

/// Serializes one record as its JSON object.
pub fn json_of_book(b: &Book) -> (r: String)
    ensures
        r@ == spec_json_of_book(b@),
{
    let mut out = String::from_str("{\"id\":");
    push_dec_i32(&mut out, b.id);
    out.append(",\"title\":");
    push_json_str(&mut out, b.title.as_str());
    out.append(",\"isbn\":");
    push_json_str(&mut out, b.isbn.as_str());
    out.append(",\"author\":");
    push_json_str(&mut out, b.author.as_str());
    out.append(",\"category\":");
    push_json_str(&mut out, b.category.as_str());
    out.append("}");
    out
}

/// Serializes a record list as a JSON array, in the given order.
pub fn json_of_books(bs: &Vec<Book>) -> (r: String)
    ensures
        r@ == spec_json_of_books(views_of(bs@)),
{
    let mut out = String::from_str("[");
    let n = bs.len();
    let mut i: usize = 0;
    while i < n
        invariant
            i <= n,
            n == bs@.len(),
            out@ == "["@ + spec_json_items(views_of(bs@).subrange(0, i as int)),
        decreases n - i,
    {
        if i > 0 {
            out.append(",");
        }
        let piece = json_of_book(&bs[i]);
        out.append(piece.as_str());
        proof {
            let vs = views_of(bs@);
            assert(vs[i as int] == bs@[i as int]@);
            assert(vs.subrange(0, i as int + 1).drop_last() =~= vs.subrange(0, i as int));
            assert(vs.subrange(0, i as int + 1).last() == vs[i as int]);
            assert(out@ =~= "["@ + spec_json_items(vs.subrange(0, i as int + 1)));
        }
        i = i + 1;
    }
    proof {
        assert(views_of(bs@).subrange(0, n as int) =~= views_of(bs@));
    }
    out.append("]");
    out
}

/// Serializes the liveness probe body.
pub fn json_of_status(s: &Status) -> (r: String)
    ensures
        r@ == spec_json_of_status(s@),
{
    let mut out = String::from_str("{\"status\":");
    push_json_str(&mut out, s.status.as_str());
    out.append("}");
    out
}

} // verus!
