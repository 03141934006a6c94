//! The query string of a request: `name=value` pairs joined by `&`, each
//! name and value in the `application/x-www-form-urlencoded` encoding.
//!
//! A byte of the UTF-8 form of a text stays as it is when it is an ASCII
//! letter, a digit or one of `*`, `-`, `.`, `_`; a space becomes `+`; every
//! other byte becomes `%` and its two upper-case hexadecimal digits.

pub mod round_trip;

use vstd::prelude::*;
use vstd::utf8::decode_utf8;
use vstd::utf8::encode_utf8;

verus! {

/// `String::push` appends one character to the end of the string.
pub assume_specification[ String::push ](s: &mut String, c: char)
    ensures
        final(s)@ == old(s)@.push(c),
;

/// Whether the encoding leaves a byte as it is.
pub open spec fn is_unreserved(b: u8) -> bool {
    ||| b == 0x2A
    ||| b == 0x2D
    ||| b == 0x2E
    ||| 0x30 <= b <= 0x39
    ||| 0x41 <= b <= 0x5A
    ||| b == 0x5F
    ||| 0x61 <= b <= 0x7A
}

/// The upper-case hexadecimal digit of a number below sixteen.
pub open spec fn hex_digit(n: u8) -> char {
    if n < 10 {
        (0x30 + n) as char
    } else {
        (0x37 + n) as char
    }
}

/// The encoding of one byte.
pub open spec fn encode_byte(b: u8) -> Seq<char> {
    if is_unreserved(b) {
        seq![b as char]
    } else if b == 0x20 {
        seq!['+']
    } else {
        seq!['%', hex_digit(b / 16), hex_digit(b % 16)]
    }
}

/// The encoding of a sequence of bytes: the encodings of its bytes, in order.
pub open spec fn encode_bytes(bytes: Seq<u8>) -> Seq<char>
    decreases bytes.len(),
{
    if bytes.len() == 0 {
        Seq::empty()
    } else {
        encode_bytes(bytes.drop_last()) + encode_byte(bytes.last())
    }
}

/// The encoding of a text: that of its UTF-8 bytes.
pub open spec fn encode_text(text: Seq<char>) -> Seq<char> {
    encode_bytes(encode_utf8(text))
}

/// One pair of a query string: the encoded name, `=`, the encoded value.
pub open spec fn encode_pair(pair: (Seq<char>, Seq<char>)) -> Seq<char> {
    encode_text(pair.0).push('=') + encode_text(pair.1)
}

/// The query string of a sequence of pairs: the encoded pairs in order, with
/// `&` between two of them. No pair gives the empty string.
pub open spec fn query_string(pairs: Seq<(Seq<char>, Seq<char>)>) -> Seq<char>
    decreases pairs.len(),
{
    if pairs.len() == 0 {
        Seq::empty()
    } else if pairs.len() == 1 {
        encode_pair(pairs.last())
    } else {
        query_string(pairs.drop_last()).push('&') + encode_pair(pairs.last())
    }
}

/// The decimal digit of a number below ten.
pub open spec fn decimal_digit(d: nat) -> char {
    (0x30 + d) as char
}

/// The decimal form of a number: its digits from the most significant one,
/// with no leading zero.
pub open spec fn decimal(n: nat) -> Seq<char>
    decreases n,
{
    if n < 10 {
        seq![decimal_digit(n)]
    } else {
        decimal(n / 10).push(decimal_digit(n % 10))
    }
}

/// Whether a character is an upper- or lower-case hexadecimal digit.
pub open spec fn is_hex_digit(c: char) -> bool {
    ||| '0' <= c <= '9'
    ||| 'A' <= c <= 'F'
    ||| 'a' <= c <= 'f'
}

/// The number that a hexadecimal digit stands for.
pub open spec fn hex_value(c: char) -> int {
    if '0' <= c <= '9' {
        c as int - 0x30
    } else if 'A' <= c <= 'F' {
        c as int - 0x37
    } else {
        c as int - 0x57
    }
}

/// The bytes that an encoded text stands for: `%` and two hexadecimal
/// digits give the byte of that number, `+` gives a space, and every other
/// character gives its own UTF-8 bytes.
pub open spec fn decode_chars(text: Seq<char>) -> Seq<u8>
    decreases text.len(),
{
    if text.len() == 0 {
        Seq::empty()
    } else if text[0] == '%' && text.len() >= 3 && is_hex_digit(text[1]) && is_hex_digit(text[2]) {
        seq![(hex_value(text[1]) * 16 + hex_value(text[2])) as u8] + decode_chars(text.skip(3))
    } else if text[0] == '+' {
        seq![0x20u8] + decode_chars(text.skip(1))
    } else {
        encode_utf8(seq![text[0]]) + decode_chars(text.skip(1))
    }
}

/// The text that an encoded text stands for.
pub open spec fn decode_text(text: Seq<char>) -> Seq<char> {
    decode_utf8(decode_chars(text))
}

/// The place of the first `c` in a text, or the length of the text where it
/// holds none.
pub open spec fn index_of(text: Seq<char>, c: char) -> int
    decreases text.len(),
{
    if text.len() == 0 || text[0] == c {
        0
    } else {
        1 + index_of(text.skip(1), c)
    }
}

/// The pair that one part of a query string stands for: the name is what
/// stands before the first `=`, the value what stands after it.
pub open spec fn parse_pair(part: Seq<char>) -> (Seq<char>, Seq<char>) {
    let at = index_of(part, '=');
    if at < part.len() {
        (decode_text(part.take(at)), decode_text(part.skip(at + 1)))
    } else {
        (decode_text(part), Seq::empty())
    }
}

/// The pairs that a query string stands for: its parts between the `&`,
/// without the empty ones, each read as a pair.
pub open spec fn parse_query(text: Seq<char>) -> Seq<(Seq<char>, Seq<char>)>
    decreases text.len(),
{
    if text.len() == 0 {
        Seq::empty()
    } else {
        let at = index_of(text, '&');
        if at <= 0 {
            parse_query(text.skip(1))
        } else if at >= text.len() {
            seq![parse_pair(text)]
        } else {
            seq![parse_pair(text.take(at))] + parse_query(text.skip(at + 1))
        }
    }
}

/// Whether a text is made of decimal digits.
pub open spec fn is_digits(text: Seq<char>) -> bool {
    forall|i: int| 0 <= i < text.len() ==> '0' <= #[trigger] text[i] <= '9'
}

/// The number that a text of decimal digits stands for.
pub open spec fn decimal_value(text: Seq<char>) -> nat
    decreases text.len(),
{
    if text.len() == 0 {
        0
    } else {
        (decimal_value(text.drop_last()) * 10 + (text.last() as int - 0x30)) as nat
    }
}

/// Whether the encoding can write a character: the characters that it
/// leaves as they are, `+` and `%`. Neither `&` nor `=` is among them.
pub open spec fn is_written(c: char) -> bool {
    ||| c == '*'
    ||| c == '-'
    ||| c == '.'
    ||| '0' <= c <= '9'
    ||| 'A' <= c <= 'Z'
    ||| c == '_'
    ||| 'a' <= c <= 'z'
    ||| c == '+'
    ||| c == '%'
}

/// Whether the encoding leaves every character of a text as it is.
pub open spec fn is_plain(text: Seq<char>) -> bool {
    forall|i: int|
        0 <= i < text.len() ==> {
            let c = #[trigger] text[i];
            c == '*' || c == '-' || c == '.' || '0' <= c <= '9' || 'A' <= c <= 'Z' || c == '_'
                || 'a' <= c <= 'z'
        }
}

/// The upper-case hexadecimal digit of a number below sixteen.
fn hex_digit_of(n: u8) -> (c: char)
    requires
        n < 16,
    ensures
        c == hex_digit(n),
{
    if n < 10 {
        (0x30 + n) as char
    } else {
        (0x37 + n) as char
    }
}

/// Appends the encoding of one byte.
fn push_encoded_byte(out: &mut String, b: u8)
    ensures
        final(out)@ == old(out)@ + encode_byte(b),
{
    let unreserved = b == 0x2A || b == 0x2D || b == 0x2E || (0x30 <= b && b <= 0x39) || (0x41 <= b
        && b <= 0x5A) || b == 0x5F || (0x61 <= b && b <= 0x7A);
    if unreserved {
        out.push(b as char);
        assert(out@ == old(out)@ + seq![b as char]);
    } else if b == 0x20 {
        out.push('+');
        assert(out@ == old(out)@ + seq!['+']);
    } else {
        out.push('%');
        out.push(hex_digit_of(b / 16));
        out.push(hex_digit_of(b % 16));
        assert(out@ == old(out)@ + seq!['%', hex_digit(b / 16), hex_digit(b % 16)]);
    }
}

/// Appends the encoding of a text.
fn push_encoded_text(out: &mut String, text: &str)
    ensures
        final(out)@ == old(out)@ + encode_text(text@),
{
    let bytes = text.as_bytes();
    let mut i: usize = 0;
    assert(bytes@.subrange(0, 0) == Seq::<u8>::empty());
    while i < bytes.len()
        invariant
            i <= bytes.len(),
            bytes@ == encode_utf8(text@),
            out@ == old(out)@ + encode_bytes(bytes@.subrange(0, i as int)),
        decreases bytes.len() - i,
    {
        let b = bytes[i];
        push_encoded_byte(out, b);
        proof {
            let done = bytes@.subrange(0, i as int);
            let next = bytes@.subrange(0, i + 1);
            assert(next.drop_last() == done);
            assert(next.last() == b);
            assert(out@ == old(out)@ + encode_bytes(next));
        }
        i += 1;
    }
    assert(bytes@.subrange(0, i as int) == bytes@);
}

/// Encodes a text for use as a name or a value of a query string.
pub fn encode(text: &str) -> (r: String)
    ensures
        r@ == encode_text(text@),
{
    let mut out = String::new();
    push_encoded_text(&mut out, text);
    assert(out@ == encode_text(text@));
    out
}

/// Writes the pairs as one query string, in their order.
pub fn to_query_string(pairs: &Vec<(String, String)>) -> (r: String)
    ensures
        r@ == query_string(pairs.deep_view()),
{
    let mut out = String::new();
    let ghost all = pairs.deep_view();
    let mut i: usize = 0;
    assert(all.subrange(0, 0) == Seq::<(Seq<char>, Seq<char>)>::empty());
    while i < pairs.len()
        invariant
            i <= pairs.len(),
            all == pairs.deep_view(),
            out@ == query_string(all.subrange(0, i as int)),
        decreases pairs.len() - i,
    {
        let ghost before = out@;
        if i > 0 {
            out.push('&');
        }
        push_encoded_text(&mut out, pairs[i].0.as_str());
        out.push('=');
        push_encoded_text(&mut out, pairs[i].1.as_str());
        proof {
            let done = all.subrange(0, i as int);
            let next = all.subrange(0, i + 1);
            assert(next.drop_last() == done);
            assert(next.last() == (pairs[i as int].0@, pairs[i as int].1@));
            if i == 0 {
                assert(out@ == encode_pair(next.last()));
            } else {
                assert(out@ == before.push('&') + encode_pair(next.last()));
            }
        }
        i += 1;
    }
    assert(all.subrange(0, i as int) == all);
    out
}

/// Appends the decimal form of a number.
fn push_decimal(out: &mut String, n: u32)
    ensures
        final(out)@ == old(out)@ + decimal(n as nat),
    decreases n,
{
    if n < 10 {
        out.push((0x30 + n as u8) as char);
        assert(out@ == old(out)@ + seq![decimal_digit(n as nat)]);
    } else {
        push_decimal(out, n / 10);
        out.push((0x30 + (n % 10) as u8) as char);
        assert(out@ == old(out)@ + decimal((n / 10) as nat).push(decimal_digit((n % 10) as nat)));
    }
}

/// The decimal form of a number.
pub fn to_decimal(n: u32) -> (r: String)
    ensures
        r@ == decimal(n as nat),
{
    let mut out = String::new();
    push_decimal(&mut out, n);
    assert(out@ == decimal(n as nat));
    out
}

} // verus!
