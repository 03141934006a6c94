//! What is written as a query string can be read back: the proofs.

use crate::query::decimal;
use crate::query::decimal_digit;
use crate::query::decimal_value;
use crate::query::decode_chars;
use crate::query::decode_text;
use crate::query::encode_byte;
use crate::query::encode_bytes;
use crate::query::encode_pair;
use crate::query::encode_text;
use crate::query::hex_digit;
use crate::query::hex_value;
use crate::query::index_of;
use crate::query::is_digits;
use crate::query::is_hex_digit;
use crate::query::is_plain;
use crate::query::is_unreserved;
use crate::query::is_written;
use crate::query::parse_pair;
use crate::query::parse_query;
use crate::query::query_string;
use vstd::prelude::*;
use vstd::utf8::encode_utf8;
use vstd::utf8::encode_utf8_decode_utf8;
use vstd::utf8::is_ascii_chars;
use vstd::utf8::is_ascii_chars_encode_utf8;

verus! {

/// Whether every character of a text is one that the encoding can write.
pub open spec fn all_written(text: Seq<char>) -> bool {
    forall|i: int| 0 <= i < text.len() ==> is_written(#[trigger] text[i])
}

/// The encoding of a byte is made of characters that the encoding can
/// write, and it is not empty.
pub proof fn lemma_encode_byte_is_written(b: u8)
    ensures
        all_written(encode_byte(b)),
        1 <= encode_byte(b).len() <= 3,
{
    let n = b / 16;
    let m = b % 16;
    assert(n < 16 && m < 16);
    assert(is_written(hex_digit(n)));
    assert(is_written(hex_digit(m)));
}

/// The encoding of bytes that follow one another is that of the first
/// bytes followed by that of the others.
pub proof fn lemma_encode_bytes_concat(a: Seq<u8>, b: Seq<u8>)
    ensures
        encode_bytes(a + b) == encode_bytes(a) + encode_bytes(b),
    decreases b.len(),
{
    if b.len() == 0 {
        assert(a + b == a);
    } else {
        assert((a + b).drop_last() == a + b.drop_last());
        assert((a + b).last() == b.last());
        lemma_encode_bytes_concat(a, b.drop_last());
    }
}

/// An encoded text is made of characters that the encoding can write.
pub proof fn lemma_encoded_is_written(bytes: Seq<u8>)
    ensures
        all_written(encode_bytes(bytes)),
    decreases bytes.len(),
{
    if bytes.len() > 0 {
        lemma_encoded_is_written(bytes.drop_last());
        lemma_encode_byte_is_written(bytes.last());
    }
}

/// Reading an encoded byte gives the byte, and then goes on with what
/// follows it.
pub proof fn lemma_decode_encoded_byte(b: u8, rest: Seq<char>)
    ensures
        decode_chars(encode_byte(b) + rest) == seq![b] + decode_chars(rest),
{
    let text = encode_byte(b) + rest;
    if is_unreserved(b) {
        let c = b as char;
        assert(text[0] == c);
        assert(text.skip(1) == rest);
        assert(is_ascii_chars(seq![c]));
        is_ascii_chars_encode_utf8(seq![c]);
        assert(encode_utf8(seq![c]) == seq![b]) by {
            assert(encode_utf8(seq![c]).len() == 1);
            assert(seq![c][0] as u8 == encode_utf8(seq![c])[0]);
        }
    } else if b == 0x20 {
        assert(text[0] == '+');
        assert(text.skip(1) == rest);
    } else {
        let high = b / 16;
        let low = b % 16;
        assert(text[0] == '%');
        assert(text[1] == hex_digit(high));
        assert(text[2] == hex_digit(low));
        assert(text.skip(3) == rest);
        assert(is_hex_digit(hex_digit(high)) && hex_value(hex_digit(high)) == high);
        assert(is_hex_digit(hex_digit(low)) && hex_value(hex_digit(low)) == low);
        assert((high * 16 + low) as u8 == b);
    }
}

/// Reading encoded bytes gives the bytes.
pub proof fn lemma_decode_encoded_bytes(bytes: Seq<u8>)
    ensures
        decode_chars(encode_bytes(bytes)) == bytes,
    decreases bytes.len(),
{
    if bytes.len() > 0 {
        let first = seq![bytes[0]];
        let rest = bytes.skip(1);
        assert(bytes == first + rest);
        lemma_encode_bytes_concat(first, rest);
        assert(encode_bytes(first) == encode_byte(bytes[0])) by {
            assert(first.drop_last() == Seq::<u8>::empty());
            assert(encode_bytes(first.drop_last()) == Seq::<char>::empty());
            assert(Seq::<char>::empty() + encode_byte(bytes[0]) == encode_byte(bytes[0]));
        }
        lemma_decode_encoded_byte(bytes[0], encode_bytes(rest));
        lemma_decode_encoded_bytes(rest);
    }
}

/// Reading an encoded text gives the text.
pub proof fn lemma_decode_encoded_text(text: Seq<char>)
    ensures
        decode_text(encode_text(text)) == text,
{
    lemma_decode_encoded_bytes(encode_utf8(text));
    encode_utf8_decode_utf8(text);
}

/// Where a text holds no `c`, the first `c` of the text and what follows it
/// is the first `c` of what follows.
pub proof fn lemma_index_of_after(text: Seq<char>, rest: Seq<char>, c: char)
    requires
        forall|i: int| 0 <= i < text.len() ==> #[trigger] text[i] != c,
    ensures
        index_of(text + rest, c) == text.len() + index_of(rest, c),
    decreases text.len(),
{
    if text.len() == 0 {
        assert(text + rest == rest);
    } else {
        let all = text + rest;
        assert(all[0] == text[0]);
        assert(all.skip(1) == text.skip(1) + rest);
        assert forall|i: int| 0 <= i < text.skip(1).len() implies #[trigger] text.skip(1)[i]
            != c by {
            assert(text.skip(1)[i] == text[i + 1]);
        }
        lemma_index_of_after(text.skip(1), rest, c);
    }
}

/// An encoded text holds neither `=` nor `&`.
pub proof fn lemma_encoded_text_has_no_separator(text: Seq<char>)
    ensures
        forall|i: int| 0 <= i < encode_text(text).len() ==> #[trigger] encode_text(text)[i] != '=',
        forall|i: int| 0 <= i < encode_text(text).len() ==> #[trigger] encode_text(text)[i] != '&',
{
    lemma_encoded_is_written(encode_utf8(text));
    assert forall|i: int| 0 <= i < encode_text(text).len() implies #[trigger] encode_text(
        text,
    )[i] != '=' by {
        assert(is_written(encode_text(text)[i]));
    }
    assert forall|i: int| 0 <= i < encode_text(text).len() implies #[trigger] encode_text(
        text,
    )[i] != '&' by {
        assert(is_written(encode_text(text)[i]));
    }
}

/// Reading an encoded pair gives the pair.
pub proof fn lemma_parse_encoded_pair(pair: (Seq<char>, Seq<char>))
    ensures
        parse_pair(encode_pair(pair)) == pair,
{
    let name = encode_text(pair.0);
    let value = encode_text(pair.1);
    let part = encode_pair(pair);
    lemma_encoded_text_has_no_separator(pair.0);
    assert(part == name + (seq!['='] + value));
    lemma_index_of_after(name, seq!['='] + value, '=');
    assert((seq!['='] + value)[0] == '=');
    assert(index_of(part, '=') == name.len());
    assert(part.take(name.len() as int) == name);
    assert(part.skip(name.len() as int + 1) == value);
    lemma_decode_encoded_text(pair.0);
    lemma_decode_encoded_text(pair.1);
}

/// An encoded pair holds no `&`, and it is not empty.
pub proof fn lemma_encoded_pair_has_no_ampersand(pair: (Seq<char>, Seq<char>))
    ensures
        forall|i: int| 0 <= i < encode_pair(pair).len() ==> #[trigger] encode_pair(pair)[i] != '&',
        encode_pair(pair).len() > 0,
{
    let name = encode_text(pair.0);
    let value = encode_text(pair.1);
    lemma_encoded_text_has_no_separator(pair.0);
    lemma_encoded_text_has_no_separator(pair.1);
    assert forall|i: int| 0 <= i < encode_pair(pair).len() implies #[trigger] encode_pair(
        pair,
    )[i] != '&' by {
        if i < name.len() {
            assert(encode_pair(pair)[i] == name[i]);
        } else if i == name.len() {
            assert(encode_pair(pair)[i] == '=');
        } else {
            assert(encode_pair(pair)[i] == value[i - name.len() - 1]);
        }
    }
}

/// The query string of two or more pairs is the first pair encoded, `&`,
/// and the query string of the other pairs.
pub proof fn lemma_query_string_from_front(pairs: Seq<(Seq<char>, Seq<char>)>)
    requires
        pairs.len() >= 2,
    ensures
        query_string(pairs) == encode_pair(pairs[0]).push('&') + query_string(pairs.skip(1)),
    decreases pairs.len(),
{
    let earlier = pairs.drop_last();
    let later = pairs.skip(1);
    assert(later.drop_last() == earlier.skip(1));
    assert(later.last() == pairs.last());
    assert(earlier[0] == pairs[0]);
    if pairs.len() == 2 {
        assert(earlier.last() == pairs[0]);
        assert(query_string(earlier) == encode_pair(pairs[0]));
        assert(query_string(later) == encode_pair(pairs.last()));
    } else {
        lemma_query_string_from_front(earlier);
        assert(query_string(later) == query_string(earlier.skip(1)).push('&') + encode_pair(
            pairs.last(),
        ));
        assert(query_string(pairs) == (encode_pair(pairs[0]).push('&') + query_string(
            earlier.skip(1),
        )).push('&') + encode_pair(pairs.last()));
    }
}

/// Reading a query string gives the pairs that it was written from, in
/// their order and each with its name and value as they were.
pub proof fn lemma_parse_query_string(pairs: Seq<(Seq<char>, Seq<char>)>)
    ensures
        parse_query(query_string(pairs)) == pairs,
    decreases pairs.len(),
{
    if pairs.len() == 0 {
    } else {
        let first = encode_pair(pairs[0]);
        lemma_encoded_pair_has_no_ampersand(pairs[0]);
        lemma_parse_encoded_pair(pairs[0]);
        if pairs.len() == 1 {
            assert(pairs.last() == pairs[0]);
            assert(query_string(pairs) == first);
            lemma_index_of_after(first, Seq::empty(), '&');
            assert(first + Seq::<char>::empty() == first);
            assert(pairs == seq![pairs[0]]);
        } else {
            let rest = query_string(pairs.skip(1));
            let text = query_string(pairs);
            lemma_query_string_from_front(pairs);
            assert(text == first + (seq!['&'] + rest));
            lemma_index_of_after(first, seq!['&'] + rest, '&');
            assert((seq!['&'] + rest)[0] == '&');
            assert(index_of(text, '&') == first.len());
            assert(text.take(first.len() as int) == first);
            assert(text.skip(first.len() as int + 1) == rest);
            lemma_parse_query_string(pairs.skip(1));
            assert(pairs == seq![pairs[0]] + pairs.skip(1));
        }
    }
}

/// The decimal form of a number is made of digits, and the number that
/// they stand for is the number itself.
pub proof fn lemma_decimal_value(n: nat)
    ensures
        is_digits(decimal(n)),
        decimal(n).len() > 0,
        decimal_value(decimal(n)) == n,
    decreases n,
{
    if n < 10 {
        let text = decimal(n);
        assert(text.drop_last() == Seq::<char>::empty());
        assert(decimal_value(text.drop_last()) == 0);
        assert(text.last() == decimal_digit(n));
    } else {
        lemma_decimal_value(n / 10);
        let text = decimal(n);
        assert(text.drop_last() == decimal(n / 10));
        assert(text.last() == decimal_digit(n % 10));
        assert forall|i: int| 0 <= i < text.len() implies '0' <= #[trigger] text[i] <= '9' by {
            if i < text.len() - 1 {
                assert(text[i] == decimal(n / 10)[i]);
            }
        }
    }
}

/// A text that the encoding leaves as it is, is its own encoding.
pub proof fn lemma_plain_text_is_unchanged(text: Seq<char>)
    requires
        is_plain(text),
    ensures
        encode_text(text) == text,
{
    assert(is_ascii_chars(text)) by {
        assert forall|i: int| 0 <= i < text.len() implies '\0' <= #[trigger] text[i]
            <= '\u{7f}' by {
        }
    }
    is_ascii_chars_encode_utf8(text);
    lemma_plain_bytes_are_unchanged(text, encode_utf8(text));
}

/// Bytes that are the characters of such a text encode to the text.
proof fn lemma_plain_bytes_are_unchanged(text: Seq<char>, bytes: Seq<u8>)
    requires
        is_plain(text),
        bytes.len() == text.len(),
        forall|i: int| 0 <= i < text.len() ==> #[trigger] text[i] as u8 == bytes[i],
    ensures
        encode_bytes(bytes) == text,
    decreases bytes.len(),
{
    if bytes.len() > 0 {
        let last = bytes.len() - 1;
        assert forall|i: int| 0 <= i < text.drop_last().len() implies #[trigger] text.drop_last()[i] as u8
            == bytes.drop_last()[i] by {
            assert(text.drop_last()[i] == text[i]);
        }
        assert(is_plain(text.drop_last())) by {
            assert forall|i: int| 0 <= i < text.drop_last().len() implies {
                let c = #[trigger] text.drop_last()[i];
                c == '*' || c == '-' || c == '.' || '0' <= c <= '9' || 'A' <= c <= 'Z' || c == '_'
                    || 'a' <= c <= 'z'
            } by {
                assert(text.drop_last()[i] == text[i]);
            }
        }
        lemma_plain_bytes_are_unchanged(text.drop_last(), bytes.drop_last());
        let c = text[last];
        assert(c as u8 == bytes[last]);
        assert(is_unreserved(bytes[last]));
        assert(bytes[last] as char == c);
        assert(encode_byte(bytes.last()) == seq![c]);
        assert(text == text.drop_last() + seq![c]);
    } else {
        assert(text == Seq::<char>::empty());
    }
}

} // verus!
