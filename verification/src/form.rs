//! The `application/x-www-form-urlencoded` serialization of query parameters.
//!
//! A component (a key or a value) is taken as its UTF-8 bytes. A byte of the
//! unreserved set stands for itself, a space becomes `+`, and every other byte
//! becomes `%` followed by its two upper-case hexadecimal digits. A parameter
//! is its key, `=` and its value; parameters are joined by `&`.
//!
//! The module states the serialization and its inverse as functions on
//! sequences, builds the serialization, and proves that nothing is lost by it.

use crate::text::{first_index, lemma_first_index, lemma_first_index_at, push_char};
use vstd::prelude::*;
use vstd::utf8::*;

verus! {

/// A query parameter list as plain values: keys and values in order.
pub type Pairs = Seq<(Seq<char>, Seq<char>)>;

/// The plain value of a list of owned pairs.
pub open spec fn pairs_view(pairs: Seq<(String, String)>) -> Pairs {
    Seq::new(pairs.len(), |i: int| (pairs[i].0@, pairs[i].1@))
}

/// Whether a byte is written unchanged: `*`, `-`, `.`, `_`, a digit or an ASCII letter.
pub open spec fn is_unreserved(b: u8) -> bool {
    ||| b == 0x2A
    ||| b == 0x2D
    ||| b == 0x2E
    ||| b == 0x5F
    ||| 0x30 <= b <= 0x39
    ||| 0x41 <= b <= 0x5A
    ||| 0x61 <= b <= 0x7A
}

/// The upper-case hexadecimal digit of a value below sixteen.
pub open spec fn hex_digit(n: u8) -> char
    recommends
        n < 16,
{
    if n < 10 {
        (0x30 + n) as u8 as char
    } else {
        (0x37 + n) as u8 as char
    }
}

/// The value of a hexadecimal digit, upper or lower case; zero for any other character.
pub open spec fn hex_value(c: char) -> u8 {
    let n = c as u32;
    if 0x30 <= n <= 0x39 {
        (n - 0x30) as u8
    } else if 0x41 <= n <= 0x46 {
        (n - 0x37) as u8
    } else if 0x61 <= n <= 0x66 {
        (n - 0x57) as u8
    } else {
        0
    }
}

/// The serialization of one byte.
pub open spec fn encode_byte(b: u8) -> Seq<char> {
    if is_unreserved(b) {
        seq![b as char]
    } else if b == 0x20 {
        seq!['+']
    } else {
        seq!['%', hex_digit(b / 16), hex_digit(b % 16)]
    }
}

/// The serialization of a byte string: that of its bytes, one after the other.
pub open spec fn encode_bytes(bytes: Seq<u8>) -> Seq<char>
    decreases bytes.len(),
{
    if bytes.len() == 0 {
        Seq::empty()
    } else {
        encode_byte(bytes[0]) + encode_bytes(bytes.drop_first())
    }
}

/// The serialization of a key or a value: that of its UTF-8 bytes.
pub open spec fn encode_component(text: Seq<char>) -> Seq<char> {
    encode_bytes(encode_utf8(text))
}

/// The serialization of one parameter: key, `=`, value.
pub open spec fn encode_pair(pair: (Seq<char>, Seq<char>)) -> Seq<char> {
    encode_component(pair.0) + seq!['='] + encode_component(pair.1)
}

/// A list of parameters joined by `&`.
pub open spec fn encode_pairs(pairs: Pairs) -> Seq<char>
    decreases pairs.len(),
{
    if pairs.len() == 0 {
        Seq::empty()
    } else if pairs.len() == 1 {
        encode_pair(pairs[0])
    } else {
        encode_pair(pairs[0]) + seq!['&'] + encode_pairs(pairs.drop_first())
    }
}

/// Whether a character can occur in a serialized component.
pub open spec fn is_component_char(c: char) -> bool {
    ||| c == '+'
    ||| c == '%'
    ||| (c as u32) < 0x80 && is_unreserved(c as u8)
}

/// What a serialized component stands for: `+` is a space, `%` and two
/// hexadecimal digits are the byte of that value, any other character is its
/// own byte.
pub open spec fn decode_bytes(text: Seq<char>) -> Seq<u8>
    decreases text.len(),
{
    if text.len() == 0 {
        Seq::empty()
    } else if text[0] == '%' && text.len() >= 3 {
        seq![(16 * hex_value(text[1]) + hex_value(text[2])) as u8] + decode_bytes(text.skip(3))
    } else if text[0] == '+' {
        seq![0x20u8] + decode_bytes(text.skip(1))
    } else {
        seq![text[0] as u8] + decode_bytes(text.skip(1))
    }
}

/// What a serialized key or value stands for, as text.
pub open spec fn decode_component(text: Seq<char>) -> Seq<char> {
    decode_utf8(decode_bytes(text))
}

/// What a serialized parameter stands for: the key is what stands before the
/// first `=`, the value what follows it.
pub open spec fn decode_pair(item: Seq<char>) -> (Seq<char>, Seq<char>) {
    let mark = first_index(item, '=');
    if 0 <= mark < item.len() {
        (decode_component(item.take(mark)), decode_component(item.skip(mark + 1)))
    } else {
        (decode_component(item), Seq::empty())
    }
}

/// What a query string stands for: its parameters, which `&` separates.
pub open spec fn decode_pairs(text: Seq<char>) -> Pairs
    decreases text.len(),
{
    let mark = first_index(text, '&');
    if text.len() == 0 {
        Seq::empty()
    } else if 0 <= mark < text.len() {
        seq![decode_pair(text.take(mark))] + decode_pairs(text.skip(mark + 1))
    } else {
        seq![decode_pair(text)]
    }
}

/// The upper-case hexadecimal digit of a value below sixteen.
fn hex_digit_of(n: u8) -> (c: char)
    requires
        n < 16,
    ensures
        c == hex_digit(n),
{
    if n < 10 {
        (0x30 + n) as char
    } else {
        (0x37 + n) as char
    }
}

/// Appends the serialization of one byte.
pub fn push_byte(out: &mut String, b: u8)
    ensures
        final(out)@ == old(out)@ + encode_byte(b),
{
    let unreserved = b == 0x2A || b == 0x2D || b == 0x2E || b == 0x5F || (0x30 <= b && b <= 0x39)
        || (0x41 <= b && b <= 0x5A) || (0x61 <= b && b <= 0x7A);
    if unreserved {
        push_char(out, b as char);
        assert(out@ == old(out)@ + encode_byte(b));
    } else if b == 0x20 {
        push_char(out, '+');
        assert(out@ == old(out)@ + encode_byte(b));
    } else {
        assert(b / 16 < 16 && b % 16 < 16) by (bit_vector);
        push_char(out, '%');
        push_char(out, hex_digit_of(b / 16));
        push_char(out, hex_digit_of(b % 16));
        assert(out@ == old(out)@ + encode_byte(b));
    }
}

/// Appends the serialization of a key or a value.
pub fn push_component(out: &mut String, text: &str)
    ensures
        final(out)@ == old(out)@ + encode_component(text@),
{
    let bytes = text.as_bytes();
    let mut i: usize = 0;
    assert(bytes@.take(0) == Seq::<u8>::empty());
    assert(out@ == old(out)@ + encode_bytes(bytes@.take(0)));
    while i < bytes.len()
        invariant
            0 <= i <= bytes.len(),
            bytes@ == encode_utf8(text@),
            out@ == old(out)@ + encode_bytes(bytes@.take(i as int)),
        decreases bytes.len() - i,
    {
        let ghost before = out@;
        push_byte(out, bytes[i]);
        proof {
            let done = bytes@.take(i as int);
            lemma_encode_bytes_concat(done, seq![bytes@[i as int]]);
            assert(done + seq![bytes@[i as int]] == bytes@.take(i + 1));
            assert(encode_bytes(seq![bytes@[i as int]]) == encode_byte(bytes@[i as int])) by {
                assert(seq![bytes@[i as int]].drop_first() == Seq::<u8>::empty());
                assert(encode_bytes(Seq::<u8>::empty()) == Seq::<char>::empty());
            }
            assert(before + encode_byte(bytes@[i as int]) == old(out)@ + (encode_bytes(done)
                + encode_byte(bytes@[i as int])));
        }
        i += 1;
    }
    assert(bytes@.take(i as int) == bytes@);
}

/// Appends the serialization of a list of parameters.
pub fn push_pairs(out: &mut String, pairs: &Vec<(String, String)>)
    ensures
        final(out)@ == old(out)@ + encode_pairs(pairs_view(pairs@)),
{
    let ghost all = pairs_view(pairs@);
    let mut i: usize = 0;
    assert(all.take(0) == Pairs::empty());
    assert(out@ == old(out)@ + encode_pairs(all.take(0)));
    while i < pairs.len()
        invariant
            0 <= i <= pairs.len(),
            all == pairs_view(pairs@),
            out@ == old(out)@ + encode_pairs(all.take(i as int)),
        decreases pairs.len() - i,
    {
        let ghost before = out@;
        if i > 0 {
            push_char(out, '&');
        }
        push_component(out, pairs[i].0.as_str());
        push_char(out, '=');
        push_component(out, pairs[i].1.as_str());
        proof {
            lemma_encode_pairs_push(all.take(i as int), all[i as int]);
            assert(all.take(i as int).push(all[i as int]) == all.take(i + 1));
            let item = encode_pair(all[i as int]);
            if i > 0 {
                assert(out@ == before + seq!['&'] + item);
                assert(out@ == old(out)@ + (encode_pairs(all.take(i as int)) + seq!['&'] + item));
            } else {
                assert(out@ == before + item);
                assert(out@ == old(out)@ + item);
            }
        }
        i += 1;
    }
    assert(all.take(i as int) == all);
}

/// The query string of a list of parameters.
pub fn query_string(pairs: &Vec<(String, String)>) -> (text: String)
    ensures
        text@ == encode_pairs(pairs_view(pairs@)),
{
    let mut text = String::new();
    push_pairs(&mut text, pairs);
    text
}

/// A list of parameters with one more is the list, a `&` unless the list is
/// empty, and the new parameter.
pub proof fn lemma_encode_pairs_push(pairs: Pairs, pair: (Seq<char>, Seq<char>))
    ensures
        encode_pairs(pairs.push(pair)) == if pairs.len() == 0 {
            encode_pair(pair)
        } else {
            encode_pairs(pairs) + seq!['&'] + encode_pair(pair)
        },
    decreases pairs.len(),
{
    let longer = pairs.push(pair);
    if pairs.len() == 0 {
        assert(longer[0] == pair);
    } else {
        let rest = pairs.drop_first();
        lemma_encode_pairs_push(rest, pair);
        assert(longer.drop_first() == rest.push(pair));
        assert(longer[0] == pairs[0]);
        if rest.len() == 0 {
            assert(encode_pairs(pairs) == encode_pair(pairs[0]));
        } else {
            assert(encode_pairs(longer) == encode_pair(pairs[0]) + seq!['&'] + (encode_pairs(rest)
                + seq!['&'] + encode_pair(pair)));
            assert(encode_pairs(pairs) == encode_pair(pairs[0]) + seq!['&'] + encode_pairs(rest));
        }
    }
}


/// The serialization of a byte string followed by another is the two
/// serializations, one after the other.
pub proof fn lemma_encode_bytes_concat(a: Seq<u8>, b: Seq<u8>)
    ensures
        encode_bytes(a + b) == encode_bytes(a) + encode_bytes(b),
    decreases a.len(),
{
    if a.len() == 0 {
        assert(a + b == b);
        assert(encode_bytes(a) + encode_bytes(b) == encode_bytes(b));
    } else {
        lemma_encode_bytes_concat(a.drop_first(), b);
        assert((a + b).drop_first() == a.drop_first() + b);
        assert((a + b)[0] == a[0]);
        assert(encode_byte(a[0]) + (encode_bytes(a.drop_first()) + encode_bytes(b)) == (
        encode_byte(a[0]) + encode_bytes(a.drop_first())) + encode_bytes(b));
    }
}

/// Every character of a serialized byte is a component character.
pub proof fn lemma_encode_byte_chars(b: u8)
    ensures
        1 <= encode_byte(b).len() <= 3,
        forall|i: int| 0 <= i < encode_byte(b).len() ==> is_component_char(#[trigger] encode_byte(b)[i]),
{
    assert(b / 16 < 16 && b % 16 < 16) by (bit_vector);
}

/// A serialized component holds component characters only: none of the
/// delimiters `&`, `=`, `?` and `#` of a URL, and nothing outside ASCII.
pub proof fn lemma_encoded_chars(bytes: Seq<u8>)
    ensures
        forall|i: int| 0 <= i < encode_bytes(bytes).len() ==> is_component_char(#[trigger] encode_bytes(bytes)[i]),
    decreases bytes.len(),
{
    if bytes.len() > 0 {
        let head = encode_byte(bytes[0]);
        let tail = encode_bytes(bytes.drop_first());
        lemma_encode_byte_chars(bytes[0]);
        lemma_encoded_chars(bytes.drop_first());
        assert forall|i: int| 0 <= i < encode_bytes(bytes).len() implies is_component_char(
            #[trigger] encode_bytes(bytes)[i],
        ) by {
            if i < head.len() {
                assert(encode_bytes(bytes)[i] == head[i]);
            } else {
                assert(encode_bytes(bytes)[i] == tail[i - head.len()]);
            }
        }
    }
}

/// Decoding a serialized byte string gives the bytes back.
pub proof fn lemma_decode_encode_bytes(bytes: Seq<u8>)
    ensures
        decode_bytes(encode_bytes(bytes)) == bytes,
    decreases bytes.len(),
{
    if bytes.len() > 0 {
        let b = bytes[0];
        let rest = encode_bytes(bytes.drop_first());
        let text = encode_bytes(bytes);
        lemma_decode_encode_bytes(bytes.drop_first());
        assert(b / 16 < 16 && b % 16 < 16 && 16 * (b / 16) + b % 16 == b) by (bit_vector);
        if is_unreserved(b) || b == 0x20 {
            assert(text.skip(1) == rest);
        } else {
            assert(text.skip(3) == rest);
        }
        assert(decode_bytes(text) == seq![b] + bytes.drop_first());
    }
}

/// Decoding a serialized key or value, and reading the bytes as UTF-8, gives
/// the text back: the serialization loses nothing.
pub proof fn lemma_component_round_trip(text: Seq<char>)
    ensures
        valid_utf8(decode_bytes(encode_component(text))),
        decode_utf8(decode_bytes(encode_component(text))) == text,
{
    lemma_decode_encode_bytes(encode_utf8(text));
    encode_utf8_valid_utf8(text);
    encode_utf8_decode_utf8(text);
}

/// A serialized parameter is not empty, holds one `=`, between key and value,
/// and no `&`.
pub proof fn lemma_encode_pair_marks(pair: (Seq<char>, Seq<char>))
    ensures
        encode_pair(pair).len() > 0,
        first_index(encode_pair(pair), '=') == encode_component(pair.0).len(),
        first_index(encode_pair(pair), '&') == encode_pair(pair).len(),
{
    let key = encode_component(pair.0);
    let value = encode_component(pair.1);
    let item = encode_pair(pair);
    lemma_encoded_chars(encode_utf8(pair.0));
    lemma_encoded_chars(encode_utf8(pair.1));
    assert forall|i: int| 0 <= i < item.len() implies #[trigger] item[i] != '&' by {
        if i < key.len() {
            assert(item[i] == key[i]);
        } else if i > key.len() {
            assert(item[i] == value[i - key.len() - 1]);
        }
    }
    assert forall|i: int| 0 <= i < key.len() implies #[trigger] item[i] != '=' by {
        assert(item[i] == key[i]);
    }
    assert(item[key.len() as int] == '=');
    lemma_first_index_at(item, '=', key.len() as int);
    lemma_first_index_at(item, '&', item.len() as int);
}

/// Reading a serialized parameter back gives its key and its value.
pub proof fn lemma_pair_round_trip(pair: (Seq<char>, Seq<char>))
    ensures
        decode_pair(encode_pair(pair)) == pair,
{
    let key = encode_component(pair.0);
    let value = encode_component(pair.1);
    let item = encode_pair(pair);
    lemma_encode_pair_marks(pair);
    lemma_component_round_trip(pair.0);
    lemma_component_round_trip(pair.1);
    assert(item.take(key.len() as int) == key);
    assert(item.skip(key.len() as int + 1) == value);
}

/// Reading a query string back gives the parameters that it was made of, in
/// their order: every key and every value is encoded without loss, and no
/// key or value can be taken for a delimiter.
pub proof fn lemma_pairs_round_trip(pairs: Pairs)
    ensures
        decode_pairs(encode_pairs(pairs)) == pairs,
    decreases pairs.len(),
{
    let text = encode_pairs(pairs);
    if pairs.len() == 0 {
        assert(decode_pairs(text) == pairs);
    } else {
        let item = encode_pair(pairs[0]);
        lemma_encode_pair_marks(pairs[0]);
        lemma_pair_round_trip(pairs[0]);
        lemma_first_index(item, '&');
        if pairs.len() == 1 {
            assert(decode_pairs(text) == seq![pairs[0]]);
            assert(seq![pairs[0]] == pairs);
        } else {
            let rest = pairs.drop_first();
            lemma_pairs_round_trip(rest);
            assert forall|i: int| 0 <= i < item.len() implies #[trigger] text[i] != '&' by {
                assert(text[i] == item[i]);
            }
            assert(text[item.len() as int] == '&');
            lemma_first_index_at(text, '&', item.len() as int);
            assert(text.take(item.len() as int) == item);
            assert(text.skip(item.len() as int + 1) == encode_pairs(rest));
            assert(seq![pairs[0]] + rest == pairs);
        }
    }
}

} // verus!
