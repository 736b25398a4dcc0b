//! Facts about strings whose UTF-8 bytes are all ASCII: every byte index is a
//! character boundary, and bytes and characters correspond one to one.
use vstd::prelude::*;
use vstd::utf8::*;
use vstd::string::*;

verus! {

/// Every byte of `b` is ASCII.
pub open spec fn is_ascii_bytes(b: Seq<u8>) -> bool {
    forall|i: int| 0 <= i < b.len() ==> #[trigger] b[i] < 0x80
}

proof fn lemma_multibyte_leading_bytes(v: u32)
    ensures
        leading_byte_width_2(v) >= 0xc0,
        leading_byte_width_3(v) >= 0xc0,
        leading_byte_width_4(v) >= 0xc0,
{
    assert(0xC0 | ((v >> 6) & 0x1F) as u8 >= 0xc0) by (bit_vector);
    assert(0xE0 | ((v >> 12) & 0x0F) as u8 >= 0xc0) by (bit_vector);
    assert(0xF0 | ((v >> 18) & 0x7) as u8 >= 0xc0) by (bit_vector);
}

proof fn lemma_char_below_0x80(c: char)
    ensures
        (c as u32) <= 0x7f ==> '\0' <= c <= '\u{7f}',
{
}

proof fn lemma_continuation_bytes(v: u32)
    ensures
        last_continuation_byte(v) >= 0x80,
        second_last_continuation_byte(v) >= 0x80,
        third_last_continuation_byte(v) >= 0x80,
        v <= 0x7f ==> leading_byte_width_1(v) == v as u8,
{
    assert(0x80 | (v & 0x3F) as u8 >= 0x80) by (bit_vector);
    assert(0x80 | ((v >> 6) & 0x3F) as u8 >= 0x80) by (bit_vector);
    assert(0x80 | ((v >> 12) & 0x3F) as u8 >= 0x80) by (bit_vector);
    assert(v <= 0x7f ==> (v & 0x7F) as u8 == v as u8) by (bit_vector);
}

/// An ASCII character occurs in a text exactly when its byte occurs in the
/// UTF-8 encoding of the text: the bytes of other characters are not ASCII.
pub proof fn lemma_encoded_ascii_char(cs: Seq<char>, c: char, x: u8)
    requires
        x < 0x80,
        c as u32 == x as u32,
    ensures
        encode_utf8(cs).contains(x) <==> cs.contains(c),
    decreases cs.len(),
{
    if cs.len() > 0 {
        let v = cs[0] as u32;
        let head = encode_scalar(v);
        let rest = cs.drop_first();
        let e = encode_utf8(cs);
        assert(e == head + encode_utf8(rest));
        lemma_encoded_ascii_char(rest, c, x);
        lemma_multibyte_leading_bytes(v);
        lemma_continuation_bytes(v);
        char_u32_cast(cs[0], v);
        char_u32_cast(c, x as u32);
        if e.contains(x) {
            let k = choose|k: int| 0 <= k < e.len() && e[k] == x;
            if k >= head.len() {
                assert(encode_utf8(rest)[k - head.len()] == x);
                let j = choose|j: int| 0 <= j < rest.len() && rest[j] == c;
                assert(cs[j + 1] == c);
            } else {
                assert(cs[0] == c);
            }
        }
        if cs.contains(c) {
            let j = choose|j: int| 0 <= j < cs.len() && cs[j] == c;
            if j == 0 {
                assert(e[0] == x);
            } else {
                assert(rest[j - 1] == c);
                let k = choose|k: int| 0 <= k < encode_utf8(rest).len() && encode_utf8(rest)[k] == x;
                assert(e[k + head.len()] == x);
            }
        }
    }
}

/// Characters whose UTF-8 encoding is all ASCII are themselves ASCII.
pub proof fn lemma_ascii_encoding_has_ascii_chars(cs: Seq<char>)
    requires
        is_ascii_bytes(encode_utf8(cs)),
    ensures
        is_ascii_chars(cs),
    decreases cs.len(),
{
    if cs.len() > 0 {
        let c = cs[0] as u32;
        let head = encode_scalar(c);
        let rest = encode_utf8(cs.drop_first());
        assert(encode_utf8(cs) == head + rest);
        lemma_multibyte_leading_bytes(c);
        assert(encode_utf8(cs)[0] == head[0]);
        assert(has_width_1_encoding(c));
        assert forall|i: int| 0 <= i < rest.len() implies #[trigger] rest[i] < 0x80 by {
            assert(rest[i] == encode_utf8(cs)[i + 1]);
        }
        lemma_ascii_encoding_has_ascii_chars(cs.drop_first());
        assert forall|i: int| 0 <= i < cs.len() implies '\0' <= #[trigger] cs[i] <= '\u{7f}' by {
            if i > 0 {
                assert(cs[i] == cs.drop_first()[i - 1]);
            } else {
                lemma_char_below_0x80(cs[0]);
            }
        }
    }
}

/// ASCII bytes are valid UTF-8, and every index into them is a character boundary.
pub proof fn lemma_ascii_bytes_are_utf8(b: Seq<u8>)
    requires
        is_ascii_bytes(b),
    ensures
        valid_utf8(b),
        forall|i: int| 0 <= i <= b.len() ==> #[trigger] is_char_boundary(b, i),
{
    assert(b.subrange(0, 0) =~= Seq::<u8>::empty());
    assert(partial_valid_utf8(b, 0));
    assert forall|i: int| 0 <= 0 <= i < b.len() <= b.len() implies #[trigger] is_leading_byte_width_1(b[i]) by {
    }
    partial_valid_utf8_extend_ascii_block(b, 0, b.len() as int);
    assert(b.subrange(0, b.len() as int) =~= b);
    assert forall|i: int| 0 <= i <= b.len() implies #[trigger] is_char_boundary(b, i) by {
        if i < b.len() {
            is_char_boundary_iff_is_leading_byte(b, i);
        } else {
            is_char_boundary_start_end_of_seq(b);
        }
    }
}

/// In a string whose bytes are all ASCII, characters and bytes correspond one
/// to one, and every byte index is a character boundary.
pub proof fn lemma_ascii_str(s: &str)
    requires
        is_ascii_bytes(s.spec_bytes()),
    ensures
        is_ascii(s),
        s@.len() == s.spec_bytes().len(),
        forall|i: int| 0 <= i < s@.len() ==> #[trigger] s@[i] as u8 == s.spec_bytes()[i],
        forall|i: int| 0 <= i < s@.len() ==> (#[trigger] s@[i]) as u32 == s.spec_bytes()[i] as u32,
        forall|i: int| 0 <= i <= s.spec_bytes().len() ==> #[trigger] is_char_boundary(s.spec_bytes(), i),
{
    lemma_ascii_encoding_has_ascii_chars(s@);
    is_ascii_chars_encode_utf8(s@);
    encode_utf8_valid_utf8(s@);
    let b = s.spec_bytes();
    assert forall|i: int| 0 <= i <= b.len() implies #[trigger] is_char_boundary(b, i) by {
        if i < b.len() {
            is_char_boundary_iff_is_leading_byte(b, i);
        } else {
            is_char_boundary_start_end_of_seq(b);
        }
    }
    assert forall|i: int| 0 <= i < s@.len() implies (#[trigger] s@[i]) as u32 == s.spec_bytes()[i] as u32 by {
        assert(s@[i] as u8 == s.spec_bytes()[i]);
        assert('\0' <= s@[i] <= '\u{7f}');
    }
}

/// The bytes `from..to` of a string whose bytes are all ASCII.
pub fn ascii_substring<'a>(s: &'a str, from: usize, to: usize) -> (r: &'a str)
    requires
        is_ascii_bytes(s.spec_bytes()),
        from <= to <= s.spec_bytes().len(),
    ensures
        r.spec_bytes() == s.spec_bytes().subrange(from as int, to as int),
        r@ == s@.subrange(from as int, to as int),
        is_ascii_bytes(r.spec_bytes()),
{
    proof {
        lemma_ascii_str(s);
    }
    let (left, _) = s.split_at(to);
    proof {
        assert(is_ascii_bytes(left.spec_bytes()));
        lemma_ascii_str(left);
    }
    let (_, r) = left.split_at(from);
    proof {
        assert(is_ascii_bytes(r.spec_bytes()));
        lemma_ascii_str(r);
        assert(r@ =~= s@.subrange(from as int, to as int)) by {
            assert forall|i: int| 0 <= i < r@.len() implies r@[i] == s@[from + i] by {
                assert(r@[i] as u32 == r.spec_bytes()[i] as u32);
                assert(s@[from + i] as u32 == s.spec_bytes()[from + i] as u32);
                vstd::utf8::char_u32_cast(r@[i], r@[i] as u32);
            }
        }
    }
    r
}

} // verus!
