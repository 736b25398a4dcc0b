//! Specifications of the few string operations of `std` the library relies on
//! and that vstd does not describe, and string helpers proved from them.
use vstd::prelude::*;
use vstd::string::StringSliceAdditionalSpecFns;
use vstd::utf8::{encode_utf8, encode_utf8_decode_utf8, valid_utf8};

verus! {

/// The character for the decimal digit `d` (0 to 9).
pub open spec fn digit_char(d: int) -> char {
    (0x30 + d) as char
}

/// Decimal representation of `n`, without sign or leading zeros.
pub open spec fn decimal_chars(n: nat) -> Seq<char>
    decreases n,
{
    if n < 10 {
        seq![digit_char(n as int)]
    } else {
        decimal_chars(n / 10).push(digit_char((n % 10) as int))
    }
}

/// A character of the Unicode `White_Space` property, the set `str::trim`
/// removes.
pub open spec fn is_unicode_whitespace(c: char) -> bool {
    ||| '\u{9}' <= c <= '\u{d}'
    ||| c == ' '
    ||| c == '\u{85}'
    ||| c == '\u{a0}'
    ||| c == '\u{1680}'
    ||| '\u{2000}' <= c <= '\u{200a}'
    ||| c == '\u{2028}'
    ||| c == '\u{2029}'
    ||| c == '\u{202f}'
    ||| c == '\u{205f}'
    ||| c == '\u{3000}'
}

/// `s` without its leading whitespace.
pub open spec fn trim_start_chars(s: Seq<char>) -> Seq<char>
    decreases s.len(),
{
    if s.len() > 0 && is_unicode_whitespace(s[0]) {
        trim_start_chars(s.drop_first())
    } else {
        s
    }
}

/// `s` without its trailing whitespace.
pub open spec fn trim_end_chars(s: Seq<char>) -> Seq<char>
    decreases s.len(),
{
    if s.len() > 0 && is_unicode_whitespace(s.last()) {
        trim_end_chars(s.drop_last())
    } else {
        s
    }
}

/// `s` without its leading and trailing whitespace.
pub open spec fn trim_chars(s: Seq<char>) -> Seq<char> {
    trim_end_chars(trim_start_chars(s))
}

/// `s` with every occurrence of `from` replaced by `to`.
pub open spec fn replace_char_spec(s: Seq<char>, from: char, to: Seq<char>) -> Seq<char>
    decreases s.len(),
{
    if s.len() == 0 {
        Seq::empty()
    } else {
        replace_char_spec(s.drop_last(), from, to) + if s.last() == from {
            to
        } else {
            seq![s.last()]
        }
    }
}

/// `p` is a prefix of `s`.
pub open spec fn is_prefix(p: Seq<char>, s: Seq<char>) -> bool {
    p.len() <= s.len() && s.take(p.len() as int) == p
}

/// Removing leading whitespace keeps a suffix, which starts with a character
/// that is not whitespace, unless it is empty.
pub proof fn lemma_trim_start(s: Seq<char>)
    ensures
        trim_start_chars(s).len() <= s.len(),
        trim_start_chars(s) == s.subrange(s.len() - trim_start_chars(s).len(), s.len() as int),
        trim_start_chars(s).len() > 0 ==> !is_unicode_whitespace(trim_start_chars(s)[0]),
    decreases s.len(),
{
    if s.len() > 0 && is_unicode_whitespace(s[0]) {
        lemma_trim_start(s.drop_first());
        assert(s.drop_first().subrange(
            s.drop_first().len() - trim_start_chars(s).len(),
            s.drop_first().len() as int,
        ) =~= s.subrange(s.len() - trim_start_chars(s).len(), s.len() as int));
    } else {
        assert(s.subrange(0, s.len() as int) =~= s);
    }
}

/// Removing trailing whitespace keeps a prefix, which ends with a character
/// that is not whitespace, unless it is empty.
pub proof fn lemma_trim_end(s: Seq<char>)
    ensures
        trim_end_chars(s).len() <= s.len(),
        trim_end_chars(s) == s.subrange(0, trim_end_chars(s).len() as int),
        trim_end_chars(s).len() > 0 ==> !is_unicode_whitespace(trim_end_chars(s).last()),
    decreases s.len(),
{
    if s.len() > 0 && is_unicode_whitespace(s.last()) {
        lemma_trim_end(s.drop_last());
        assert(s.drop_last().subrange(0, trim_end_chars(s).len() as int) =~= s.subrange(
            0,
            trim_end_chars(s).len() as int,
        ));
    } else {
        assert(s.subrange(0, s.len() as int) =~= s);
    }
}

/// `trim` keeps a stretch of `s` that neither starts nor ends with
/// whitespace.
pub proof fn lemma_trim(s: Seq<char>)
    ensures
        ({
            let t = trim_chars(s);
            &&& t.len() > 0 ==> !is_unicode_whitespace(t[0]) && !is_unicode_whitespace(t.last())
            &&& forall|c: char| t.contains(c) ==> s.contains(c)
        }),
{
    let u = trim_start_chars(s);
    let t = trim_end_chars(u);
    lemma_trim_start(s);
    lemma_trim_end(u);
    if t.len() > 0 {
        assert(t[0] == u[0]);
    }
    assert forall|c: char| t.contains(c) implies s.contains(c) by {
        let k = choose|k: int| 0 <= k < t.len() && t[k] == c;
        assert(u[k] == c);
        assert(s[s.len() - u.len() + k] == c);
    }
}

/// A sequence that neither starts nor ends with whitespace is unchanged by
/// `trim`.
pub proof fn lemma_trim_keeps_trimmed(s: Seq<char>)
    requires
        s.len() > 0 ==> !is_unicode_whitespace(s[0]) && !is_unicode_whitespace(s.last()),
    ensures
        trim_chars(s) == s,
{
}

/// Removing every `from` leaves none of them, keeps only characters of `s`,
/// and keeps a first and a last character that are not `from`.
pub proof fn lemma_remove_char(s: Seq<char>, from: char)
    ensures
        ({
            let r = replace_char_spec(s, from, Seq::empty());
            &&& !r.contains(from)
            &&& forall|c: char| r.contains(c) ==> s.contains(c)
            &&& s.len() > 0 && s[0] != from ==> r.len() > 0 && r[0] == s[0]
            &&& s.len() > 0 && s.last() != from ==> r.len() > 0 && r.last() == s.last()
        }),
    decreases s.len(),
{
    if s.len() > 0 {
        let p = s.drop_last();
        lemma_remove_char(p, from);
        let rp = replace_char_spec(p, from, Seq::empty());
        let r = replace_char_spec(s, from, Seq::empty());
        if s.last() == from {
            assert(r =~= rp);
        } else {
            assert(r =~= rp.push(s.last()));
        }
        assert forall|c: char| r.contains(c) implies s.contains(c) by {
            let k = choose|k: int| 0 <= k < r.len() && r[k] == c;
            if k < rp.len() {
                assert(rp.contains(c));
                let j = choose|j: int| 0 <= j < p.len() && p[j] == c;
                assert(s[j] == c);
            } else {
                assert(s[s.len() - 1] == c);
            }
        }
        if s[0] != from && p.len() == 0 {
            assert(r[0] == s[0]);
        }
        if s[0] != from && p.len() > 0 {
            assert(p[0] == s[0]);
        }
    }
}

/// A character occurs in a concatenation exactly when it occurs in one of
/// its parts.
pub proof fn lemma_concat_contains(a: Seq<char>, b: Seq<char>, c: char)
    ensures
        (a + b).contains(c) <==> a.contains(c) || b.contains(c),
{
    if (a + b).contains(c) {
        let k = choose|k: int| 0 <= k < (a + b).len() && (a + b)[k] == c;
        if k >= a.len() {
            assert(b[k - a.len()] == c);
        }
    }
    if b.contains(c) {
        let k = choose|k: int| 0 <= k < b.len() && b[k] == c;
        assert((a + b)[k + a.len()] == c);
    }
    if a.contains(c) {
        let k = choose|k: int| 0 <= k < a.len() && a[k] == c;
        assert((a + b)[k] == c);
    }
}

/// A character of a stretch of `s` is a character of `s`.
pub proof fn lemma_subrange_contains(s: Seq<char>, i: int, j: int, c: char)
    requires
        0 <= i <= j <= s.len(),
        s.subrange(i, j).contains(c),
    ensures
        s.contains(c),
{
    let k = choose|k: int| 0 <= k < j - i && s.subrange(i, j)[k] == c;
    assert(s[i + k] == c);
}

/// The characters of `s` with every `from` replaced by `to` come from `s` or
/// from `to`.
pub proof fn lemma_replace_char_contents(s: Seq<char>, from: char, to: Seq<char>, c: char)
    requires
        replace_char_spec(s, from, to).contains(c),
    ensures
        s.contains(c) || to.contains(c),
    decreases s.len(),
{
    if s.len() > 0 {
        let p = s.drop_last();
        let tail = if s.last() == from {
            to
        } else {
            seq![s.last()]
        };
        lemma_concat_contains(replace_char_spec(p, from, to), tail, c);
        if replace_char_spec(p, from, to).contains(c) {
            lemma_replace_char_contents(p, from, to, c);
            if p.contains(c) {
                let k = choose|k: int| 0 <= k < p.len() && p[k] == c;
                assert(s[k] == c);
            }
        } else if s.last() != from {
            assert(tail[0] == c);
            assert(s[s.len() - 1] == c);
        }
    }
}

/// The decimal representation of a number is made of digits.
pub proof fn lemma_decimal_digits(n: nat, c: char)
    requires
        decimal_chars(n).contains(c),
    ensures
        '0' <= c <= '9',
    decreases n,
{
    if n < 10 {
        assert(decimal_chars(n)[0] == c);
    } else {
        let p = decimal_chars(n / 10);
        let k = choose|k: int| 0 <= k < decimal_chars(n).len() && decimal_chars(n)[k] == c;
        if k < p.len() {
            assert(p[k] == c);
            lemma_decimal_digits(n / 10, c);
        }
    }
}

/// `usize::to_string`: the decimal digits of `n`.
#[verifier::external_body]
pub fn usize_to_string(n: usize) -> (s: String)
    ensures
        s@ == decimal_chars(n as nat),
{
    n.to_string()
}

/// `str::trim`: `s` without leading and trailing Unicode whitespace.
#[verifier::external_body]
pub fn trim<'a>(s: &'a str) -> (t: &'a str)
    ensures
        t@ == trim_chars(s@),
{
    s.trim()
}

/// `str::contains` with a `char` pattern: whether `c` occurs in `s`.
#[verifier::external_body]
pub fn contains_char(s: &str, c: char) -> (found: bool)
    ensures
        found == s@.contains(c),
{
    s.contains(c)
}

/// `str::replace` with a `char` pattern: `s` with every `from` replaced by `to`.
#[verifier::external_body]
pub fn replace_char(s: &str, from: char, to: &str) -> (r: String)
    ensures
        r@ == replace_char_spec(s@, from, to@),
{
    s.replace(from, to)
}

/// `str::strip_prefix` with a `&str` pattern: the rest of `s` after `prefix`,
/// if `s` starts with it.
#[verifier::external_body]
pub fn strip_prefix<'a>(s: &'a str, prefix: &str) -> (rest: Option<&'a str>)
    ensures
        match rest {
            Some(r) => is_prefix(prefix@, s@) && r@ == s@.skip(prefix@.len() as int),
            None => !is_prefix(prefix@, s@),
        },
{
    s.strip_prefix(prefix)
}

/// `std::str::from_utf8`: the bytes as a string when they are valid UTF-8.
#[verifier::external_body]
pub fn str_from_utf8(bytes: &[u8]) -> (s: Option<&str>)
    ensures
        match s {
            Some(s) => valid_utf8(bytes@) && s.spec_bytes() == bytes@,
            None => !valid_utf8(bytes@),
        },
{
    std::str::from_utf8(bytes).ok()
}

/// Whether two strings hold the same characters.
pub fn str_eq(a: &str, b: &str) -> (eq: bool)
    ensures
        eq == (a@ == b@),
{
    let x = a.as_bytes();
    let y = b.as_bytes();
    proof {
        encode_utf8_decode_utf8(a@);
        encode_utf8_decode_utf8(b@);
    }
    if x.len() != y.len() {
        return false;
    }
    let mut i: usize = 0;
    while i < x.len()
        invariant
            x@ == a.spec_bytes(),
            y@ == b.spec_bytes(),
            x@.len() == y@.len(),
            i <= x@.len(),
            forall|j: int| 0 <= j < i ==> x@[j] == y@[j],
        decreases x@.len() - i,
    {
        if x[i] != y[i] {
            return false;
        }
        i += 1;
    }
    proof {
        assert(x@ =~= y@);
    }
    true
}

} // verus!
