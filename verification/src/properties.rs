//! Properties of validation that hold across inputs, country sets and the two
//! input formats.
use vstd::prelude::*;

use crate::ascii::{is_ascii_bytes, lemma_ascii_bytes_are_utf8};
use crate::letters::lemma_class_value_bounds;
use crate::mod97::{char_values, decimal_value, lemma_mod97_fold_is_remainder, mod97_fold};
use crate::registry::{
    country_fields, lemma_country_fields_well_formed, lemma_country_sets_nest, non_registry_fields,
    registry_fields, CountrySet, IbanFields,
};
use crate::c_api::{numeric_result, view_span};
use crate::records::country_status_spec;
use crate::strings::replace_char_spec;
use crate::validation::{
    checksum_values, identifier_span, is_forbidden_check_digits, numeric_outcome, position_value,
    rearranged, spec_validate, spec_validate_print, structure_matches, without_spaces,
    ValidationError, RAW_LIMIT,
};

verus! {

/// The checksum values of a well-formed rearranged IBAN are character values.
proof fn lemma_checksum_values_are_char_values(f: IbanFields, r: Seq<u8>)
    requires
        structure_matches(f, r),
    ensures
        char_values(checksum_values(f, r)),
        is_ascii_bytes(r),
        forall|i: int| 0 <= i < r.len() ==> #[trigger] r[i] != 0x20,
{
    assert forall|i: int| 0 <= i < r.len() implies 0 <= #[trigger] checksum_values(f, r)[i] < 36 by {
        assert(position_value(f, r, i) is Some);
        lemma_class_value_bounds(f.class_at(i), r[i]);
    }
    assert forall|i: int| 0 <= i < r.len() implies #[trigger] r[i] < 0x80 && r[i] != 0x20 by {
        assert(position_value(f, r, i) is Some);
        lemma_class_value_bounds(f.class_at(i), r[i]);
    }
}

/// The bytes of a rearranged IBAN are those of the IBAN, in another order.
proof fn lemma_rearranged_bytes(b: Seq<u8>, i: int)
    requires
        b.len() >= 4,
        0 <= i < b.len(),
    ensures
        b[i] == rearranged(b)[if i >= 4 { i - 4 } else { i + b.len() - 4 }],
{
}

/// An accepted IBAN passes the ISO 7064 MOD 97-10 check: the number written
/// by its rearranged characters (digits as themselves, letters as 10 to 35)
/// leaves the remainder 1 when divided by 97. Its length is that of its
/// country, its check digits are not 00, 01 or 99, every character is in the
/// set its position requires, and none is a space or outside ASCII.
pub proof fn lemma_accepted_iban_passes_checksum(b: Seq<u8>, set: CountrySet)
    requires
        spec_validate(b, set) is Ok,
    ensures
        ({
            let f = spec_validate(b, set)->Ok_0;
            &&& country_fields(b[0], b[1], set) == Some(f)
            &&& b.len() == f.spec_iban_len()
            &&& !is_forbidden_check_digits(b[2], b[3])
            &&& structure_matches(f, rearranged(b))
            &&& decimal_value(checksum_values(f, rearranged(b))) % 97 == 1
            &&& is_ascii_bytes(b)
            &&& forall|i: int| 0 <= i < b.len() ==> #[trigger] b[i] != 0x20
        }),
{
    let f = spec_validate(b, set)->Ok_0;
    lemma_country_fields_well_formed(b[0], b[1], set);
    let r = rearranged(b);
    lemma_checksum_values_are_char_values(f, r);
    lemma_mod97_fold_is_remainder(checksum_values(f, r));
    assert forall|i: int| 0 <= i < b.len() implies #[trigger] b[i] != 0x20 && b[i] < 0x80 by {
        lemma_rearranged_bytes(b, i);
    }
}

/// Conversely, an IBAN in ASCII whose country is known, whose length is that
/// of its country, whose check digits are not 00, 01 or 99, whose characters
/// are in the sets their positions require and whose rearranged number leaves
/// the remainder 1 when divided by 97 is accepted, with its country's
/// definition.
pub proof fn lemma_checksum_iban_is_accepted(b: Seq<u8>, set: CountrySet, f: IbanFields)
    requires
        is_ascii_bytes(b),
        b.len() >= 2,
        country_fields(b[0], b[1], set) == Some(f),
        b.len() == f.spec_iban_len(),
        !is_forbidden_check_digits(b[2], b[3]),
        structure_matches(f, rearranged(b)),
        decimal_value(checksum_values(f, rearranged(b))) % 97 == 1,
    ensures
        spec_validate(b, set) == Ok::<IbanFields, ValidationError>(f),
{
    lemma_country_fields_well_formed(b[0], b[1], set);
    lemma_ascii_bytes_are_utf8(b);
    assert(vstd::utf8::is_char_boundary(b, 2));
    assert(vstd::utf8::is_char_boundary(b, 4));
    let r = rearranged(b);
    lemma_checksum_values_are_char_values(f, r);
    lemma_mod97_fold_is_remainder(checksum_values(f, r));
}

/// Allowing the non-registry countries only widens what is accepted: an IBAN
/// of a registry country gets the same outcome in both country sets, in
/// electronic and in print format.
pub proof fn lemma_non_registry_only_adds(b: Seq<u8>)
    ensures
        b.len() >= 2 && registry_fields(b[0], b[1]) is Some ==> spec_validate(b, CountrySet::Registry)
            == spec_validate(b, CountrySet::WithNonRegistry),
        spec_validate(b, CountrySet::Registry) is Ok ==> spec_validate(b, CountrySet::Registry)
            == spec_validate(b, CountrySet::WithNonRegistry),
        spec_validate_print(b, CountrySet::Registry) is Ok ==> spec_validate_print(
            b,
            CountrySet::Registry,
        ) == spec_validate_print(b, CountrySet::WithNonRegistry),
{
    if b.len() >= 2 {
        lemma_country_sets_nest(b[0], b[1]);
    }
    let l = without_spaces(if b.len() <= RAW_LIMIT + 1 { b } else { b.take(RAW_LIMIT + 1) });
    if l.len() >= 4 {
        lemma_country_sets_nest(l[0], l[1]);
    }
}

/// Without the opt-in, an IBAN of a country outside the registry is refused,
/// for its country as soon as its first two bytes are characters.
pub proof fn lemma_registry_mode_refuses_non_registry(b: Seq<u8>)
    requires
        b.len() >= 2,
        non_registry_fields(b[0], b[1]) is Some,
    ensures
        spec_validate(b, CountrySet::Registry) is Err,
        vstd::utf8::is_char_boundary(b, 2) ==> spec_validate(b, CountrySet::Registry) == Err::<
            IbanFields,
            ValidationError,
        >(ValidationError::InvalidCountry),
{
    lemma_country_sets_nest(b[0], b[1]);
}

/// Spaces in print format input are ignored: up to the length limit, input in
/// print format is accepted exactly when the input without its spaces is an
/// IBAN in electronic format, and then both give the same country.
pub proof fn lemma_print_format_ignores_spaces(b: Seq<u8>, set: CountrySet)
    requires
        b.len() <= RAW_LIMIT + 1,
    ensures
        spec_validate_print(b, set) is Ok <==> spec_validate(without_spaces(b), set) is Ok,
        spec_validate_print(b, set) is Ok ==> spec_validate_print(b, set) == spec_validate(
            without_spaces(b),
            set,
        ),
{
    let l = without_spaces(b);
    if spec_validate_print(b, set) is Ok {
        let f = country_fields(l[0], l[1], set).unwrap();
        lemma_country_fields_well_formed(l[0], l[1], set);
        let q = rearranged(l);
        assert(q.take(f.spec_iban_len()) =~= q);
        lemma_checksum_values_are_char_values(f, q);
        assert forall|i: int| 0 <= i < l.len() implies #[trigger] l[i] < 0x80 by {
            lemma_rearranged_bytes(l, i);
        }
        lemma_ascii_bytes_are_utf8(l);
    }
    if spec_validate(l, set) is Ok {
        let f = country_fields(l[0], l[1], set).unwrap();
        lemma_country_fields_well_formed(l[0], l[1], set);
        let q = rearranged(l);
        assert(q.take(f.spec_iban_len()) =~= q);
    }
}

/// For an accepted IBAN, the numeric positions of the bank and branch
/// identifiers are ranges after the country code and check digits and within
/// the IBAN, the branch after the bank; an absent identifier is `(0, 0)`.
pub proof fn lemma_numeric_positions_in_bounds(b: Seq<u8>, set: CountrySet)
    requires
        spec_validate(b, set) is Ok,
    ensures
        ({
            let o = numeric_outcome(spec_validate(b, set)->Ok_0);
            &&& o.0
            &&& o.2 == 0 ==> o.1 == 0
            &&& o.2 != 0 ==> 4 <= o.1 < o.2 <= b.len()
            &&& o.4 == 0 ==> o.3 == 0
            &&& o.4 != 0 ==> 4 <= o.3 < o.4 <= b.len()
            &&& o.2 != 0 && o.4 != 0 ==> o.2 <= o.3
        }),
{
    lemma_country_fields_well_formed(b[0], b[1], set);
}

/// The three ways of locating the identifiers of an accepted IBAN agree: the
/// numeric positions and the spans of a view designate exactly the bytes
/// that [`crate::Iban`] takes as its bank and branch identifiers, and each
/// says "none" exactly when the others do.
pub proof fn lemma_identifier_positions_agree(b: Seq<u8>, set: CountrySet)
    requires
        spec_validate(b, set) is Ok,
    ensures
        ({
            let f = spec_validate(b, set)->Ok_0;
            let r = numeric_result(f);
            let bank = identifier_span(f.bank_id_pos_s, f.bank_id_pos_e, b.len() as int);
            let branch = identifier_span(f.branch_id_pos_s, f.branch_id_pos_e, b.len() as int);
            &&& r.is_valid
            &&& bank matches Some((from, to)) ==> r.bank_s == from && r.bank_e == to
            &&& bank is None ==> r.bank_s == 0 && r.bank_e == 0
            &&& branch matches Some((from, to)) ==> r.branch_s == from && r.branch_e == to
            &&& branch is None ==> r.branch_s == 0 && r.branch_e == 0
            &&& bank matches Some((from, to)) ==> view_span(f.bank_id_pos_s, f.bank_id_pos_e)
                matches Some(v) && v.offset == from && v.len == to - from
            &&& bank is None ==> view_span(f.bank_id_pos_s, f.bank_id_pos_e) is None
            &&& branch matches Some((from, to)) ==> view_span(f.branch_id_pos_s, f.branch_id_pos_e)
                matches Some(v) && v.offset == from && v.len == to - from
            &&& branch is None ==> view_span(f.branch_id_pos_s, f.branch_id_pos_e) is None
        }),
{
    lemma_country_fields_well_formed(b[0], b[1], set);
}

/// The UTF-8 encoding of a concatenation is the concatenation of the
/// encodings.
proof fn lemma_encode_concat(a: Seq<char>, b: Seq<char>)
    ensures
        vstd::utf8::encode_utf8(a + b) == vstd::utf8::encode_utf8(a) + vstd::utf8::encode_utf8(b),
    decreases a.len(),
{
    if a.len() > 0 {
        assert((a + b).drop_first() =~= a.drop_first() + b);
        lemma_encode_concat(a.drop_first(), b);
        assert((a + b)[0] == a[0]);
    } else {
        assert(a + b =~= b);
    }
}

proof fn lemma_without_spaces_concat(x: Seq<u8>, y: Seq<u8>)
    ensures
        without_spaces(x + y) == without_spaces(x) + without_spaces(y),
    decreases y.len(),
{
    if y.len() > 0 {
        assert((x + y).drop_last() =~= x + y.drop_last());
        lemma_without_spaces_concat(x, y.drop_last());
        if y.last() != 0x20 {
            assert(without_spaces(x) + without_spaces(y.drop_last()).push(y.last()) =~= (without_spaces(x)
                + without_spaces(y.drop_last())).push(y.last()));
        }
    } else {
        assert(x + y =~= x);
        assert(without_spaces(x) + Seq::<u8>::empty() =~= without_spaces(x));
    }
}

proof fn lemma_without_spaces_keeps(x: Seq<u8>)
    requires
        !x.contains(0x20),
    ensures
        without_spaces(x) == x,
    decreases x.len(),
{
    if x.len() > 0 {
        assert(x[x.len() - 1] != 0x20);
        assert forall|k: int| 0 <= k < x.drop_last().len() implies x.drop_last()[k] != 0x20 by {
            assert(x[k] != 0x20);
        }
        lemma_without_spaces_keeps(x.drop_last());
        assert(x.drop_last().push(x.last()) =~= x);
    }
}

/// Removing the space characters of a text removes the space bytes of its
/// encoding.
proof fn lemma_encode_without_spaces(s: Seq<char>)
    ensures
        vstd::utf8::encode_utf8(replace_char_spec(s, ' ', Seq::empty())) == without_spaces(
            vstd::utf8::encode_utf8(s),
        ),
    decreases s.len(),
{
    if s.len() > 0 {
        let p = s.drop_last();
        let c = s.last();
        let one = seq![c];
        assert(s =~= p + one);
        lemma_encode_without_spaces(p);
        lemma_encode_concat(p, one);
        lemma_without_spaces_concat(vstd::utf8::encode_utf8(p), vstd::utf8::encode_utf8(one));
        let tail = if c == ' ' {
            Seq::<char>::empty()
        } else {
            one
        };
        assert(replace_char_spec(s, ' ', Seq::empty()) == replace_char_spec(p, ' ', Seq::empty()) + tail);
        lemma_encode_concat(replace_char_spec(p, ' ', Seq::empty()), tail);
        crate::ascii::lemma_encoded_ascii_char(one, ' ', 0x20);
        if c == ' ' {
            vstd::utf8::is_ascii_chars_encode_utf8(one);
            assert(vstd::utf8::encode_utf8(one) =~= seq![0x20u8]);
            assert(seq![0x20u8].drop_last() =~= Seq::<u8>::empty());
            assert(without_spaces(seq![0x20u8]) == without_spaces(Seq::<u8>::empty()));
            assert(vstd::utf8::encode_utf8(tail) =~= Seq::<u8>::empty());
            assert(without_spaces(Seq::<u8>::empty()) =~= Seq::<u8>::empty());
        } else {
            assert(!one.contains(' ')) by {
                if one.contains(' ') {
                    let k = choose|k: int| 0 <= k < one.len() && one[k] == ' ';
                    assert(one[k] == c);
                }
            }
            lemma_without_spaces_keeps(vstd::utf8::encode_utf8(one));
        }
        assert(vstd::utf8::encode_utf8(p) + vstd::utf8::encode_utf8(one) == vstd::utf8::encode_utf8(s));
    } else {
        assert(vstd::utf8::encode_utf8(s) =~= Seq::<u8>::empty());
    }
}

/// Print format validation of a text is electronic validation of the text
/// with its spaces removed, as `str::replace(' ', "")` removes them, up to
/// the length limit: the same IBANs are accepted, with the same country.
pub proof fn lemma_print_format_is_validation_without_spaces(s: Seq<char>, set: CountrySet)
    requires
        vstd::utf8::encode_utf8(s).len() <= RAW_LIMIT + 1,
    ensures
        spec_validate_print(vstd::utf8::encode_utf8(s), set) is Ok <==> spec_validate(
            vstd::utf8::encode_utf8(replace_char_spec(s, ' ', ""@)),
            set,
        ) is Ok,
        spec_validate_print(vstd::utf8::encode_utf8(s), set) is Ok ==> spec_validate_print(
            vstd::utf8::encode_utf8(s),
            set,
        ) == spec_validate(vstd::utf8::encode_utf8(replace_char_spec(s, ' ', ""@)), set),
{
    reveal_strlit("");
    assert(""@ =~= Seq::<char>::empty());
    lemma_encode_without_spaces(s);
    lemma_print_format_ignores_spaces(vstd::utf8::encode_utf8(s), set);
}

/// The data-frame plugin's class of a value is `invalid` exactly when
/// validation with the wider country set refuses it, `registry` exactly when
/// validation against the registry alone accepts it, and `non_registry`
/// exactly when only the wider set accepts it.
pub proof fn lemma_country_status_classifies(b: Seq<u8>)
    ensures
        country_status_spec(b) == "invalid"@ <==> spec_validate(b, CountrySet::WithNonRegistry) is Err,
        country_status_spec(b) == "registry"@ <==> spec_validate(b, CountrySet::Registry) is Ok,
        country_status_spec(b) == "non_registry"@ <==> spec_validate(b, CountrySet::WithNonRegistry) is Ok
            && spec_validate(b, CountrySet::Registry) is Err,
{
    reveal_strlit("invalid");
    reveal_strlit("registry");
    reveal_strlit("non_registry");
    assert("invalid"@.len() == 7 && "registry"@.len() == 8 && "non_registry"@.len() == 12);
    lemma_non_registry_only_adds(b);
    if b.len() >= 2 {
        lemma_country_sets_nest(b[0], b[1]);
    }
}

} // verus!
