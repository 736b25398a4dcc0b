//! The structure the SWIFT IBAN registry publishes for each country, in the
//! registry's own notation, and the proof that the definitions validation
//! uses follow it: the character set of every BBAN position and the place of
//! the bank and branch identifiers.
use vstd::prelude::*;

use crate::letters::{class_value_spec, is_digit, is_lower, is_upper, CharClass};
use crate::registry::{
    country_fields, end_of, lemma_country_sets_nest, non_registry_fields, registry_fields,
    registry_fields_a, registry_fields_b, registry_fields_c_to_d, registry_fields_e_to_f,
    registry_fields_g_to_h, registry_fields_i_to_k, registry_fields_l, registry_fields_m,
    registry_fields_n_to_q, registry_fields_r, registry_fields_s, registry_fields_t_to_y,
    start_of, CountrySet, IbanFields,
};
use crate::validation::{numeric_outcome, position_value, rearranged, spec_validate};

verus! {

/// A segment of the registry notation: `n` positions of the set `letter`
/// (`n` for digits, `a` for uppercase letters, `c` for digits and letters),
/// written `4!a` in the registry.
pub open spec fn segment(n: nat, letter: char) -> Seq<char> {
    Seq::new(n, |_i: int| letter)
}

/// What the registry publishes for a country: the set letter of every BBAN
/// position, and the positions (1-based, inclusive, within the BBAN) of the
/// bank and branch identifiers.
pub struct CountryStructure {
    pub letters: Seq<char>,
    pub bank: Option<(usize, usize)>,
    pub branch: Option<(usize, usize)>,
}

/// A country structure.
pub open spec fn structure(letters: Seq<char>, bank: Option<(usize, usize)>, branch: Option<(usize, usize)>) -> CountryStructure {
    CountryStructure { letters, bank, branch }
}

/// The registry letter of a character set.
pub open spec fn class_letter(c: CharClass) -> char {
    match c {
        CharClass::Numeric => 'n',
        CharClass::Alphabetic => 'a',
        CharClass::Alphanumeric => 'c',
    }
}

/// The bytes the registry letter `letter` admits: a digit for `n`, an
/// uppercase letter for `a`, and a digit or a letter of either case for `c`.
pub open spec fn admits(letter: char, b: u8) -> bool {
    if letter == 'n' {
        is_digit(b)
    } else if letter == 'a' {
        is_upper(b)
    } else {
        is_digit(b) || is_upper(b) || is_lower(b)
    }
}

/// The definition `f` follows the published structure `s`: the same BBAN
/// length, the same character set at every position, and the same bank and
/// branch positions.
pub open spec fn follows_structure(f: IbanFields, s: CountryStructure) -> bool {
    &&& f.bban_format.spec_len() == s.letters.len()
    &&& forall|i: int|
        0 <= i < s.letters.len() ==> class_letter(#[trigger] f.bban_format.class_at(i)) == s.letters[i]
    &&& f.bank_id_pos_s == start_of(s.bank)
    &&& f.bank_id_pos_e == end_of(s.bank)
    &&& f.branch_id_pos_s == start_of(s.branch)
    &&& f.branch_id_pos_e == end_of(s.branch)
}

/// The structure the SWIFT IBAN registry gives the country `c0 c1`, if it is in the registry.
pub open spec fn registry_structure(c0: u8, c1: u8) -> Option<CountryStructure> {
    let first = c0 as char;
    if 'A' <= first && first <= 'A' {
        registry_structure_a(c0, c1)
    } else if 'B' <= first && first <= 'B' {
        registry_structure_b(c0, c1)
    } else if 'C' <= first && first <= 'D' {
        registry_structure_c_to_d(c0, c1)
    } else if 'E' <= first && first <= 'F' {
        registry_structure_e_to_f(c0, c1)
    } else if 'G' <= first && first <= 'H' {
        registry_structure_g_to_h(c0, c1)
    } else if 'I' <= first && first <= 'K' {
        registry_structure_i_to_k(c0, c1)
    } else if 'L' <= first && first <= 'L' {
        registry_structure_l(c0, c1)
    } else if 'M' <= first && first <= 'M' {
        registry_structure_m(c0, c1)
    } else if 'N' <= first && first <= 'Q' {
        registry_structure_n_to_q(c0, c1)
    } else if 'R' <= first && first <= 'R' {
        registry_structure_r(c0, c1)
    } else if 'S' <= first && first <= 'S' {
        registry_structure_s(c0, c1)
    } else if 'T' <= first && first <= 'Y' {
        registry_structure_t_to_y(c0, c1)
    } else {
        None
    }
}

/// Registry structures of the countries whose code starts with `A`.
pub open spec fn registry_structure_a(c0: u8, c1: u8) -> Option<CountryStructure> {
    match c0 as char {
        'A' => match c1 as char {
            'D' => Some(structure(segment(4, 'n') + segment(4, 'n') + segment(12, 'c'), Some((1, 4)), Some((5, 8)))),  // 4!n4!n12!c
            'E' => Some(structure(segment(3, 'n') + segment(16, 'n'), Some((1, 3)), None)),  // 3!n16!n
            'L' => Some(structure(segment(8, 'n') + segment(16, 'c'), Some((1, 3)), Some((4, 8)))),  // 8!n16!c
            'T' => Some(structure(segment(5, 'n') + segment(11, 'n'), Some((1, 5)), None)),  // 5!n11!n
            'Z' => Some(structure(segment(4, 'a') + segment(20, 'c'), Some((1, 4)), None)),  // 4!a20!c
            _ => None,
        },
        _ => None,
    }
}

/// Registry structures of the countries whose code starts with `B`.
pub open spec fn registry_structure_b(c0: u8, c1: u8) -> Option<CountryStructure> {
    match c0 as char {
        'B' => match c1 as char {
            'A' => Some(structure(segment(3, 'n') + segment(3, 'n') + segment(8, 'n') + segment(2, 'n'), Some((1, 3)), Some((4, 6)))),  // 3!n3!n8!n2!n
            'E' => Some(structure(segment(3, 'n') + segment(7, 'n') + segment(2, 'n'), Some((1, 3)), None)),  // 3!n7!n2!n
            'G' => Some(structure(segment(4, 'a') + segment(4, 'n') + segment(2, 'n') + segment(8, 'c'), Some((1, 4)), Some((5, 8)))),  // 4!a4!n2!n8!c
            'H' => Some(structure(segment(4, 'a') + segment(14, 'c'), Some((1, 4)), None)),  // 4!a14!c
            'I' => Some(structure(segment(5, 'n') + segment(5, 'n') + segment(11, 'n') + segment(2, 'n'), Some((1, 5)), Some((6, 10)))),  // 5!n5!n11!n2!n
            'R' => Some(structure(segment(8, 'n') + segment(5, 'n') + segment(10, 'n') + segment(1, 'a') + segment(1, 'c'), Some((1, 8)), Some((9, 13)))),  // 8!n5!n10!n1!a1!c
            'Y' => Some(structure(segment(4, 'c') + segment(4, 'n') + segment(16, 'c'), Some((1, 4)), None)),  // 4!c4!n16!c
            _ => None,
        },
        _ => None,
    }
}

/// Registry structures of the countries whose code starts with `C` to `D`.
pub open spec fn registry_structure_c_to_d(c0: u8, c1: u8) -> Option<CountryStructure> {
    match c0 as char {
        'C' => match c1 as char {
            'H' => Some(structure(segment(5, 'n') + segment(12, 'c'), Some((1, 5)), None)),  // 5!n12!c
            'R' => Some(structure(segment(4, 'n') + segment(14, 'n'), Some((1, 4)), None)),  // 4!n14!n
            'Y' => Some(structure(segment(3, 'n') + segment(5, 'n') + segment(16, 'c'), Some((1, 3)), Some((4, 8)))),  // 3!n5!n16!c
            'Z' => Some(structure(segment(4, 'n') + segment(6, 'n') + segment(10, 'n'), Some((1, 4)), None)),  // 4!n6!n10!n
            _ => None,
        },
        'D' => match c1 as char {
            'E' => Some(structure(segment(8, 'n') + segment(10, 'n'), Some((1, 8)), None)),  // 8!n10!n
            'J' => Some(structure(segment(5, 'n') + segment(5, 'n') + segment(11, 'n') + segment(2, 'n'), Some((1, 5)), Some((6, 10)))),  // 5!n5!n11!n2!n
            'K' => Some(structure(segment(4, 'n') + segment(9, 'n') + segment(1, 'n'), Some((1, 4)), None)),  // 4!n9!n1!n
            'O' => Some(structure(segment(4, 'c') + segment(20, 'n'), Some((1, 4)), None)),  // 4!c20!n
            _ => None,
        },
        _ => None,
    }
}

/// Registry structures of the countries whose code starts with `E` to `F`.
pub open spec fn registry_structure_e_to_f(c0: u8, c1: u8) -> Option<CountryStructure> {
    match c0 as char {
        'E' => match c1 as char {
            'E' => Some(structure(segment(2, 'n') + segment(14, 'n'), Some((1, 2)), None)),  // 2!n14!n
            'G' => Some(structure(segment(4, 'n') + segment(4, 'n') + segment(17, 'n'), Some((1, 4)), Some((5, 8)))),  // 4!n4!n17!n
            'S' => Some(structure(segment(4, 'n') + segment(4, 'n') + segment(1, 'n') + segment(1, 'n') + segment(10, 'n'), Some((1, 4)), Some((5, 8)))),  // 4!n4!n1!n1!n10!n
            _ => None,
        },
        'F' => match c1 as char {
            'I' => Some(structure(segment(3, 'n') + segment(11, 'n'), Some((1, 3)), None)),  // 3!n11!n
            'K' => Some(structure(segment(2, 'a') + segment(12, 'n'), Some((1, 2)), None)),  // 2!a12!n
            'O' => Some(structure(segment(4, 'n') + segment(9, 'n') + segment(1, 'n'), Some((1, 4)), None)),  // 4!n9!n1!n
            'R' => Some(structure(segment(5, 'n') + segment(5, 'n') + segment(11, 'c') + segment(2, 'n'), Some((1, 5)), Some((6, 10)))),  // 5!n5!n11!c2!n
            _ => None,
        },
        _ => None,
    }
}

/// Registry structures of the countries whose code starts with `G` to `H`.
pub open spec fn registry_structure_g_to_h(c0: u8, c1: u8) -> Option<CountryStructure> {
    match c0 as char {
        'G' => match c1 as char {
            'B' => Some(structure(segment(4, 'a') + segment(6, 'n') + segment(8, 'n'), Some((1, 4)), Some((5, 10)))),  // 4!a6!n8!n
            'E' => Some(structure(segment(2, 'a') + segment(16, 'n'), Some((1, 2)), None)),  // 2!a16!n
            'I' => Some(structure(segment(4, 'a') + segment(15, 'c'), Some((1, 4)), None)),  // 4!a15!c
            'L' => Some(structure(segment(4, 'n') + segment(9, 'n') + segment(1, 'n'), Some((1, 4)), None)),  // 4!n9!n1!n
            'R' => Some(structure(segment(3, 'n') + segment(4, 'n') + segment(16, 'c'), Some((1, 3)), Some((4, 7)))),  // 3!n4!n16!c
            'T' => Some(structure(segment(4, 'c') + segment(20, 'c'), Some((1, 4)), None)),  // 4!c20!c
            _ => None,
        },
        'H' => match c1 as char {
            'N' => Some(structure(segment(4, 'a') + segment(20, 'n'), Some((1, 4)), None)),  // 4!a20!n
            'R' => Some(structure(segment(7, 'n') + segment(10, 'n'), Some((1, 7)), None)),  // 7!n10!n
            'U' => Some(structure(segment(3, 'n') + segment(4, 'n') + segment(1, 'n') + segment(15, 'n') + segment(1, 'n'), Some((1, 3)), Some((4, 7)))),  // 3!n4!n1!n15!n1!n
            _ => None,
        },
        _ => None,
    }
}

/// Registry structures of the countries whose code starts with `I` to `K`.
pub open spec fn registry_structure_i_to_k(c0: u8, c1: u8) -> Option<CountryStructure> {
    match c0 as char {
        'I' => match c1 as char {
            'E' => Some(structure(segment(4, 'a') + segment(6, 'n') + segment(8, 'n'), Some((1, 4)), Some((5, 10)))),  // 4!a6!n8!n
            'L' => Some(structure(segment(3, 'n') + segment(3, 'n') + segment(13, 'n'), Some((1, 3)), Some((4, 6)))),  // 3!n3!n13!n
            'Q' => Some(structure(segment(4, 'a') + segment(3, 'n') + segment(12, 'n'), Some((1, 4)), Some((5, 7)))),  // 4!a3!n12!n
            'S' => Some(structure(segment(4, 'n') + segment(2, 'n') + segment(6, 'n') + segment(10, 'n'), Some((1, 2)), Some((3, 4)))),  // 4!n2!n6!n10!n
            'T' => Some(structure(segment(1, 'a') + segment(5, 'n') + segment(5, 'n') + segment(12, 'c'), Some((2, 6)), Some((7, 11)))),  // 1!a5!n5!n12!c
            _ => None,
        },
        'J' => match c1 as char {
            'O' => Some(structure(segment(4, 'a') + segment(4, 'n') + segment(18, 'c'), Some((1, 4)), Some((5, 8)))),  // 4!a4!n18!c
            _ => None,
        },
        'K' => match c1 as char {
            'W' => Some(structure(segment(4, 'a') + segment(22, 'c'), Some((1, 4)), None)),  // 4!a22!c
            'Z' => Some(structure(segment(3, 'n') + segment(13, 'c'), Some((1, 3)), None)),  // 3!n13!c
            _ => None,
        },
        _ => None,
    }
}

/// Registry structures of the countries whose code starts with `L`.
pub open spec fn registry_structure_l(c0: u8, c1: u8) -> Option<CountryStructure> {
    match c0 as char {
        'L' => match c1 as char {
            'B' => Some(structure(segment(4, 'n') + segment(20, 'c'), Some((1, 4)), None)),  // 4!n20!c
            'C' => Some(structure(segment(4, 'a') + segment(24, 'c'), Some((1, 4)), None)),  // 4!a24!c
            'I' => Some(structure(segment(5, 'n') + segment(12, 'c'), Some((1, 5)), None)),  // 5!n12!c
            'T' => Some(structure(segment(5, 'n') + segment(11, 'n'), Some((1, 5)), None)),  // 5!n11!n
            'U' => Some(structure(segment(3, 'n') + segment(13, 'c'), Some((1, 3)), None)),  // 3!n13!c
            'V' => Some(structure(segment(4, 'a') + segment(13, 'c'), Some((1, 4)), None)),  // 4!a13!c
            'Y' => Some(structure(segment(3, 'n') + segment(3, 'n') + segment(15, 'n'), Some((1, 3)), Some((4, 6)))),  // 3!n3!n15!n
            _ => None,
        },
        _ => None,
    }
}

/// Registry structures of the countries whose code starts with `M`.
pub open spec fn registry_structure_m(c0: u8, c1: u8) -> Option<CountryStructure> {
    match c0 as char {
        'M' => match c1 as char {
            'C' => Some(structure(segment(5, 'n') + segment(5, 'n') + segment(11, 'c') + segment(2, 'n'), Some((1, 5)), Some((6, 10)))),  // 5!n5!n11!c2!n
            'D' => Some(structure(segment(2, 'c') + segment(18, 'c'), Some((1, 2)), None)),  // 2!c18!c
            'E' => Some(structure(segment(3, 'n') + segment(13, 'n') + segment(2, 'n'), Some((1, 3)), None)),  // 3!n13!n2!n
            'K' => Some(structure(segment(3, 'n') + segment(10, 'c') + segment(2, 'n'), Some((1, 3)), None)),  // 3!n10!c2!n
            'N' => Some(structure(segment(4, 'n') + segment(12, 'n'), Some((1, 4)), None)),  // 4!n12!n
            'R' => Some(structure(segment(5, 'n') + segment(5, 'n') + segment(11, 'n') + segment(2, 'n'), Some((1, 5)), Some((6, 10)))),  // 5!n5!n11!n2!n
            'T' => Some(structure(segment(4, 'a') + segment(5, 'n') + segment(18, 'c'), Some((1, 4)), Some((5, 9)))),  // 4!a5!n18!c
            'U' => Some(structure(segment(4, 'a') + segment(2, 'n') + segment(2, 'n') + segment(12, 'n') + segment(3, 'n') + segment(3, 'a'), Some((1, 6)), Some((7, 8)))),  // 4!a2!n2!n12!n3!n3!a
            _ => None,
        },
        _ => None,
    }
}

/// Registry structures of the countries whose code starts with `N` to `Q`.
pub open spec fn registry_structure_n_to_q(c0: u8, c1: u8) -> Option<CountryStructure> {
    match c0 as char {
        'N' => match c1 as char {
            'I' => Some(structure(segment(4, 'a') + segment(20, 'n'), Some((1, 4)), None)),  // 4!a20!n
            'L' => Some(structure(segment(4, 'a') + segment(10, 'n'), Some((1, 4)), None)),  // 4!a10!n
            'O' => Some(structure(segment(4, 'n') + segment(6, 'n') + segment(1, 'n'), Some((1, 4)), None)),  // 4!n6!n1!n
            _ => None,
        },
        'O' => match c1 as char {
            'M' => Some(structure(segment(3, 'n') + segment(16, 'c'), Some((1, 3)), None)),  // 3!n16!c
            _ => None,
        },
        'P' => match c1 as char {
            'K' => Some(structure(segment(4, 'a') + segment(16, 'c'), Some((1, 4)), None)),  // 4!a16!c
            'L' => Some(structure(segment(8, 'n') + segment(16, 'n'), Some((1, 3)), Some((4, 8)))),  // 8!n16!n
            'S' => Some(structure(segment(4, 'a') + segment(21, 'c'), Some((1, 4)), None)),  // 4!a21!c
            'T' => Some(structure(segment(4, 'n') + segment(4, 'n') + segment(11, 'n') + segment(2, 'n'), Some((1, 4)), None)),  // 4!n4!n11!n2!n
            _ => None,
        },
        'Q' => match c1 as char {
            'A' => Some(structure(segment(4, 'a') + segment(21, 'c'), Some((1, 4)), None)),  // 4!a21!c
            _ => None,
        },
        _ => None,
    }
}

/// Registry structures of the countries whose code starts with `R`.
pub open spec fn registry_structure_r(c0: u8, c1: u8) -> Option<CountryStructure> {
    match c0 as char {
        'R' => match c1 as char {
            'O' => Some(structure(segment(4, 'a') + segment(16, 'c'), Some((1, 4)), None)),  // 4!a16!c
            'S' => Some(structure(segment(3, 'n') + segment(13, 'n') + segment(2, 'n'), Some((1, 3)), None)),  // 3!n13!n2!n
            'U' => Some(structure(segment(9, 'n') + segment(5, 'n') + segment(15, 'c'), Some((1, 9)), Some((10, 14)))),  // 9!n5!n15!c
            _ => None,
        },
        _ => None,
    }
}

/// Registry structures of the countries whose code starts with `S`.
pub open spec fn registry_structure_s(c0: u8, c1: u8) -> Option<CountryStructure> {
    match c0 as char {
        'S' => match c1 as char {
            'A' => Some(structure(segment(2, 'n') + segment(18, 'c'), Some((1, 2)), None)),  // 2!n18!c
            'C' => Some(structure(segment(4, 'a') + segment(2, 'n') + segment(2, 'n') + segment(16, 'n') + segment(3, 'a'), Some((1, 6)), Some((7, 8)))),  // 4!a2!n2!n16!n3!a
            'D' => Some(structure(segment(2, 'n') + segment(12, 'n'), Some((1, 2)), None)),  // 2!n12!n
            'E' => Some(structure(segment(3, 'n') + segment(16, 'n') + segment(1, 'n'), Some((1, 3)), None)),  // 3!n16!n1!n
            'I' => Some(structure(segment(5, 'n') + segment(8, 'n') + segment(2, 'n'), Some((1, 5)), None)),  // 5!n8!n2!n
            'K' => Some(structure(segment(4, 'n') + segment(6, 'n') + segment(10, 'n'), Some((1, 4)), None)),  // 4!n6!n10!n
            'M' => Some(structure(segment(1, 'a') + segment(5, 'n') + segment(5, 'n') + segment(12, 'c'), Some((2, 6)), Some((7, 11)))),  // 1!a5!n5!n12!c
            'O' => Some(structure(segment(4, 'n') + segment(3, 'n') + segment(12, 'n'), Some((1, 4)), Some((5, 7)))),  // 4!n3!n12!n
            'T' => Some(structure(segment(4, 'n') + segment(4, 'n') + segment(11, 'n') + segment(2, 'n'), Some((1, 4)), Some((5, 8)))),  // 4!n4!n11!n2!n
            'V' => Some(structure(segment(4, 'a') + segment(20, 'n'), Some((1, 4)), None)),  // 4!a20!n
            _ => None,
        },
        _ => None,
    }
}

/// Registry structures of the countries whose code starts with `T` to `Y`.
pub open spec fn registry_structure_t_to_y(c0: u8, c1: u8) -> Option<CountryStructure> {
    match c0 as char {
        'T' => match c1 as char {
            'L' => Some(structure(segment(3, 'n') + segment(14, 'n') + segment(2, 'n'), Some((1, 3)), None)),  // 3!n14!n2!n
            'N' => Some(structure(segment(2, 'n') + segment(3, 'n') + segment(13, 'n') + segment(2, 'n'), Some((1, 2)), Some((3, 5)))),  // 2!n3!n13!n2!n
            'R' => Some(structure(segment(5, 'n') + segment(1, 'n') + segment(16, 'c'), Some((1, 5)), None)),  // 5!n1!n16!c
            _ => None,
        },
        'U' => match c1 as char {
            'A' => Some(structure(segment(6, 'n') + segment(19, 'c'), Some((1, 6)), None)),  // 6!n19!c
            _ => None,
        },
        'V' => match c1 as char {
            'A' => Some(structure(segment(3, 'n') + segment(15, 'n'), Some((1, 3)), None)),  // 3!n15!n
            'G' => Some(structure(segment(4, 'a') + segment(16, 'n'), Some((1, 4)), None)),  // 4!a16!n
            _ => None,
        },
        'X' => match c1 as char {
            'K' => Some(structure(segment(4, 'n') + segment(10, 'n') + segment(2, 'n'), Some((1, 2)), Some((3, 4)))),  // 4!n10!n2!n
            _ => None,
        },
        'Y' => match c1 as char {
            'E' => Some(structure(segment(4, 'a') + segment(4, 'n') + segment(18, 'c'), Some((1, 4)), Some((5, 8)))),  // 4!a4!n18!c
            _ => None,
        },
        _ => None,
    }
}

/// The structure of each country outside the registry, if `c0 c1` is one of them.
pub open spec fn non_registry_structure(c0: u8, c1: u8) -> Option<CountryStructure> {
    match c0 as char {
        'A' => match c1 as char {
            'O' => Some(structure(segment(21, 'n'), None, None)),  // 21!n
            _ => None,
        },
        'B' => match c1 as char {
            'F' => Some(structure(segment(2, 'c') + segment(22, 'n'), None, None)),  // 2!c22!n
            'J' => Some(structure(segment(2, 'c') + segment(22, 'n'), None, None)),  // 2!c22!n
            _ => None,
        },
        'C' => match c1 as char {
            'F' => Some(structure(segment(23, 'n'), None, None)),  // 23!n
            'G' => Some(structure(segment(23, 'n'), None, None)),  // 23!n
            'I' => Some(structure(segment(2, 'c') + segment(22, 'n'), None, None)),  // 2!c22!n
            'M' => Some(structure(segment(23, 'n'), None, None)),  // 23!n
            'V' => Some(structure(segment(21, 'n'), None, None)),  // 21!n
            _ => None,
        },
        'D' => match c1 as char {
            'Z' => Some(structure(segment(22, 'n'), None, None)),  // 22!n
            _ => None,
        },
        'G' => match c1 as char {
            'A' => Some(structure(segment(23, 'n'), None, None)),  // 23!n
            'Q' => Some(structure(segment(23, 'n'), None, None)),  // 23!n
            'W' => Some(structure(segment(2, 'c') + segment(19, 'n'), None, None)),  // 2!c19!n
            _ => None,
        },
        'I' => match c1 as char {
            'R' => Some(structure(segment(22, 'n'), None, None)),  // 22!n
            _ => None,
        },
        'K' => match c1 as char {
            'M' => Some(structure(segment(23, 'n'), None, None)),  // 23!n
            _ => None,
        },
        'M' => match c1 as char {
            'A' => Some(structure(segment(24, 'n'), Some((1, 5)), Some((6, 10)))),  // 24!n
            'G' => Some(structure(segment(23, 'n'), None, None)),  // 23!n
            'L' => Some(structure(segment(2, 'c') + segment(22, 'n'), None, None)),  // 2!c22!n
            'Z' => Some(structure(segment(21, 'n'), None, None)),  // 21!n
            _ => None,
        },
        'N' => match c1 as char {
            'E' => Some(structure(segment(2, 'c') + segment(22, 'n'), None, None)),  // 2!c22!n
            _ => None,
        },
        'S' => match c1 as char {
            'N' => Some(structure(segment(2, 'c') + segment(22, 'n'), None, None)),  // 2!c22!n
            _ => None,
        },
        'T' => match c1 as char {
            'D' => Some(structure(segment(23, 'n'), None, None)),  // 23!n
            'G' => Some(structure(segment(2, 'c') + segment(22, 'n'), None, None)),  // 2!c22!n
            _ => None,
        },
        _ => None,
    }
}

proof fn lemma_structure_a(c0: u8, c1: u8)
    ensures
        registry_fields_a(c0, c1) is Some <==> registry_structure_a(c0, c1) is Some,
        registry_fields_a(c0, c1) matches Some(f) ==> follows_structure(f, registry_structure_a(c0, c1)->Some_0),
{
}

proof fn lemma_structure_b(c0: u8, c1: u8)
    ensures
        registry_fields_b(c0, c1) is Some <==> registry_structure_b(c0, c1) is Some,
        registry_fields_b(c0, c1) matches Some(f) ==> follows_structure(f, registry_structure_b(c0, c1)->Some_0),
{
}

proof fn lemma_structure_c_to_d(c0: u8, c1: u8)
    ensures
        registry_fields_c_to_d(c0, c1) is Some <==> registry_structure_c_to_d(c0, c1) is Some,
        registry_fields_c_to_d(c0, c1) matches Some(f) ==> follows_structure(f, registry_structure_c_to_d(c0, c1)->Some_0),
{
}

proof fn lemma_structure_e_to_f(c0: u8, c1: u8)
    ensures
        registry_fields_e_to_f(c0, c1) is Some <==> registry_structure_e_to_f(c0, c1) is Some,
        registry_fields_e_to_f(c0, c1) matches Some(f) ==> follows_structure(f, registry_structure_e_to_f(c0, c1)->Some_0),
{
}

proof fn lemma_structure_g_to_h(c0: u8, c1: u8)
    ensures
        registry_fields_g_to_h(c0, c1) is Some <==> registry_structure_g_to_h(c0, c1) is Some,
        registry_fields_g_to_h(c0, c1) matches Some(f) ==> follows_structure(f, registry_structure_g_to_h(c0, c1)->Some_0),
{
}

proof fn lemma_structure_i_to_k(c0: u8, c1: u8)
    ensures
        registry_fields_i_to_k(c0, c1) is Some <==> registry_structure_i_to_k(c0, c1) is Some,
        registry_fields_i_to_k(c0, c1) matches Some(f) ==> follows_structure(f, registry_structure_i_to_k(c0, c1)->Some_0),
{
}

proof fn lemma_structure_l(c0: u8, c1: u8)
    ensures
        registry_fields_l(c0, c1) is Some <==> registry_structure_l(c0, c1) is Some,
        registry_fields_l(c0, c1) matches Some(f) ==> follows_structure(f, registry_structure_l(c0, c1)->Some_0),
{
}

proof fn lemma_structure_m(c0: u8, c1: u8)
    ensures
        registry_fields_m(c0, c1) is Some <==> registry_structure_m(c0, c1) is Some,
        registry_fields_m(c0, c1) matches Some(f) ==> follows_structure(f, registry_structure_m(c0, c1)->Some_0),
{
}

proof fn lemma_structure_n_to_q(c0: u8, c1: u8)
    ensures
        registry_fields_n_to_q(c0, c1) is Some <==> registry_structure_n_to_q(c0, c1) is Some,
        registry_fields_n_to_q(c0, c1) matches Some(f) ==> follows_structure(f, registry_structure_n_to_q(c0, c1)->Some_0),
{
}

proof fn lemma_structure_r(c0: u8, c1: u8)
    ensures
        registry_fields_r(c0, c1) is Some <==> registry_structure_r(c0, c1) is Some,
        registry_fields_r(c0, c1) matches Some(f) ==> follows_structure(f, registry_structure_r(c0, c1)->Some_0),
{
}

proof fn lemma_structure_s(c0: u8, c1: u8)
    ensures
        registry_fields_s(c0, c1) is Some <==> registry_structure_s(c0, c1) is Some,
        registry_fields_s(c0, c1) matches Some(f) ==> follows_structure(f, registry_structure_s(c0, c1)->Some_0),
{
}

proof fn lemma_structure_t_to_y(c0: u8, c1: u8)
    ensures
        registry_fields_t_to_y(c0, c1) is Some <==> registry_structure_t_to_y(c0, c1) is Some,
        registry_fields_t_to_y(c0, c1) matches Some(f) ==> follows_structure(f, registry_structure_t_to_y(c0, c1)->Some_0),
{
}


/// Every registry country's definition follows the structure the registry
/// publishes for it, and the registry holds exactly the countries for which a
/// structure is published.
pub proof fn lemma_registry_follows_published_structure(c0: u8, c1: u8)
    ensures
        registry_fields(c0, c1) is Some <==> registry_structure(c0, c1) is Some,
        registry_fields(c0, c1) matches Some(f) ==> follows_structure(f, registry_structure(c0, c1)->Some_0),
{
    lemma_structure_a(c0, c1);
    lemma_structure_b(c0, c1);
    lemma_structure_c_to_d(c0, c1);
    lemma_structure_e_to_f(c0, c1);
    lemma_structure_g_to_h(c0, c1);
    lemma_structure_i_to_k(c0, c1);
    lemma_structure_l(c0, c1);
    lemma_structure_m(c0, c1);
    lemma_structure_n_to_q(c0, c1);
    lemma_structure_r(c0, c1);
    lemma_structure_s(c0, c1);
    lemma_structure_t_to_y(c0, c1);
}

/// Every country outside the registry follows its published structure, and
/// they are exactly the countries with such a structure.
pub proof fn lemma_non_registry_follows_published_structure(c0: u8, c1: u8)
    ensures
        non_registry_fields(c0, c1) is Some <==> non_registry_structure(c0, c1) is Some,
        non_registry_fields(c0, c1) matches Some(f) ==> follows_structure(f, non_registry_structure(c0, c1)->Some_0),
{
}

/// The structure validation against `set` uses for the country `c0 c1`.
pub open spec fn published_structure(c0: u8, c1: u8, set: CountrySet) -> Option<CountryStructure> {
    match registry_structure(c0, c1) {
        Some(s) => Some(s),
        None => match set {
            CountrySet::Registry => None,
            CountrySet::WithNonRegistry => non_registry_structure(c0, c1),
        },
    }
}

/// Numeric byte range of an identifier at the published positions `p`
/// (1-based, inclusive, within the BBAN): past the country code and check
/// digits, or `(0, 0)` when there is none.
pub open spec fn published_span(p: Option<(usize, usize)>) -> (int, int) {
    match p {
        Some((s, e)) => (s + 3, e + 4),
        None => (0, 0),
    }
}

proof fn lemma_admitted(c: CharClass, x: u8)
    requires
        class_value_spec(c, x) is Some,
    ensures
        admits(class_letter(c), x),
{
}

/// An accepted IBAN follows the structure published for its country: its
/// length is the structure's plus four, every BBAN character is in the set
/// the structure names for its position (so an uppercase-only position
/// refuses lowercase letters), and the numeric positions of the bank and
/// branch identifiers are the published ones.
pub proof fn lemma_accepted_iban_follows_published_structure(b: Seq<u8>, set: CountrySet)
    requires
        spec_validate(b, set) is Ok,
    ensures
        published_structure(b[0], b[1], set) is Some,
        ({
            let s = published_structure(b[0], b[1], set)->Some_0;
            let o = numeric_outcome(spec_validate(b, set)->Ok_0);
            &&& b.len() == s.letters.len() + 4
            &&& forall|k: int| 0 <= k < s.letters.len() ==> admits(#[trigger] s.letters[k], b[k + 4])
            &&& o.1 == published_span(s.bank).0 && o.2 == published_span(s.bank).1
            &&& o.3 == published_span(s.branch).0 && o.4 == published_span(s.branch).1
        }),
{
    let f = spec_validate(b, set)->Ok_0;
    lemma_registry_follows_published_structure(b[0], b[1]);
    lemma_non_registry_follows_published_structure(b[0], b[1]);
    lemma_country_sets_nest(b[0], b[1]);
    crate::registry::lemma_country_fields_well_formed(b[0], b[1], set);
    let s = published_structure(b[0], b[1], set)->Some_0;
    assert(follows_structure(f, s));
    let r = rearranged(b);
    assert forall|k: int| 0 <= k < s.letters.len() implies admits(#[trigger] s.letters[k], b[k + 4]) by {
        assert(position_value(f, r, k) is Some);
        assert(r[k] == b[k + 4]);
        assert(f.class_at(k) == f.bban_format.class_at(k));
        lemma_admitted(f.bban_format.class_at(k), b[k + 4]);
    }
}

} // verus!
