//! The per-country IBAN formats: length and character set of every BBAN
//! position, and where the bank and branch identifiers sit.
//!
//! The official SWIFT IBAN registry countries are always available; the
//! community-sourced countries that are not published in the registry are only
//! used when [`CountrySet::WithNonRegistry`] is asked for.
use vstd::prelude::*;

use crate::letters::CharClass;
use crate::letters::CharClass::{Alphabetic, Alphanumeric, Numeric};

verus! {

/// Length of the shortest IBAN of any country (Norway).
pub const IBAN_MIN_LEN: u8 = 15;

/// Length of the longest IBAN of any country (Russia).
pub const IBAN_MAX_LEN: u8 = 33;

/// Selects which country set validation should accept.
///
/// `Registry` (the default) only accepts the official SWIFT IBAN registry
/// countries. `WithNonRegistry` additionally accepts the community-sourced
/// countries that are not published in the registry.
#[derive(Clone, Copy, Debug, PartialEq, Eq, Structural)]
pub enum CountrySet {
    Registry,
    WithNonRegistry,
}

impl Default for CountrySet {
    fn default() -> (set: Self)
        ensures
            set == CountrySet::Registry,
    {
        CountrySet::Registry
    }
}

/// The country set selected by a flag that allows the non-registry countries.
pub open spec fn country_set_from_flag(allow_non_registry: bool) -> CountrySet {
    if allow_non_registry {
        CountrySet::WithNonRegistry
    } else {
        CountrySet::Registry
    }
}

impl From<bool> for CountrySet {
    /// `true` maps to [`CountrySet::WithNonRegistry`], `false` to the default
    /// [`CountrySet::Registry`].
    fn from(allow_non_registry: bool) -> (set: Self) {
        if allow_non_registry {
            CountrySet::WithNonRegistry
        } else {
            CountrySet::Registry
        }
    }
}

impl vstd::std_specs::convert::FromSpecImpl<bool> for CountrySet {
    open spec fn obeys_from_spec() -> bool {
        true
    }

    open spec fn from_spec(v: bool) -> CountrySet {
        country_set_from_flag(v)
    }
}

/// A stretch of `len` consecutive positions of one character set.
#[derive(Clone, Copy, Debug, PartialEq, Eq, Structural)]
pub struct Run {
    pub len: usize,
    pub class: CharClass,
}

/// The format of a BBAN as (at most) three runs; adjacent registry segments of
/// the same character set are merged, and unused runs have length zero.
#[derive(Clone, Copy, Debug, PartialEq, Eq, Structural)]
pub struct BbanFormat {
    pub first: Run,
    pub second: Run,
    pub third: Run,
}

impl BbanFormat {
    /// Number of positions of the BBAN.
    pub open spec fn spec_len(self) -> int {
        self.first.len + self.second.len + self.third.len
    }

    /// Character set of the BBAN position `i` (counted from 0).
    pub open spec fn class_at(self, i: int) -> CharClass {
        if i < self.first.len {
            self.first.class
        } else if i < self.first.len + self.second.len {
            self.second.class
        } else {
            self.third.class
        }
    }
}

/// What the registry says of one country.
#[derive(Clone, Copy, Debug, PartialEq, Eq)]
pub struct IbanFields {
    /// two-letter country codes as per ISO 3166-1
    pub ctry_cd: [u8; 2],
    /// position of bank identifier starting point (1-based, within the BBAN)
    pub bank_id_pos_s: Option<usize>,
    /// position of bank identifier end point (inclusive)
    pub bank_id_pos_e: Option<usize>,
    /// position of branch identifier starting point
    pub branch_id_pos_s: Option<usize>,
    /// position of branch identifier end point (inclusive)
    pub branch_id_pos_e: Option<usize>,
    /// character set of every BBAN position
    pub bban_format: BbanFormat,
}

/// A pair of optional start and end positions is either absent, or a
/// non-empty range inside a BBAN of `bban_len` positions.
pub open spec fn positions_ok(s: Option<usize>, e: Option<usize>, bban_len: int) -> bool {
    match (s, e) {
        (Some(s), Some(e)) => 1 <= s <= e <= bban_len,
        (None, None) => true,
        _ => false,
    }
}

impl IbanFields {
    /// Total length of an IBAN of this country: country code, check digits and BBAN.
    pub open spec fn spec_iban_len(self) -> int {
        self.bban_format.spec_len() + 4
    }

    /// Character set of position `i` of the rearranged IBAN, that is the BBAN
    /// followed by the country code (two letters) and the check digits.
    pub open spec fn class_at(self, i: int) -> CharClass {
        let n = self.bban_format.spec_len();
        if i < n {
            self.bban_format.class_at(i)
        } else if i < n + 2 {
            CharClass::Alphabetic
        } else {
            CharClass::Numeric
        }
    }

    /// The definition is usable: its length lies between the shortest and the
    /// longest IBAN, its BBAN is not empty, and the bank and branch positions
    /// are ranges inside the BBAN with the branch after the bank.
    pub open spec fn well_formed(self) -> bool {
        &&& IBAN_MIN_LEN <= self.spec_iban_len() <= IBAN_MAX_LEN
        &&& positions_ok(self.bank_id_pos_s, self.bank_id_pos_e, self.bban_format.spec_len())
        &&& positions_ok(self.branch_id_pos_s, self.branch_id_pos_e, self.bban_format.spec_len())
        &&& match (self.bank_id_pos_e, self.branch_id_pos_s) {
            (Some(bank_end), Some(branch_start)) => bank_end < branch_start,
            _ => true,
        }
    }

    /// Total length of an IBAN of this country.
    pub fn iban_len(&self) -> (len: usize)
        requires
            self.well_formed(),
        ensures
            len == self.spec_iban_len(),
    {
        self.bban_format.first.len + self.bban_format.second.len + self.bban_format.third.len + 4
    }

    /// Character set of position `i` of the rearranged IBAN.
    pub fn class_of(&self, i: usize) -> (class: CharClass)
        requires
            self.well_formed(),
        ensures
            class == self.class_at(i as int),
    {
        let f = &self.bban_format;
        let n = f.first.len + f.second.len + f.third.len;
        if i < n {
            if i < f.first.len {
                f.first.class
            } else if i < f.first.len + f.second.len {
                f.second.class
            } else {
                f.third.class
            }
        } else if i < n + 2 {
            CharClass::Alphabetic
        } else {
            CharClass::Numeric
        }
    }
}

/// A BBAN format made of three runs.
pub open spec fn format(
    l1: usize,
    k1: CharClass,
    l2: usize,
    k2: CharClass,
    l3: usize,
    k3: CharClass,
) -> BbanFormat {
    BbanFormat {
        first: Run { len: l1, class: k1 },
        second: Run { len: l2, class: k2 },
        third: Run { len: l3, class: k3 },
    }
}

fn make_format(
    l1: usize,
    k1: CharClass,
    l2: usize,
    k2: CharClass,
    l3: usize,
    k3: CharClass,
) -> (f: BbanFormat)
    ensures
        f == format(l1, k1, l2, k2, l3, k3),
{
    BbanFormat {
        first: Run { len: l1, class: k1 },
        second: Run { len: l2, class: k2 },
        third: Run { len: l3, class: k3 },
    }
}

/// The start of an optional position pair.
pub open spec fn start_of(p: Option<(usize, usize)>) -> Option<usize> {
    match p {
        Some(p) => Some(p.0),
        None => None,
    }
}

/// The end of an optional position pair.
pub open spec fn end_of(p: Option<(usize, usize)>) -> Option<usize> {
    match p {
        Some(p) => Some(p.1),
        None => None,
    }
}

/// The definition of the country `c0 c1`.
pub open spec fn entry(
    c0: u8,
    c1: u8,
    f: BbanFormat,
    bank: Option<(usize, usize)>,
    branch: Option<(usize, usize)>,
) -> IbanFields {
    IbanFields {
        ctry_cd: [c0, c1],
        bank_id_pos_s: start_of(bank),
        bank_id_pos_e: end_of(bank),
        branch_id_pos_s: start_of(branch),
        branch_id_pos_e: end_of(branch),
        bban_format: f,
    }
}

fn make_entry(
    c0: u8,
    c1: u8,
    f: BbanFormat,
    bank: Option<(usize, usize)>,
    branch: Option<(usize, usize)>,
) -> (fields: IbanFields)
    ensures
        fields == entry(c0, c1, f, bank, branch),
{
    let (bank_s, bank_e) = match bank {
        Some((s, e)) => (Some(s), Some(e)),
        None => (None, None),
    };
    let (branch_s, branch_e) = match branch {
        Some((s, e)) => (Some(s), Some(e)),
        None => (None, None),
    };
    IbanFields {
        ctry_cd: [c0, c1],
        bank_id_pos_s: bank_s,
        bank_id_pos_e: bank_e,
        branch_id_pos_s: branch_s,
        branch_id_pos_e: branch_e,
        bban_format: f,
    }
}

/// The SWIFT IBAN registry: the definition of the country `c0 c1`, if it has one.
pub open spec fn registry_fields(c0: u8, c1: u8) -> Option<IbanFields> {
    let first = c0 as char;
    if 'A' <= first && first <= 'A' {
        registry_fields_a(c0, c1)
    } else if 'B' <= first && first <= 'B' {
        registry_fields_b(c0, c1)
    } else if 'C' <= first && first <= 'D' {
        registry_fields_c_to_d(c0, c1)
    } else if 'E' <= first && first <= 'F' {
        registry_fields_e_to_f(c0, c1)
    } else if 'G' <= first && first <= 'H' {
        registry_fields_g_to_h(c0, c1)
    } else if 'I' <= first && first <= 'K' {
        registry_fields_i_to_k(c0, c1)
    } else if 'L' <= first && first <= 'L' {
        registry_fields_l(c0, c1)
    } else if 'M' <= first && first <= 'M' {
        registry_fields_m(c0, c1)
    } else if 'N' <= first && first <= 'Q' {
        registry_fields_n_to_q(c0, c1)
    } else if 'R' <= first && first <= 'R' {
        registry_fields_r(c0, c1)
    } else if 'S' <= first && first <= 'S' {
        registry_fields_s(c0, c1)
    } else if 'T' <= first && first <= 'Y' {
        registry_fields_t_to_y(c0, c1)
    } else {
        None
    }
}

/// Registry countries whose code starts with `A`.
pub open spec fn registry_fields_a(c0: u8, c1: u8) -> Option<IbanFields> {
    match c0 as char {
        'A' => match c1 as char {
            'D' => Some(entry(c0, c1, format(8, Numeric, 12, Alphanumeric, 0, Alphanumeric), Some((1, 4)), Some((5, 8)))),  // 4!n4!n12!c
            'E' => Some(entry(c0, c1, format(19, Numeric, 0, Numeric, 0, Numeric), Some((1, 3)), None)),  // 3!n16!n
            'L' => Some(entry(c0, c1, format(8, Numeric, 16, Alphanumeric, 0, Alphanumeric), Some((1, 3)), Some((4, 8)))),  // 8!n16!c
            'T' => Some(entry(c0, c1, format(16, Numeric, 0, Numeric, 0, Numeric), Some((1, 5)), None)),  // 5!n11!n
            'Z' => Some(entry(c0, c1, format(4, Alphabetic, 20, Alphanumeric, 0, Alphanumeric), Some((1, 4)), None)),  // 4!a20!c
            _ => None,
        },
        _ => None,
    }
}

/// Registry countries whose code starts with `B`.
pub open spec fn registry_fields_b(c0: u8, c1: u8) -> Option<IbanFields> {
    match c0 as char {
        'B' => match c1 as char {
            'A' => Some(entry(c0, c1, format(16, Numeric, 0, Numeric, 0, Numeric), Some((1, 3)), Some((4, 6)))),  // 3!n3!n8!n2!n
            'E' => Some(entry(c0, c1, format(12, Numeric, 0, Numeric, 0, Numeric), Some((1, 3)), None)),  // 3!n7!n2!n
            'G' => Some(entry(c0, c1, format(4, Alphabetic, 6, Numeric, 8, Alphanumeric), Some((1, 4)), Some((5, 8)))),  // 4!a4!n2!n8!c
            'H' => Some(entry(c0, c1, format(4, Alphabetic, 14, Alphanumeric, 0, Alphanumeric), Some((1, 4)), None)),  // 4!a14!c
            'I' => Some(entry(c0, c1, format(23, Numeric, 0, Numeric, 0, Numeric), Some((1, 5)), Some((6, 10)))),  // 5!n5!n11!n2!n
            'R' => Some(entry(c0, c1, format(23, Numeric, 1, Alphabetic, 1, Alphanumeric), Some((1, 8)), Some((9, 13)))),  // 8!n5!n10!n1!a1!c
            'Y' => Some(entry(c0, c1, format(4, Alphanumeric, 4, Numeric, 16, Alphanumeric), Some((1, 4)), None)),  // 4!c4!n16!c
            _ => None,
        },
        _ => None,
    }
}

/// Registry countries whose code starts with `C` to `D`.
pub open spec fn registry_fields_c_to_d(c0: u8, c1: u8) -> Option<IbanFields> {
    match c0 as char {
        'C' => match c1 as char {
            'H' => Some(entry(c0, c1, format(5, Numeric, 12, Alphanumeric, 0, Alphanumeric), Some((1, 5)), None)),  // 5!n12!c
            'R' => Some(entry(c0, c1, format(18, Numeric, 0, Numeric, 0, Numeric), Some((1, 4)), None)),  // 4!n14!n
            'Y' => Some(entry(c0, c1, format(8, Numeric, 16, Alphanumeric, 0, Alphanumeric), Some((1, 3)), Some((4, 8)))),  // 3!n5!n16!c
            'Z' => Some(entry(c0, c1, format(20, Numeric, 0, Numeric, 0, Numeric), Some((1, 4)), None)),  // 4!n6!n10!n
            _ => None,
        },
        'D' => match c1 as char {
            'E' => Some(entry(c0, c1, format(18, Numeric, 0, Numeric, 0, Numeric), Some((1, 8)), None)),  // 8!n10!n
            'J' => Some(entry(c0, c1, format(23, Numeric, 0, Numeric, 0, Numeric), Some((1, 5)), Some((6, 10)))),  // 5!n5!n11!n2!n
            'K' => Some(entry(c0, c1, format(14, Numeric, 0, Numeric, 0, Numeric), Some((1, 4)), None)),  // 4!n9!n1!n
            'O' => Some(entry(c0, c1, format(4, Alphanumeric, 20, Numeric, 0, Numeric), Some((1, 4)), None)),  // 4!c20!n
            _ => None,
        },
        _ => None,
    }
}

/// Registry countries whose code starts with `E` to `F`.
pub open spec fn registry_fields_e_to_f(c0: u8, c1: u8) -> Option<IbanFields> {
    match c0 as char {
        'E' => match c1 as char {
            'E' => Some(entry(c0, c1, format(16, Numeric, 0, Numeric, 0, Numeric), Some((1, 2)), None)),  // 2!n14!n
            'G' => Some(entry(c0, c1, format(25, Numeric, 0, Numeric, 0, Numeric), Some((1, 4)), Some((5, 8)))),  // 4!n4!n17!n
            'S' => Some(entry(c0, c1, format(20, Numeric, 0, Numeric, 0, Numeric), Some((1, 4)), Some((5, 8)))),  // 4!n4!n1!n1!n10!n
            _ => None,
        },
        'F' => match c1 as char {
            'I' => Some(entry(c0, c1, format(14, Numeric, 0, Numeric, 0, Numeric), Some((1, 3)), None)),  // 3!n11!n
            'K' => Some(entry(c0, c1, format(2, Alphabetic, 12, Numeric, 0, Numeric), Some((1, 2)), None)),  // 2!a12!n
            'O' => Some(entry(c0, c1, format(14, Numeric, 0, Numeric, 0, Numeric), Some((1, 4)), None)),  // 4!n9!n1!n
            'R' => Some(entry(c0, c1, format(10, Numeric, 11, Alphanumeric, 2, Numeric), Some((1, 5)), Some((6, 10)))),  // 5!n5!n11!c2!n
            _ => None,
        },
        _ => None,
    }
}

/// Registry countries whose code starts with `G` to `H`.
pub open spec fn registry_fields_g_to_h(c0: u8, c1: u8) -> Option<IbanFields> {
    match c0 as char {
        'G' => match c1 as char {
            'B' => Some(entry(c0, c1, format(4, Alphabetic, 14, Numeric, 0, Numeric), Some((1, 4)), Some((5, 10)))),  // 4!a6!n8!n
            'E' => Some(entry(c0, c1, format(2, Alphabetic, 16, Numeric, 0, Numeric), Some((1, 2)), None)),  // 2!a16!n
            'I' => Some(entry(c0, c1, format(4, Alphabetic, 15, Alphanumeric, 0, Alphanumeric), Some((1, 4)), None)),  // 4!a15!c
            'L' => Some(entry(c0, c1, format(14, Numeric, 0, Numeric, 0, Numeric), Some((1, 4)), None)),  // 4!n9!n1!n
            'R' => Some(entry(c0, c1, format(7, Numeric, 16, Alphanumeric, 0, Alphanumeric), Some((1, 3)), Some((4, 7)))),  // 3!n4!n16!c
            'T' => Some(entry(c0, c1, format(24, Alphanumeric, 0, Alphanumeric, 0, Alphanumeric), Some((1, 4)), None)),  // 4!c20!c
            _ => None,
        },
        'H' => match c1 as char {
            'N' => Some(entry(c0, c1, format(4, Alphabetic, 20, Numeric, 0, Numeric), Some((1, 4)), None)),  // 4!a20!n
            'R' => Some(entry(c0, c1, format(17, Numeric, 0, Numeric, 0, Numeric), Some((1, 7)), None)),  // 7!n10!n
            'U' => Some(entry(c0, c1, format(24, Numeric, 0, Numeric, 0, Numeric), Some((1, 3)), Some((4, 7)))),  // 3!n4!n1!n15!n1!n
            _ => None,
        },
        _ => None,
    }
}

/// Registry countries whose code starts with `I` to `K`.
pub open spec fn registry_fields_i_to_k(c0: u8, c1: u8) -> Option<IbanFields> {
    match c0 as char {
        'I' => match c1 as char {
            'E' => Some(entry(c0, c1, format(4, Alphabetic, 14, Numeric, 0, Numeric), Some((1, 4)), Some((5, 10)))),  // 4!a6!n8!n
            'L' => Some(entry(c0, c1, format(19, Numeric, 0, Numeric, 0, Numeric), Some((1, 3)), Some((4, 6)))),  // 3!n3!n13!n
            'Q' => Some(entry(c0, c1, format(4, Alphabetic, 15, Numeric, 0, Numeric), Some((1, 4)), Some((5, 7)))),  // 4!a3!n12!n
            'S' => Some(entry(c0, c1, format(22, Numeric, 0, Numeric, 0, Numeric), Some((1, 2)), Some((3, 4)))),  // 4!n2!n6!n10!n
            'T' => Some(entry(c0, c1, format(1, Alphabetic, 10, Numeric, 12, Alphanumeric), Some((2, 6)), Some((7, 11)))),  // 1!a5!n5!n12!c
            _ => None,
        },
        'J' => match c1 as char {
            'O' => Some(entry(c0, c1, format(4, Alphabetic, 4, Numeric, 18, Alphanumeric), Some((1, 4)), Some((5, 8)))),  // 4!a4!n18!c
            _ => None,
        },
        'K' => match c1 as char {
            'W' => Some(entry(c0, c1, format(4, Alphabetic, 22, Alphanumeric, 0, Alphanumeric), Some((1, 4)), None)),  // 4!a22!c
            'Z' => Some(entry(c0, c1, format(3, Numeric, 13, Alphanumeric, 0, Alphanumeric), Some((1, 3)), None)),  // 3!n13!c
            _ => None,
        },
        _ => None,
    }
}

/// Registry countries whose code starts with `L`.
pub open spec fn registry_fields_l(c0: u8, c1: u8) -> Option<IbanFields> {
    match c0 as char {
        'L' => match c1 as char {
            'B' => Some(entry(c0, c1, format(4, Numeric, 20, Alphanumeric, 0, Alphanumeric), Some((1, 4)), None)),  // 4!n20!c
            'C' => Some(entry(c0, c1, format(4, Alphabetic, 24, Alphanumeric, 0, Alphanumeric), Some((1, 4)), None)),  // 4!a24!c
            'I' => Some(entry(c0, c1, format(5, Numeric, 12, Alphanumeric, 0, Alphanumeric), Some((1, 5)), None)),  // 5!n12!c
            'T' => Some(entry(c0, c1, format(16, Numeric, 0, Numeric, 0, Numeric), Some((1, 5)), None)),  // 5!n11!n
            'U' => Some(entry(c0, c1, format(3, Numeric, 13, Alphanumeric, 0, Alphanumeric), Some((1, 3)), None)),  // 3!n13!c
            'V' => Some(entry(c0, c1, format(4, Alphabetic, 13, Alphanumeric, 0, Alphanumeric), Some((1, 4)), None)),  // 4!a13!c
            'Y' => Some(entry(c0, c1, format(21, Numeric, 0, Numeric, 0, Numeric), Some((1, 3)), Some((4, 6)))),  // 3!n3!n15!n
            _ => None,
        },
        _ => None,
    }
}

/// Registry countries whose code starts with `M`.
pub open spec fn registry_fields_m(c0: u8, c1: u8) -> Option<IbanFields> {
    match c0 as char {
        'M' => match c1 as char {
            'C' => Some(entry(c0, c1, format(10, Numeric, 11, Alphanumeric, 2, Numeric), Some((1, 5)), Some((6, 10)))),  // 5!n5!n11!c2!n
            'D' => Some(entry(c0, c1, format(20, Alphanumeric, 0, Alphanumeric, 0, Alphanumeric), Some((1, 2)), None)),  // 2!c18!c
            'E' => Some(entry(c0, c1, format(18, Numeric, 0, Numeric, 0, Numeric), Some((1, 3)), None)),  // 3!n13!n2!n
            'K' => Some(entry(c0, c1, format(3, Numeric, 10, Alphanumeric, 2, Numeric), Some((1, 3)), None)),  // 3!n10!c2!n
            'N' => Some(entry(c0, c1, format(16, Numeric, 0, Numeric, 0, Numeric), Some((1, 4)), None)),  // 4!n12!n
            'R' => Some(entry(c0, c1, format(23, Numeric, 0, Numeric, 0, Numeric), Some((1, 5)), Some((6, 10)))),  // 5!n5!n11!n2!n
            'T' => Some(entry(c0, c1, format(4, Alphabetic, 5, Numeric, 18, Alphanumeric), Some((1, 4)), Some((5, 9)))),  // 4!a5!n18!c
            'U' => Some(entry(c0, c1, format(4, Alphabetic, 19, Numeric, 3, Alphabetic), Some((1, 6)), Some((7, 8)))),  // 4!a2!n2!n12!n3!n3!a
            _ => None,
        },
        _ => None,
    }
}

/// Registry countries whose code starts with `N` to `Q`.
pub open spec fn registry_fields_n_to_q(c0: u8, c1: u8) -> Option<IbanFields> {
    match c0 as char {
        'N' => match c1 as char {
            'I' => Some(entry(c0, c1, format(4, Alphabetic, 20, Numeric, 0, Numeric), Some((1, 4)), None)),  // 4!a20!n
            'L' => Some(entry(c0, c1, format(4, Alphabetic, 10, Numeric, 0, Numeric), Some((1, 4)), None)),  // 4!a10!n
            'O' => Some(entry(c0, c1, format(11, Numeric, 0, Numeric, 0, Numeric), Some((1, 4)), None)),  // 4!n6!n1!n
            _ => None,
        },
        'O' => match c1 as char {
            'M' => Some(entry(c0, c1, format(3, Numeric, 16, Alphanumeric, 0, Alphanumeric), Some((1, 3)), None)),  // 3!n16!c
            _ => None,
        },
        'P' => match c1 as char {
            'K' => Some(entry(c0, c1, format(4, Alphabetic, 16, Alphanumeric, 0, Alphanumeric), Some((1, 4)), None)),  // 4!a16!c
            'L' => Some(entry(c0, c1, format(24, Numeric, 0, Numeric, 0, Numeric), Some((1, 3)), Some((4, 8)))),  // 8!n16!n
            'S' => Some(entry(c0, c1, format(4, Alphabetic, 21, Alphanumeric, 0, Alphanumeric), Some((1, 4)), None)),  // 4!a21!c
            'T' => Some(entry(c0, c1, format(21, Numeric, 0, Numeric, 0, Numeric), Some((1, 4)), None)),  // 4!n4!n11!n2!n
            _ => None,
        },
        'Q' => match c1 as char {
            'A' => Some(entry(c0, c1, format(4, Alphabetic, 21, Alphanumeric, 0, Alphanumeric), Some((1, 4)), None)),  // 4!a21!c
            _ => None,
        },
        _ => None,
    }
}

/// Registry countries whose code starts with `R`.
pub open spec fn registry_fields_r(c0: u8, c1: u8) -> Option<IbanFields> {
    match c0 as char {
        'R' => match c1 as char {
            'O' => Some(entry(c0, c1, format(4, Alphabetic, 16, Alphanumeric, 0, Alphanumeric), Some((1, 4)), None)),  // 4!a16!c
            'S' => Some(entry(c0, c1, format(18, Numeric, 0, Numeric, 0, Numeric), Some((1, 3)), None)),  // 3!n13!n2!n
            'U' => Some(entry(c0, c1, format(14, Numeric, 15, Alphanumeric, 0, Alphanumeric), Some((1, 9)), Some((10, 14)))),  // 9!n5!n15!c
            _ => None,
        },
        _ => None,
    }
}

/// Registry countries whose code starts with `S`.
pub open spec fn registry_fields_s(c0: u8, c1: u8) -> Option<IbanFields> {
    match c0 as char {
        'S' => match c1 as char {
            'A' => Some(entry(c0, c1, format(2, Numeric, 18, Alphanumeric, 0, Alphanumeric), Some((1, 2)), None)),  // 2!n18!c
            'C' => Some(entry(c0, c1, format(4, Alphabetic, 20, Numeric, 3, Alphabetic), Some((1, 6)), Some((7, 8)))),  // 4!a2!n2!n16!n3!a
            'D' => Some(entry(c0, c1, format(14, Numeric, 0, Numeric, 0, Numeric), Some((1, 2)), None)),  // 2!n12!n
            'E' => Some(entry(c0, c1, format(20, Numeric, 0, Numeric, 0, Numeric), Some((1, 3)), None)),  // 3!n16!n1!n
            'I' => Some(entry(c0, c1, format(15, Numeric, 0, Numeric, 0, Numeric), Some((1, 5)), None)),  // 5!n8!n2!n
            'K' => Some(entry(c0, c1, format(20, Numeric, 0, Numeric, 0, Numeric), Some((1, 4)), None)),  // 4!n6!n10!n
            'M' => Some(entry(c0, c1, format(1, Alphabetic, 10, Numeric, 12, Alphanumeric), Some((2, 6)), Some((7, 11)))),  // 1!a5!n5!n12!c
            'O' => Some(entry(c0, c1, format(19, Numeric, 0, Numeric, 0, Numeric), Some((1, 4)), Some((5, 7)))),  // 4!n3!n12!n
            'T' => Some(entry(c0, c1, format(21, Numeric, 0, Numeric, 0, Numeric), Some((1, 4)), Some((5, 8)))),  // 4!n4!n11!n2!n
            'V' => Some(entry(c0, c1, format(4, Alphabetic, 20, Numeric, 0, Numeric), Some((1, 4)), None)),  // 4!a20!n
            _ => None,
        },
        _ => None,
    }
}

/// Registry countries whose code starts with `T` to `Y`.
pub open spec fn registry_fields_t_to_y(c0: u8, c1: u8) -> Option<IbanFields> {
    match c0 as char {
        'T' => match c1 as char {
            'L' => Some(entry(c0, c1, format(19, Numeric, 0, Numeric, 0, Numeric), Some((1, 3)), None)),  // 3!n14!n2!n
            'N' => Some(entry(c0, c1, format(20, Numeric, 0, Numeric, 0, Numeric), Some((1, 2)), Some((3, 5)))),  // 2!n3!n13!n2!n
            'R' => Some(entry(c0, c1, format(6, Numeric, 16, Alphanumeric, 0, Alphanumeric), Some((1, 5)), None)),  // 5!n1!n16!c
            _ => None,
        },
        'U' => match c1 as char {
            'A' => Some(entry(c0, c1, format(6, Numeric, 19, Alphanumeric, 0, Alphanumeric), Some((1, 6)), None)),  // 6!n19!c
            _ => None,
        },
        'V' => match c1 as char {
            'A' => Some(entry(c0, c1, format(18, Numeric, 0, Numeric, 0, Numeric), Some((1, 3)), None)),  // 3!n15!n
            'G' => Some(entry(c0, c1, format(4, Alphabetic, 16, Numeric, 0, Numeric), Some((1, 4)), None)),  // 4!a16!n
            _ => None,
        },
        'X' => match c1 as char {
            'K' => Some(entry(c0, c1, format(16, Numeric, 0, Numeric, 0, Numeric), Some((1, 2)), Some((3, 4)))),  // 4!n10!n2!n
            _ => None,
        },
        'Y' => match c1 as char {
            'E' => Some(entry(c0, c1, format(4, Alphabetic, 4, Numeric, 18, Alphanumeric), Some((1, 4)), Some((5, 8)))),  // 4!a4!n18!c
            _ => None,
        },
        _ => None,
    }
}

/// The countries outside the registry, if `c0 c1` is one of them.
pub open spec fn non_registry_fields(c0: u8, c1: u8) -> Option<IbanFields> {
    match c0 as char {
        'A' => match c1 as char {
            'O' => Some(entry(c0, c1, format(21, Numeric, 0, Numeric, 0, Numeric), None, None)),  // 21!n
            _ => None,
        },
        'B' => match c1 as char {
            'F' => Some(entry(c0, c1, format(2, Alphanumeric, 22, Numeric, 0, Numeric), None, None)),  // 2!c22!n
            'J' => Some(entry(c0, c1, format(2, Alphanumeric, 22, Numeric, 0, Numeric), None, None)),  // 2!c22!n
            _ => None,
        },
        'C' => match c1 as char {
            'F' => Some(entry(c0, c1, format(23, Numeric, 0, Numeric, 0, Numeric), None, None)),  // 23!n
            'G' => Some(entry(c0, c1, format(23, Numeric, 0, Numeric, 0, Numeric), None, None)),  // 23!n
            'I' => Some(entry(c0, c1, format(2, Alphanumeric, 22, Numeric, 0, Numeric), None, None)),  // 2!c22!n
            'M' => Some(entry(c0, c1, format(23, Numeric, 0, Numeric, 0, Numeric), None, None)),  // 23!n
            'V' => Some(entry(c0, c1, format(21, Numeric, 0, Numeric, 0, Numeric), None, None)),  // 21!n
            _ => None,
        },
        'D' => match c1 as char {
            'Z' => Some(entry(c0, c1, format(22, Numeric, 0, Numeric, 0, Numeric), None, None)),  // 22!n
            _ => None,
        },
        'G' => match c1 as char {
            'A' => Some(entry(c0, c1, format(23, Numeric, 0, Numeric, 0, Numeric), None, None)),  // 23!n
            'Q' => Some(entry(c0, c1, format(23, Numeric, 0, Numeric, 0, Numeric), None, None)),  // 23!n
            'W' => Some(entry(c0, c1, format(2, Alphanumeric, 19, Numeric, 0, Numeric), None, None)),  // 2!c19!n
            _ => None,
        },
        'I' => match c1 as char {
            'R' => Some(entry(c0, c1, format(22, Numeric, 0, Numeric, 0, Numeric), None, None)),  // 22!n
            _ => None,
        },
        'K' => match c1 as char {
            'M' => Some(entry(c0, c1, format(23, Numeric, 0, Numeric, 0, Numeric), None, None)),  // 23!n
            _ => None,
        },
        'M' => match c1 as char {
            'A' => Some(entry(c0, c1, format(24, Numeric, 0, Numeric, 0, Numeric), Some((1, 5)), Some((6, 10)))),  // 24!n
            'G' => Some(entry(c0, c1, format(23, Numeric, 0, Numeric, 0, Numeric), None, None)),  // 23!n
            'L' => Some(entry(c0, c1, format(2, Alphanumeric, 22, Numeric, 0, Numeric), None, None)),  // 2!c22!n
            'Z' => Some(entry(c0, c1, format(21, Numeric, 0, Numeric, 0, Numeric), None, None)),  // 21!n
            _ => None,
        },
        'N' => match c1 as char {
            'E' => Some(entry(c0, c1, format(2, Alphanumeric, 22, Numeric, 0, Numeric), None, None)),  // 2!c22!n
            _ => None,
        },
        'S' => match c1 as char {
            'N' => Some(entry(c0, c1, format(2, Alphanumeric, 22, Numeric, 0, Numeric), None, None)),  // 2!c22!n
            _ => None,
        },
        'T' => match c1 as char {
            'D' => Some(entry(c0, c1, format(23, Numeric, 0, Numeric, 0, Numeric), None, None)),  // 23!n
            'G' => Some(entry(c0, c1, format(2, Alphanumeric, 22, Numeric, 0, Numeric), None, None)),  // 2!c22!n
            _ => None,
        },
        _ => None,
    }
}

/// The definition used for the country `c0 c1` when validating against `set`.
pub open spec fn country_fields(c0: u8, c1: u8, set: CountrySet) -> Option<IbanFields> {
    match set {
        CountrySet::Registry => registry_fields(c0, c1),
        CountrySet::WithNonRegistry => match registry_fields(c0, c1) {
            Some(f) => Some(f),
            None => non_registry_fields(c0, c1),
        },
    }
}

fn registry_lookup_a(c0: u8, c1: u8) -> (fields: Option<IbanFields>)
    ensures
        fields == registry_fields_a(c0, c1),
{
    match c0 as char {
        'A' => match c1 as char {
            'D' => Some(make_entry(c0, c1, make_format(8, Numeric, 12, Alphanumeric, 0, Alphanumeric), Some((1, 4)), Some((5, 8)))),  // 4!n4!n12!c
            'E' => Some(make_entry(c0, c1, make_format(19, Numeric, 0, Numeric, 0, Numeric), Some((1, 3)), None)),  // 3!n16!n
            'L' => Some(make_entry(c0, c1, make_format(8, Numeric, 16, Alphanumeric, 0, Alphanumeric), Some((1, 3)), Some((4, 8)))),  // 8!n16!c
            'T' => Some(make_entry(c0, c1, make_format(16, Numeric, 0, Numeric, 0, Numeric), Some((1, 5)), None)),  // 5!n11!n
            'Z' => Some(make_entry(c0, c1, make_format(4, Alphabetic, 20, Alphanumeric, 0, Alphanumeric), Some((1, 4)), None)),  // 4!a20!c
            _ => None,
        },
        _ => None,
    }
}

fn registry_lookup_b(c0: u8, c1: u8) -> (fields: Option<IbanFields>)
    ensures
        fields == registry_fields_b(c0, c1),
{
    match c0 as char {
        'B' => match c1 as char {
            'A' => Some(make_entry(c0, c1, make_format(16, Numeric, 0, Numeric, 0, Numeric), Some((1, 3)), Some((4, 6)))),  // 3!n3!n8!n2!n
            'E' => Some(make_entry(c0, c1, make_format(12, Numeric, 0, Numeric, 0, Numeric), Some((1, 3)), None)),  // 3!n7!n2!n
            'G' => Some(make_entry(c0, c1, make_format(4, Alphabetic, 6, Numeric, 8, Alphanumeric), Some((1, 4)), Some((5, 8)))),  // 4!a4!n2!n8!c
            'H' => Some(make_entry(c0, c1, make_format(4, Alphabetic, 14, Alphanumeric, 0, Alphanumeric), Some((1, 4)), None)),  // 4!a14!c
            'I' => Some(make_entry(c0, c1, make_format(23, Numeric, 0, Numeric, 0, Numeric), Some((1, 5)), Some((6, 10)))),  // 5!n5!n11!n2!n
            'R' => Some(make_entry(c0, c1, make_format(23, Numeric, 1, Alphabetic, 1, Alphanumeric), Some((1, 8)), Some((9, 13)))),  // 8!n5!n10!n1!a1!c
            'Y' => Some(make_entry(c0, c1, make_format(4, Alphanumeric, 4, Numeric, 16, Alphanumeric), Some((1, 4)), None)),  // 4!c4!n16!c
            _ => None,
        },
        _ => None,
    }
}

fn registry_lookup_c_to_d(c0: u8, c1: u8) -> (fields: Option<IbanFields>)
    ensures
        fields == registry_fields_c_to_d(c0, c1),
{
    match c0 as char {
        'C' => match c1 as char {
            'H' => Some(make_entry(c0, c1, make_format(5, Numeric, 12, Alphanumeric, 0, Alphanumeric), Some((1, 5)), None)),  // 5!n12!c
            'R' => Some(make_entry(c0, c1, make_format(18, Numeric, 0, Numeric, 0, Numeric), Some((1, 4)), None)),  // 4!n14!n
            'Y' => Some(make_entry(c0, c1, make_format(8, Numeric, 16, Alphanumeric, 0, Alphanumeric), Some((1, 3)), Some((4, 8)))),  // 3!n5!n16!c
            'Z' => Some(make_entry(c0, c1, make_format(20, Numeric, 0, Numeric, 0, Numeric), Some((1, 4)), None)),  // 4!n6!n10!n
            _ => None,
        },
        'D' => match c1 as char {
            'E' => Some(make_entry(c0, c1, make_format(18, Numeric, 0, Numeric, 0, Numeric), Some((1, 8)), None)),  // 8!n10!n
            'J' => Some(make_entry(c0, c1, make_format(23, Numeric, 0, Numeric, 0, Numeric), Some((1, 5)), Some((6, 10)))),  // 5!n5!n11!n2!n
            'K' => Some(make_entry(c0, c1, make_format(14, Numeric, 0, Numeric, 0, Numeric), Some((1, 4)), None)),  // 4!n9!n1!n
            'O' => Some(make_entry(c0, c1, make_format(4, Alphanumeric, 20, Numeric, 0, Numeric), Some((1, 4)), None)),  // 4!c20!n
            _ => None,
        },
        _ => None,
    }
}

fn registry_lookup_e_to_f(c0: u8, c1: u8) -> (fields: Option<IbanFields>)
    ensures
        fields == registry_fields_e_to_f(c0, c1),
{
    match c0 as char {
        'E' => match c1 as char {
            'E' => Some(make_entry(c0, c1, make_format(16, Numeric, 0, Numeric, 0, Numeric), Some((1, 2)), None)),  // 2!n14!n
            'G' => Some(make_entry(c0, c1, make_format(25, Numeric, 0, Numeric, 0, Numeric), Some((1, 4)), Some((5, 8)))),  // 4!n4!n17!n
            'S' => Some(make_entry(c0, c1, make_format(20, Numeric, 0, Numeric, 0, Numeric), Some((1, 4)), Some((5, 8)))),  // 4!n4!n1!n1!n10!n
            _ => None,
        },
        'F' => match c1 as char {
            'I' => Some(make_entry(c0, c1, make_format(14, Numeric, 0, Numeric, 0, Numeric), Some((1, 3)), None)),  // 3!n11!n
            'K' => Some(make_entry(c0, c1, make_format(2, Alphabetic, 12, Numeric, 0, Numeric), Some((1, 2)), None)),  // 2!a12!n
            'O' => Some(make_entry(c0, c1, make_format(14, Numeric, 0, Numeric, 0, Numeric), Some((1, 4)), None)),  // 4!n9!n1!n
            'R' => Some(make_entry(c0, c1, make_format(10, Numeric, 11, Alphanumeric, 2, Numeric), Some((1, 5)), Some((6, 10)))),  // 5!n5!n11!c2!n
            _ => None,
        },
        _ => None,
    }
}

fn registry_lookup_g_to_h(c0: u8, c1: u8) -> (fields: Option<IbanFields>)
    ensures
        fields == registry_fields_g_to_h(c0, c1),
{
    match c0 as char {
        'G' => match c1 as char {
            'B' => Some(make_entry(c0, c1, make_format(4, Alphabetic, 14, Numeric, 0, Numeric), Some((1, 4)), Some((5, 10)))),  // 4!a6!n8!n
            'E' => Some(make_entry(c0, c1, make_format(2, Alphabetic, 16, Numeric, 0, Numeric), Some((1, 2)), None)),  // 2!a16!n
            'I' => Some(make_entry(c0, c1, make_format(4, Alphabetic, 15, Alphanumeric, 0, Alphanumeric), Some((1, 4)), None)),  // 4!a15!c
            'L' => Some(make_entry(c0, c1, make_format(14, Numeric, 0, Numeric, 0, Numeric), Some((1, 4)), None)),  // 4!n9!n1!n
            'R' => Some(make_entry(c0, c1, make_format(7, Numeric, 16, Alphanumeric, 0, Alphanumeric), Some((1, 3)), Some((4, 7)))),  // 3!n4!n16!c
            'T' => Some(make_entry(c0, c1, make_format(24, Alphanumeric, 0, Alphanumeric, 0, Alphanumeric), Some((1, 4)), None)),  // 4!c20!c
            _ => None,
        },
        'H' => match c1 as char {
            'N' => Some(make_entry(c0, c1, make_format(4, Alphabetic, 20, Numeric, 0, Numeric), Some((1, 4)), None)),  // 4!a20!n
            'R' => Some(make_entry(c0, c1, make_format(17, Numeric, 0, Numeric, 0, Numeric), Some((1, 7)), None)),  // 7!n10!n
            'U' => Some(make_entry(c0, c1, make_format(24, Numeric, 0, Numeric, 0, Numeric), Some((1, 3)), Some((4, 7)))),  // 3!n4!n1!n15!n1!n
            _ => None,
        },
        _ => None,
    }
}

fn registry_lookup_i_to_k(c0: u8, c1: u8) -> (fields: Option<IbanFields>)
    ensures
        fields == registry_fields_i_to_k(c0, c1),
{
    match c0 as char {
        'I' => match c1 as char {
            'E' => Some(make_entry(c0, c1, make_format(4, Alphabetic, 14, Numeric, 0, Numeric), Some((1, 4)), Some((5, 10)))),  // 4!a6!n8!n
            'L' => Some(make_entry(c0, c1, make_format(19, Numeric, 0, Numeric, 0, Numeric), Some((1, 3)), Some((4, 6)))),  // 3!n3!n13!n
            'Q' => Some(make_entry(c0, c1, make_format(4, Alphabetic, 15, Numeric, 0, Numeric), Some((1, 4)), Some((5, 7)))),  // 4!a3!n12!n
            'S' => Some(make_entry(c0, c1, make_format(22, Numeric, 0, Numeric, 0, Numeric), Some((1, 2)), Some((3, 4)))),  // 4!n2!n6!n10!n
            'T' => Some(make_entry(c0, c1, make_format(1, Alphabetic, 10, Numeric, 12, Alphanumeric), Some((2, 6)), Some((7, 11)))),  // 1!a5!n5!n12!c
            _ => None,
        },
        'J' => match c1 as char {
            'O' => Some(make_entry(c0, c1, make_format(4, Alphabetic, 4, Numeric, 18, Alphanumeric), Some((1, 4)), Some((5, 8)))),  // 4!a4!n18!c
            _ => None,
        },
        'K' => match c1 as char {
            'W' => Some(make_entry(c0, c1, make_format(4, Alphabetic, 22, Alphanumeric, 0, Alphanumeric), Some((1, 4)), None)),  // 4!a22!c
            'Z' => Some(make_entry(c0, c1, make_format(3, Numeric, 13, Alphanumeric, 0, Alphanumeric), Some((1, 3)), None)),  // 3!n13!c
            _ => None,
        },
        _ => None,
    }
}

fn registry_lookup_l(c0: u8, c1: u8) -> (fields: Option<IbanFields>)
    ensures
        fields == registry_fields_l(c0, c1),
{
    match c0 as char {
        'L' => match c1 as char {
            'B' => Some(make_entry(c0, c1, make_format(4, Numeric, 20, Alphanumeric, 0, Alphanumeric), Some((1, 4)), None)),  // 4!n20!c
            'C' => Some(make_entry(c0, c1, make_format(4, Alphabetic, 24, Alphanumeric, 0, Alphanumeric), Some((1, 4)), None)),  // 4!a24!c
            'I' => Some(make_entry(c0, c1, make_format(5, Numeric, 12, Alphanumeric, 0, Alphanumeric), Some((1, 5)), None)),  // 5!n12!c
            'T' => Some(make_entry(c0, c1, make_format(16, Numeric, 0, Numeric, 0, Numeric), Some((1, 5)), None)),  // 5!n11!n
            'U' => Some(make_entry(c0, c1, make_format(3, Numeric, 13, Alphanumeric, 0, Alphanumeric), Some((1, 3)), None)),  // 3!n13!c
            'V' => Some(make_entry(c0, c1, make_format(4, Alphabetic, 13, Alphanumeric, 0, Alphanumeric), Some((1, 4)), None)),  // 4!a13!c
            'Y' => Some(make_entry(c0, c1, make_format(21, Numeric, 0, Numeric, 0, Numeric), Some((1, 3)), Some((4, 6)))),  // 3!n3!n15!n
            _ => None,
        },
        _ => None,
    }
}

fn registry_lookup_m(c0: u8, c1: u8) -> (fields: Option<IbanFields>)
    ensures
        fields == registry_fields_m(c0, c1),
{
    match c0 as char {
        'M' => match c1 as char {
            'C' => Some(make_entry(c0, c1, make_format(10, Numeric, 11, Alphanumeric, 2, Numeric), Some((1, 5)), Some((6, 10)))),  // 5!n5!n11!c2!n
            'D' => Some(make_entry(c0, c1, make_format(20, Alphanumeric, 0, Alphanumeric, 0, Alphanumeric), Some((1, 2)), None)),  // 2!c18!c
            'E' => Some(make_entry(c0, c1, make_format(18, Numeric, 0, Numeric, 0, Numeric), Some((1, 3)), None)),  // 3!n13!n2!n
            'K' => Some(make_entry(c0, c1, make_format(3, Numeric, 10, Alphanumeric, 2, Numeric), Some((1, 3)), None)),  // 3!n10!c2!n
            'N' => Some(make_entry(c0, c1, make_format(16, Numeric, 0, Numeric, 0, Numeric), Some((1, 4)), None)),  // 4!n12!n
            'R' => Some(make_entry(c0, c1, make_format(23, Numeric, 0, Numeric, 0, Numeric), Some((1, 5)), Some((6, 10)))),  // 5!n5!n11!n2!n
            'T' => Some(make_entry(c0, c1, make_format(4, Alphabetic, 5, Numeric, 18, Alphanumeric), Some((1, 4)), Some((5, 9)))),  // 4!a5!n18!c
            'U' => Some(make_entry(c0, c1, make_format(4, Alphabetic, 19, Numeric, 3, Alphabetic), Some((1, 6)), Some((7, 8)))),  // 4!a2!n2!n12!n3!n3!a
            _ => None,
        },
        _ => None,
    }
}

fn registry_lookup_n_to_q(c0: u8, c1: u8) -> (fields: Option<IbanFields>)
    ensures
        fields == registry_fields_n_to_q(c0, c1),
{
    match c0 as char {
        'N' => match c1 as char {
            'I' => Some(make_entry(c0, c1, make_format(4, Alphabetic, 20, Numeric, 0, Numeric), Some((1, 4)), None)),  // 4!a20!n
            'L' => Some(make_entry(c0, c1, make_format(4, Alphabetic, 10, Numeric, 0, Numeric), Some((1, 4)), None)),  // 4!a10!n
            'O' => Some(make_entry(c0, c1, make_format(11, Numeric, 0, Numeric, 0, Numeric), Some((1, 4)), None)),  // 4!n6!n1!n
            _ => None,
        },
        'O' => match c1 as char {
            'M' => Some(make_entry(c0, c1, make_format(3, Numeric, 16, Alphanumeric, 0, Alphanumeric), Some((1, 3)), None)),  // 3!n16!c
            _ => None,
        },
        'P' => match c1 as char {
            'K' => Some(make_entry(c0, c1, make_format(4, Alphabetic, 16, Alphanumeric, 0, Alphanumeric), Some((1, 4)), None)),  // 4!a16!c
            'L' => Some(make_entry(c0, c1, make_format(24, Numeric, 0, Numeric, 0, Numeric), Some((1, 3)), Some((4, 8)))),  // 8!n16!n
            'S' => Some(make_entry(c0, c1, make_format(4, Alphabetic, 21, Alphanumeric, 0, Alphanumeric), Some((1, 4)), None)),  // 4!a21!c
            'T' => Some(make_entry(c0, c1, make_format(21, Numeric, 0, Numeric, 0, Numeric), Some((1, 4)), None)),  // 4!n4!n11!n2!n
            _ => None,
        },
        'Q' => match c1 as char {
            'A' => Some(make_entry(c0, c1, make_format(4, Alphabetic, 21, Alphanumeric, 0, Alphanumeric), Some((1, 4)), None)),  // 4!a21!c
            _ => None,
        },
        _ => None,
    }
}

fn registry_lookup_r(c0: u8, c1: u8) -> (fields: Option<IbanFields>)
    ensures
        fields == registry_fields_r(c0, c1),
{
    match c0 as char {
        'R' => match c1 as char {
            'O' => Some(make_entry(c0, c1, make_format(4, Alphabetic, 16, Alphanumeric, 0, Alphanumeric), Some((1, 4)), None)),  // 4!a16!c
            'S' => Some(make_entry(c0, c1, make_format(18, Numeric, 0, Numeric, 0, Numeric), Some((1, 3)), None)),  // 3!n13!n2!n
            'U' => Some(make_entry(c0, c1, make_format(14, Numeric, 15, Alphanumeric, 0, Alphanumeric), Some((1, 9)), Some((10, 14)))),  // 9!n5!n15!c
            _ => None,
        },
        _ => None,
    }
}

fn registry_lookup_s(c0: u8, c1: u8) -> (fields: Option<IbanFields>)
    ensures
        fields == registry_fields_s(c0, c1),
{
    match c0 as char {
        'S' => match c1 as char {
            'A' => Some(make_entry(c0, c1, make_format(2, Numeric, 18, Alphanumeric, 0, Alphanumeric), Some((1, 2)), None)),  // 2!n18!c
            'C' => Some(make_entry(c0, c1, make_format(4, Alphabetic, 20, Numeric, 3, Alphabetic), Some((1, 6)), Some((7, 8)))),  // 4!a2!n2!n16!n3!a
            'D' => Some(make_entry(c0, c1, make_format(14, Numeric, 0, Numeric, 0, Numeric), Some((1, 2)), None)),  // 2!n12!n
            'E' => Some(make_entry(c0, c1, make_format(20, Numeric, 0, Numeric, 0, Numeric), Some((1, 3)), None)),  // 3!n16!n1!n
            'I' => Some(make_entry(c0, c1, make_format(15, Numeric, 0, Numeric, 0, Numeric), Some((1, 5)), None)),  // 5!n8!n2!n
            'K' => Some(make_entry(c0, c1, make_format(20, Numeric, 0, Numeric, 0, Numeric), Some((1, 4)), None)),  // 4!n6!n10!n
            'M' => Some(make_entry(c0, c1, make_format(1, Alphabetic, 10, Numeric, 12, Alphanumeric), Some((2, 6)), Some((7, 11)))),  // 1!a5!n5!n12!c
            'O' => Some(make_entry(c0, c1, make_format(19, Numeric, 0, Numeric, 0, Numeric), Some((1, 4)), Some((5, 7)))),  // 4!n3!n12!n
            'T' => Some(make_entry(c0, c1, make_format(21, Numeric, 0, Numeric, 0, Numeric), Some((1, 4)), Some((5, 8)))),  // 4!n4!n11!n2!n
            'V' => Some(make_entry(c0, c1, make_format(4, Alphabetic, 20, Numeric, 0, Numeric), Some((1, 4)), None)),  // 4!a20!n
            _ => None,
        },
        _ => None,
    }
}

fn registry_lookup_t_to_y(c0: u8, c1: u8) -> (fields: Option<IbanFields>)
    ensures
        fields == registry_fields_t_to_y(c0, c1),
{
    match c0 as char {
        'T' => match c1 as char {
            'L' => Some(make_entry(c0, c1, make_format(19, Numeric, 0, Numeric, 0, Numeric), Some((1, 3)), None)),  // 3!n14!n2!n
            'N' => Some(make_entry(c0, c1, make_format(20, Numeric, 0, Numeric, 0, Numeric), Some((1, 2)), Some((3, 5)))),  // 2!n3!n13!n2!n
            'R' => Some(make_entry(c0, c1, make_format(6, Numeric, 16, Alphanumeric, 0, Alphanumeric), Some((1, 5)), None)),  // 5!n1!n16!c
            _ => None,
        },
        'U' => match c1 as char {
            'A' => Some(make_entry(c0, c1, make_format(6, Numeric, 19, Alphanumeric, 0, Alphanumeric), Some((1, 6)), None)),  // 6!n19!c
            _ => None,
        },
        'V' => match c1 as char {
            'A' => Some(make_entry(c0, c1, make_format(18, Numeric, 0, Numeric, 0, Numeric), Some((1, 3)), None)),  // 3!n15!n
            'G' => Some(make_entry(c0, c1, make_format(4, Alphabetic, 16, Numeric, 0, Numeric), Some((1, 4)), None)),  // 4!a16!n
            _ => None,
        },
        'X' => match c1 as char {
            'K' => Some(make_entry(c0, c1, make_format(16, Numeric, 0, Numeric, 0, Numeric), Some((1, 2)), Some((3, 4)))),  // 4!n10!n2!n
            _ => None,
        },
        'Y' => match c1 as char {
            'E' => Some(make_entry(c0, c1, make_format(4, Alphabetic, 4, Numeric, 18, Alphanumeric), Some((1, 4)), Some((5, 8)))),  // 4!a4!n18!c
            _ => None,
        },
        _ => None,
    }
}

fn registry_lookup(c0: u8, c1: u8) -> (fields: Option<IbanFields>)
    ensures
        fields == registry_fields(c0, c1),
{
    let first = c0 as char;
    if 'A' <= first && first <= 'A' {
        registry_lookup_a(c0, c1)
    } else if 'B' <= first && first <= 'B' {
        registry_lookup_b(c0, c1)
    } else if 'C' <= first && first <= 'D' {
        registry_lookup_c_to_d(c0, c1)
    } else if 'E' <= first && first <= 'F' {
        registry_lookup_e_to_f(c0, c1)
    } else if 'G' <= first && first <= 'H' {
        registry_lookup_g_to_h(c0, c1)
    } else if 'I' <= first && first <= 'K' {
        registry_lookup_i_to_k(c0, c1)
    } else if 'L' <= first && first <= 'L' {
        registry_lookup_l(c0, c1)
    } else if 'M' <= first && first <= 'M' {
        registry_lookup_m(c0, c1)
    } else if 'N' <= first && first <= 'Q' {
        registry_lookup_n_to_q(c0, c1)
    } else if 'R' <= first && first <= 'R' {
        registry_lookup_r(c0, c1)
    } else if 'S' <= first && first <= 'S' {
        registry_lookup_s(c0, c1)
    } else if 'T' <= first && first <= 'Y' {
        registry_lookup_t_to_y(c0, c1)
    } else {
        None
    }
}

fn non_registry_lookup(c0: u8, c1: u8) -> (fields: Option<IbanFields>)
    ensures
        fields == non_registry_fields(c0, c1),
{
    match c0 as char {
        'A' => match c1 as char {
            'O' => Some(make_entry(c0, c1, make_format(21, Numeric, 0, Numeric, 0, Numeric), None, None)),  // 21!n
            _ => None,
        },
        'B' => match c1 as char {
            'F' => Some(make_entry(c0, c1, make_format(2, Alphanumeric, 22, Numeric, 0, Numeric), None, None)),  // 2!c22!n
            'J' => Some(make_entry(c0, c1, make_format(2, Alphanumeric, 22, Numeric, 0, Numeric), None, None)),  // 2!c22!n
            _ => None,
        },
        'C' => match c1 as char {
            'F' => Some(make_entry(c0, c1, make_format(23, Numeric, 0, Numeric, 0, Numeric), None, None)),  // 23!n
            'G' => Some(make_entry(c0, c1, make_format(23, Numeric, 0, Numeric, 0, Numeric), None, None)),  // 23!n
            'I' => Some(make_entry(c0, c1, make_format(2, Alphanumeric, 22, Numeric, 0, Numeric), None, None)),  // 2!c22!n
            'M' => Some(make_entry(c0, c1, make_format(23, Numeric, 0, Numeric, 0, Numeric), None, None)),  // 23!n
            'V' => Some(make_entry(c0, c1, make_format(21, Numeric, 0, Numeric, 0, Numeric), None, None)),  // 21!n
            _ => None,
        },
        'D' => match c1 as char {
            'Z' => Some(make_entry(c0, c1, make_format(22, Numeric, 0, Numeric, 0, Numeric), None, None)),  // 22!n
            _ => None,
        },
        'G' => match c1 as char {
            'A' => Some(make_entry(c0, c1, make_format(23, Numeric, 0, Numeric, 0, Numeric), None, None)),  // 23!n
            'Q' => Some(make_entry(c0, c1, make_format(23, Numeric, 0, Numeric, 0, Numeric), None, None)),  // 23!n
            'W' => Some(make_entry(c0, c1, make_format(2, Alphanumeric, 19, Numeric, 0, Numeric), None, None)),  // 2!c19!n
            _ => None,
        },
        'I' => match c1 as char {
            'R' => Some(make_entry(c0, c1, make_format(22, Numeric, 0, Numeric, 0, Numeric), None, None)),  // 22!n
            _ => None,
        },
        'K' => match c1 as char {
            'M' => Some(make_entry(c0, c1, make_format(23, Numeric, 0, Numeric, 0, Numeric), None, None)),  // 23!n
            _ => None,
        },
        'M' => match c1 as char {
            'A' => Some(make_entry(c0, c1, make_format(24, Numeric, 0, Numeric, 0, Numeric), Some((1, 5)), Some((6, 10)))),  // 24!n
            'G' => Some(make_entry(c0, c1, make_format(23, Numeric, 0, Numeric, 0, Numeric), None, None)),  // 23!n
            'L' => Some(make_entry(c0, c1, make_format(2, Alphanumeric, 22, Numeric, 0, Numeric), None, None)),  // 2!c22!n
            'Z' => Some(make_entry(c0, c1, make_format(21, Numeric, 0, Numeric, 0, Numeric), None, None)),  // 21!n
            _ => None,
        },
        'N' => match c1 as char {
            'E' => Some(make_entry(c0, c1, make_format(2, Alphanumeric, 22, Numeric, 0, Numeric), None, None)),  // 2!c22!n
            _ => None,
        },
        'S' => match c1 as char {
            'N' => Some(make_entry(c0, c1, make_format(2, Alphanumeric, 22, Numeric, 0, Numeric), None, None)),  // 2!c22!n
            _ => None,
        },
        'T' => match c1 as char {
            'D' => Some(make_entry(c0, c1, make_format(23, Numeric, 0, Numeric, 0, Numeric), None, None)),  // 23!n
            'G' => Some(make_entry(c0, c1, make_format(2, Alphanumeric, 22, Numeric, 0, Numeric), None, None)),  // 2!c22!n
            _ => None,
        },
        _ => None,
    }
}

/// Definition of a registry country.
pub fn get_iban_fields(cc: [u8; 2]) -> (fields: Option<IbanFields>)
    ensures
        fields == registry_fields(cc[0], cc[1]),
{
    registry_lookup(cc[0], cc[1])
}

/// Definition of a country, looked up in the country set `set`.
pub fn get_iban_fields_with(cc: [u8; 2], set: CountrySet) -> (fields: Option<IbanFields>)
    ensures
        fields == country_fields(cc[0], cc[1], set),
{
    match set {
        CountrySet::Registry => registry_lookup(cc[0], cc[1]),
        CountrySet::WithNonRegistry => match registry_lookup(cc[0], cc[1]) {
            Some(f) => Some(f),
            None => non_registry_lookup(cc[0], cc[1]),
        },
    }
}

/// Whether `cc` is one of the countries outside the registry.
pub fn is_non_registry_country(cc: [u8; 2]) -> (found: bool)
    ensures
        found == non_registry_fields(cc[0], cc[1]) is Some,
{
    non_registry_lookup(cc[0], cc[1]).is_some()
}

/// Two-letter codes of the countries outside the registry.
pub const NON_REGISTRY_COUNTRIES: [[u8; 2]; 22] = [
    [0x41, 0x4f], // AO
    [0x42, 0x46], // BF
    [0x42, 0x4a], // BJ
    [0x43, 0x46], // CF
    [0x43, 0x47], // CG
    [0x43, 0x49], // CI
    [0x43, 0x4d], // CM
    [0x43, 0x56], // CV
    [0x44, 0x5a], // DZ
    [0x47, 0x41], // GA
    [0x47, 0x51], // GQ
    [0x47, 0x57], // GW
    [0x49, 0x52], // IR
    [0x4b, 0x4d], // KM
    [0x4d, 0x41], // MA
    [0x4d, 0x47], // MG
    [0x4d, 0x4c], // ML
    [0x4d, 0x5a], // MZ
    [0x4e, 0x45], // NE
    [0x53, 0x4e], // SN
    [0x54, 0x44], // TD
    [0x54, 0x47], // TG
];

/// `f` is well formed and is the definition of the country `c0 c1`, whose
/// code is made of two uppercase letters.
pub open spec fn sound_entry(f: IbanFields, c0: u8, c1: u8) -> bool {
    &&& f.well_formed()
    &&& f.ctry_cd == [c0, c1]
    &&& crate::letters::is_upper(c0)
    &&& crate::letters::is_upper(c1)
}

proof fn lemma_registry_a_sound(c0: u8, c1: u8)
    ensures
        registry_fields_a(c0, c1) matches Some(f) ==> sound_entry(f, c0, c1),
{
}

proof fn lemma_registry_b_sound(c0: u8, c1: u8)
    ensures
        registry_fields_b(c0, c1) matches Some(f) ==> sound_entry(f, c0, c1),
{
}

proof fn lemma_registry_c_to_d_sound(c0: u8, c1: u8)
    ensures
        registry_fields_c_to_d(c0, c1) matches Some(f) ==> sound_entry(f, c0, c1),
{
}

proof fn lemma_registry_e_to_f_sound(c0: u8, c1: u8)
    ensures
        registry_fields_e_to_f(c0, c1) matches Some(f) ==> sound_entry(f, c0, c1),
{
}

proof fn lemma_registry_g_to_h_sound(c0: u8, c1: u8)
    ensures
        registry_fields_g_to_h(c0, c1) matches Some(f) ==> sound_entry(f, c0, c1),
{
}

proof fn lemma_registry_i_to_k_sound(c0: u8, c1: u8)
    ensures
        registry_fields_i_to_k(c0, c1) matches Some(f) ==> sound_entry(f, c0, c1),
{
}

proof fn lemma_registry_l_sound(c0: u8, c1: u8)
    ensures
        registry_fields_l(c0, c1) matches Some(f) ==> sound_entry(f, c0, c1),
{
}

proof fn lemma_registry_m_sound(c0: u8, c1: u8)
    ensures
        registry_fields_m(c0, c1) matches Some(f) ==> sound_entry(f, c0, c1),
{
}

proof fn lemma_registry_n_to_q_sound(c0: u8, c1: u8)
    ensures
        registry_fields_n_to_q(c0, c1) matches Some(f) ==> sound_entry(f, c0, c1),
{
}

proof fn lemma_registry_r_sound(c0: u8, c1: u8)
    ensures
        registry_fields_r(c0, c1) matches Some(f) ==> sound_entry(f, c0, c1),
{
}

proof fn lemma_registry_s_sound(c0: u8, c1: u8)
    ensures
        registry_fields_s(c0, c1) matches Some(f) ==> sound_entry(f, c0, c1),
{
}

proof fn lemma_registry_t_to_y_sound(c0: u8, c1: u8)
    ensures
        registry_fields_t_to_y(c0, c1) matches Some(f) ==> sound_entry(f, c0, c1),
{
}

proof fn lemma_non_registry_sound(c0: u8, c1: u8)
    ensures
        non_registry_fields(c0, c1) matches Some(f) ==> sound_entry(f, c0, c1),
{
}

/// Every definition, in either country set, is well formed, is filed under
/// its own country code, and that code is made of two uppercase letters.
pub proof fn lemma_country_fields_well_formed(c0: u8, c1: u8, set: CountrySet)
    ensures
        country_fields(c0, c1, set) matches Some(f) ==> sound_entry(f, c0, c1),
{
    lemma_registry_a_sound(c0, c1);
    lemma_registry_b_sound(c0, c1);
    lemma_registry_c_to_d_sound(c0, c1);
    lemma_registry_e_to_f_sound(c0, c1);
    lemma_registry_g_to_h_sound(c0, c1);
    lemma_registry_i_to_k_sound(c0, c1);
    lemma_registry_l_sound(c0, c1);
    lemma_registry_m_sound(c0, c1);
    lemma_registry_n_to_q_sound(c0, c1);
    lemma_registry_r_sound(c0, c1);
    lemma_registry_s_sound(c0, c1);
    lemma_registry_t_to_y_sound(c0, c1);
    lemma_non_registry_sound(c0, c1);
}

/// The registry and the countries outside it are disjoint, and asking for the
/// wider set keeps the definition of every registry country.
pub proof fn lemma_country_sets_nest(c0: u8, c1: u8)
    ensures
        non_registry_fields(c0, c1) is Some ==> registry_fields(c0, c1) is None,
        registry_fields(c0, c1) is Some ==> country_fields(c0, c1, CountrySet::WithNonRegistry)
            == registry_fields(c0, c1),
        country_fields(c0, c1, CountrySet::Registry) is Some || non_registry_fields(c0, c1) is Some
            <==> country_fields(c0, c1, CountrySet::WithNonRegistry) is Some,
{
}

/// The bounds on the IBAN length are reached: Norway has the shortest IBAN
/// and Russia the longest.
pub proof fn lemma_length_bounds_are_tight()
    ensures
        registry_fields(0x4e, 0x4f) matches Some(f) && f.spec_iban_len() == IBAN_MIN_LEN,
        registry_fields(0x52, 0x55) matches Some(f) && f.spec_iban_len() == IBAN_MAX_LEN,
{
}

/// [`NON_REGISTRY_COUNTRIES`] lists exactly the countries outside the
/// registry: each code in it is one of them, and each of them is in it.
pub proof fn lemma_non_registry_codes()
    ensures
        forall|i: int|
            0 <= i < NON_REGISTRY_COUNTRIES@.len() ==> non_registry_fields(
                (#[trigger] NON_REGISTRY_COUNTRIES@[i])[0],
                NON_REGISTRY_COUNTRIES@[i][1],
            ) is Some,
        forall|c0: u8, c1: u8|
            #[trigger] non_registry_fields(c0, c1) is Some ==> exists|i: int|
                0 <= i < NON_REGISTRY_COUNTRIES@.len() && (#[trigger] NON_REGISTRY_COUNTRIES@[i])[0] == c0
                    && NON_REGISTRY_COUNTRIES@[i][1] == c1,
{
    let codes = NON_REGISTRY_COUNTRIES@;
    assert(codes.len() == 22);
    assert(codes[0][0] == 0x41 && codes[0][1] == 0x4f);
    assert(codes[1][0] == 0x42 && codes[1][1] == 0x46);
    assert(codes[2][0] == 0x42 && codes[2][1] == 0x4a);
    assert(codes[3][0] == 0x43 && codes[3][1] == 0x46);
    assert(codes[4][0] == 0x43 && codes[4][1] == 0x47);
    assert(codes[5][0] == 0x43 && codes[5][1] == 0x49);
    assert(codes[6][0] == 0x43 && codes[6][1] == 0x4d);
    assert(codes[7][0] == 0x43 && codes[7][1] == 0x56);
    assert(codes[8][0] == 0x44 && codes[8][1] == 0x5a);
    assert(codes[9][0] == 0x47 && codes[9][1] == 0x41);
    assert(codes[10][0] == 0x47 && codes[10][1] == 0x51);
    assert(codes[11][0] == 0x47 && codes[11][1] == 0x57);
    assert(codes[12][0] == 0x49 && codes[12][1] == 0x52);
    assert(codes[13][0] == 0x4b && codes[13][1] == 0x4d);
    assert(codes[14][0] == 0x4d && codes[14][1] == 0x41);
    assert(codes[15][0] == 0x4d && codes[15][1] == 0x47);
    assert(codes[16][0] == 0x4d && codes[16][1] == 0x4c);
    assert(codes[17][0] == 0x4d && codes[17][1] == 0x5a);
    assert(codes[18][0] == 0x4e && codes[18][1] == 0x45);
    assert(codes[19][0] == 0x53 && codes[19][1] == 0x4e);
    assert(codes[20][0] == 0x54 && codes[20][1] == 0x44);
    assert(codes[21][0] == 0x54 && codes[21][1] == 0x47);
    assert forall|i: int| 0 <= i < codes.len() implies non_registry_fields(
        (#[trigger] codes[i])[0],
        codes[i][1],
    ) is Some by {
        if i == 0 {
            assert(non_registry_fields(0x41, 0x4f) is Some);
        } else if i == 1 {
            assert(non_registry_fields(0x42, 0x46) is Some);
        } else if i == 2 {
            assert(non_registry_fields(0x42, 0x4a) is Some);
        } else if i == 3 {
            assert(non_registry_fields(0x43, 0x46) is Some);
        } else if i == 4 {
            assert(non_registry_fields(0x43, 0x47) is Some);
        } else if i == 5 {
            assert(non_registry_fields(0x43, 0x49) is Some);
        } else if i == 6 {
            assert(non_registry_fields(0x43, 0x4d) is Some);
        } else if i == 7 {
            assert(non_registry_fields(0x43, 0x56) is Some);
        } else if i == 8 {
            assert(non_registry_fields(0x44, 0x5a) is Some);
        } else if i == 9 {
            assert(non_registry_fields(0x47, 0x41) is Some);
        } else if i == 10 {
            assert(non_registry_fields(0x47, 0x51) is Some);
        } else if i == 11 {
            assert(non_registry_fields(0x47, 0x57) is Some);
        } else if i == 12 {
            assert(non_registry_fields(0x49, 0x52) is Some);
        } else if i == 13 {
            assert(non_registry_fields(0x4b, 0x4d) is Some);
        } else if i == 14 {
            assert(non_registry_fields(0x4d, 0x41) is Some);
        } else if i == 15 {
            assert(non_registry_fields(0x4d, 0x47) is Some);
        } else if i == 16 {
            assert(non_registry_fields(0x4d, 0x4c) is Some);
        } else if i == 17 {
            assert(non_registry_fields(0x4d, 0x5a) is Some);
        } else if i == 18 {
            assert(non_registry_fields(0x4e, 0x45) is Some);
        } else if i == 19 {
            assert(non_registry_fields(0x53, 0x4e) is Some);
        } else if i == 20 {
            assert(non_registry_fields(0x54, 0x44) is Some);
        } else if i == 21 {
            assert(non_registry_fields(0x54, 0x47) is Some);
        }
    }
    assert forall|c0: u8, c1: u8| #[trigger] non_registry_fields(c0, c1) is Some implies exists|i: int|
        0 <= i < codes.len() && (#[trigger] codes[i])[0] == c0 && codes[i][1] == c1 by {
        if c0 == 0x41 && c1 == 0x4f {
            assert(codes[0][0] == c0 && codes[0][1] == c1);
        } else if c0 == 0x42 && c1 == 0x46 {
            assert(codes[1][0] == c0 && codes[1][1] == c1);
        } else if c0 == 0x42 && c1 == 0x4a {
            assert(codes[2][0] == c0 && codes[2][1] == c1);
        } else if c0 == 0x43 && c1 == 0x46 {
            assert(codes[3][0] == c0 && codes[3][1] == c1);
        } else if c0 == 0x43 && c1 == 0x47 {
            assert(codes[4][0] == c0 && codes[4][1] == c1);
        } else if c0 == 0x43 && c1 == 0x49 {
            assert(codes[5][0] == c0 && codes[5][1] == c1);
        } else if c0 == 0x43 && c1 == 0x4d {
            assert(codes[6][0] == c0 && codes[6][1] == c1);
        } else if c0 == 0x43 && c1 == 0x56 {
            assert(codes[7][0] == c0 && codes[7][1] == c1);
        } else if c0 == 0x44 && c1 == 0x5a {
            assert(codes[8][0] == c0 && codes[8][1] == c1);
        } else if c0 == 0x47 && c1 == 0x41 {
            assert(codes[9][0] == c0 && codes[9][1] == c1);
        } else if c0 == 0x47 && c1 == 0x51 {
            assert(codes[10][0] == c0 && codes[10][1] == c1);
        } else if c0 == 0x47 && c1 == 0x57 {
            assert(codes[11][0] == c0 && codes[11][1] == c1);
        } else if c0 == 0x49 && c1 == 0x52 {
            assert(codes[12][0] == c0 && codes[12][1] == c1);
        } else if c0 == 0x4b && c1 == 0x4d {
            assert(codes[13][0] == c0 && codes[13][1] == c1);
        } else if c0 == 0x4d && c1 == 0x41 {
            assert(codes[14][0] == c0 && codes[14][1] == c1);
        } else if c0 == 0x4d && c1 == 0x47 {
            assert(codes[15][0] == c0 && codes[15][1] == c1);
        } else if c0 == 0x4d && c1 == 0x4c {
            assert(codes[16][0] == c0 && codes[16][1] == c1);
        } else if c0 == 0x4d && c1 == 0x5a {
            assert(codes[17][0] == c0 && codes[17][1] == c1);
        } else if c0 == 0x4e && c1 == 0x45 {
            assert(codes[18][0] == c0 && codes[18][1] == c1);
        } else if c0 == 0x53 && c1 == 0x4e {
            assert(codes[19][0] == c0 && codes[19][1] == c1);
        } else if c0 == 0x54 && c1 == 0x44 {
            assert(codes[20][0] == c0 && codes[20][1] == c1);
        } else if c0 == 0x54 && c1 == 0x47 {
            assert(codes[21][0] == c0 && codes[21][1] == c1);
        }
    }
}

} // verus!
