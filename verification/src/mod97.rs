//! The ISO 7064 MOD 97-10 checksum, computed one character value at a time.
//!
//! Digits are worth 0 to 9 and letters 10 to 35; written in decimal, a letter
//! takes two digits. The checksum of a sequence of values is the remainder by
//! 97 of the number spelt by their decimal digits, and it can be accumulated
//! from left to right without ever holding that (large) number.
use vstd::prelude::*;

verus! {

/// Multiplier that shifts the accumulator past the decimal digits of `d`.
pub open spec fn shift_for(d: int) -> int {
    if d < 10 {
        10
    } else {
        100
    }
}

/// The accumulator after appending the value `d`.
pub open spec fn mod97_step(acc: int, d: int) -> int {
    (acc * shift_for(d) + d) % 97
}

/// The accumulator after the whole sequence `ds`, starting from 0.
pub open spec fn mod97_fold(ds: Seq<int>) -> int
    decreases ds.len(),
{
    if ds.len() == 0 {
        0
    } else {
        mod97_step(mod97_fold(ds.drop_last()), ds.last())
    }
}

/// The number written by the decimal digits of the values of `ds`, in order.
pub open spec fn decimal_value(ds: Seq<int>) -> int
    decreases ds.len(),
{
    if ds.len() == 0 {
        0
    } else {
        decimal_value(ds.drop_last()) * shift_for(ds.last()) + ds.last()
    }
}

/// All values of `ds` are character values (0 to 35).
pub open spec fn char_values(ds: Seq<int>) -> bool {
    forall|i: int| 0 <= i < ds.len() ==> 0 <= #[trigger] ds[i] < 36
}

/// The accumulated checksum is the remainder by 97 of the number the values spell.
pub proof fn lemma_mod97_fold_is_remainder(ds: Seq<int>)
    requires
        char_values(ds),
    ensures
        mod97_fold(ds) == decimal_value(ds) % 97,
        0 <= mod97_fold(ds) < 97,
    decreases ds.len(),
{
    if ds.len() > 0 {
        let init = ds.drop_last();
        let d = ds.last();
        assert(char_values(init));
        lemma_mod97_fold_is_remainder(init);
        let v = decimal_value(init);
        let m = shift_for(d);
        assert((v % 97) * m % 97 == v * m % 97) by {
            vstd::arithmetic::div_mod::lemma_mul_mod_noop_left(v, m, 97);
        }
        assert(((v % 97) * m + d) % 97 == (v * m + d) % 97) by {
            vstd::arithmetic::div_mod::lemma_add_mod_noop((v % 97) * m, d, 97);
            vstd::arithmetic::div_mod::lemma_add_mod_noop(v * m, d, 97);
        }
        vstd::arithmetic::div_mod::lemma_mod_bound(v * m + d, 97);
    }
}

/// One step of the accumulator.
pub fn mod97_next(acc: usize, d: usize) -> (next: usize)
    requires
        acc < 97,
        d < 36,
    ensures
        next == mod97_step(acc as int, d as int),
        next < 97,
{
    let shift: usize = if d < 10 { 10 } else { 100 };
    (acc * shift + d) % 97
}

/// Table of every accumulator step: entry `[acc][d]` is the accumulator after
/// appending the value `d` to the accumulator `acc`.
pub fn generate_mff_array() -> (table: Vec<Vec<u8>>)
    ensures
        table.len() == 97,
        forall|acc: int| 0 <= acc < 97 ==> (#[trigger] table[acc]).len() == 36,
        forall|acc: int, d: int|
            0 <= acc < 97 && 0 <= d < 36 ==> #[trigger] table[acc][d] == mod97_step(acc, d),
{
    let mut table: Vec<Vec<u8>> = Vec::new();
    let mut pseudo_acc: usize = 0;
    while pseudo_acc < 97
        invariant
            pseudo_acc <= 97,
            table.len() == pseudo_acc,
            forall|acc: int| 0 <= acc < pseudo_acc ==> (#[trigger] table[acc]).len() == 36,
            forall|acc: int, d: int|
                0 <= acc < pseudo_acc && 0 <= d < 36 ==> #[trigger] table[acc][d] == mod97_step(
                    acc,
                    d,
                ),
        decreases 97 - pseudo_acc,
    {
        let mut row: Vec<u8> = Vec::new();
        let mut pseudo_newchar: usize = 0;
        while pseudo_newchar < 36
            invariant
                pseudo_acc < 97,
                pseudo_newchar <= 36,
                row.len() == pseudo_newchar,
                forall|d: int|
                    0 <= d < pseudo_newchar ==> #[trigger] row[d] == mod97_step(
                        pseudo_acc as int,
                        d,
                    ),
            decreases 36 - pseudo_newchar,
        {
            let next = mod97_next(pseudo_acc, pseudo_newchar);
            row.push(next as u8);
            pseudo_newchar += 1;
        }
        table.push(row);
        pseudo_acc += 1;
    }
    table
}

} // verus!
