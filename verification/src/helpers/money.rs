//! Display of amounts kept in minor units (one hundred to the currency unit).

use vstd::prelude::*;
use crate::helpers::decimal::{append_decimal, digit_text, decimal_text, two_digits};

verus! {

/// Whole currency units in an amount of minor units, rounded toward zero.
pub open spec fn whole_units(amount: int) -> int {
    if amount >= 0 {
        amount / 100
    } else {
        -((-amount) / 100)
    }
}

/// Minor units left over beside the whole units, without sign.
pub open spec fn minor_rest(amount: int) -> nat {
    if amount >= 0 {
        (amount % 100) as nat
    } else {
        ((-amount) % 100) as nat
    }
}

/// The display text of an amount: the currency symbol, a space, the whole
/// units, a comma and the two-digit rest.
///
/// The sign is carried by the whole units alone, so an amount between
/// -99 and -1 reads like its positive counterpart.
pub open spec fn money_text(amount: int) -> Seq<char> {
    seq!['R', '$', ' '] + decimal_text(whole_units(amount)) + seq![','] + two_digits(
        minor_rest(amount),
    )
}

/// Formats an amount of minor units for display, as in `R$ 12,50` for 1250.
pub fn format_int_to_decimal(valor: i64) -> (text: String)
    ensures
        text@ == money_text(valor as int),
{
    let part_int: i64 = valor / 100;
    let rest: i64 = valor % 100;
    let part_float: i64 = if rest < 0 {
        -rest
    } else {
        rest
    };
    assert(part_int == whole_units(valor as int));
    assert(part_float == minor_rest(valor as int));
    proof {
        reveal_strlit("R$ ");
        reveal_strlit(",");
    }
    let mut text = "R$ ".to_owned();
    assert(text@ =~= seq!['R', '$', ' ']);
    append_decimal(&mut text, part_int);
    text.append(",");
    text.append(digit_text((part_float / 10) as u64));
    text.append(digit_text((part_float % 10) as u64));
    assert(text@ =~= money_text(valor as int));
    text
}

} // verus!
