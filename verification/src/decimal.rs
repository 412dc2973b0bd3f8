//! Decimal text for small numbers.

use vstd::prelude::*;

verus! {

/// The ten decimal digits, in the order of their values.
pub open spec fn decimal_alphabet() -> Seq<char> {
    "0123456789"@
}

/// The decimal spelling of `n`, without sign or leading zeros.
pub open spec fn decimal_text(n: nat) -> Seq<char>
    decreases n,
{
    if n < 10 {
        seq![decimal_alphabet()[n as int]]
    } else {
        decimal_text(n / 10).push(decimal_alphabet()[(n % 10) as int])
    }
}

/// Writes `n` in decimal.
pub fn encode_decimal(n: u16) -> (text: String)
    ensures
        text@ == decimal_text(n as nat),
    decreases n,
{
    let digits = "0123456789";
    proof {
        reveal_strlit("0123456789");
        assert(digits.is_ascii());
    }
    let last: usize = (n % 10) as usize;
    let mut text = if n < 10 {
        String::new()
    } else {
        encode_decimal(n / 10)
    };
    text.append(digits.substring_ascii(last, last + 1));
    assert(text@ =~= decimal_text(n as nat));
    text
}

} // verus!
