//! Lower-case hexadecimal text for byte strings.

use vstd::prelude::*;

verus! {

/// The sixteen hexadecimal digits, in the order of their values.
pub open spec fn hex_alphabet() -> Seq<char> {
    "0123456789abcdef"@
}

/// The digit that stands for the value `n`, where `0 <= n < 16`.
pub open spec fn hex_digit(n: int) -> char
    recommends
        0 <= n < 16,
{
    hex_alphabet()[n]
}

/// The hexadecimal spelling of `bytes`: the bytes in their order, each as
/// two digits, the high half first, with nothing between them.
pub open spec fn hex_text(bytes: Seq<u8>) -> Seq<char> {
    Seq::new(
        2 * bytes.len(),
        |i: int|
            if i % 2 == 0 {
                hex_digit(bytes[i / 2] as int / 16)
            } else {
                hex_digit(bytes[i / 2] as int % 16)
            },
    )
}

/// `hex_text` behind the marker `0x`.
pub open spec fn prefixed_hex(bytes: Seq<u8>) -> Seq<char> {
    "0x"@ + hex_text(bytes)
}

/// What the alphabet holds, digit by digit.
pub proof fn lemma_hex_alphabet()
    ensures
        hex_alphabet() =~= seq![
            '0', '1', '2', '3', '4', '5', '6', '7', '8', '9', 'a', 'b', 'c', 'd', 'e', 'f',
        ],
{
    reveal_strlit("0123456789abcdef");
}

/// Writes `bytes` in hexadecimal.
pub fn encode_hex(bytes: &[u8]) -> (text: String)
    ensures
        text@ == hex_text(bytes@),
{
    let digits = "0123456789abcdef";
    proof {
        lemma_hex_alphabet();
        assert(digits.is_ascii());
    }
    let mut text = String::new();
    let mut i: usize = 0;
    while i < bytes.len()
        invariant
            i <= bytes.len(),
            digits@ == hex_alphabet(),
            digits@.len() == 16,
            digits.is_ascii(),
            text@ == hex_text(bytes@.take(i as int)),
        decreases bytes.len() - i,
    {
        let byte: u8 = bytes[i];
        let high: usize = (byte / 16) as usize;
        let low: usize = (byte % 16) as usize;
        text.append(digits.substring_ascii(high, high + 1));
        text.append(digits.substring_ascii(low, low + 1));
        i += 1;
        assert(text@ =~= hex_text(bytes@.take(i as int)));
    }
    assert(bytes@.take(i as int) =~= bytes@);
    text
}

/// Writes `bytes` in hexadecimal behind the marker `0x`.
pub fn encode_prefixed_hex(bytes: &[u8]) -> (text: String)
    ensures
        text@ == prefixed_hex(bytes@),
{
    let mut text = String::from_str("0x");
    let digits = encode_hex(bytes);
    text.append(digits.as_str());
    text
}

/// Two values below sixteen with the same digit are the same value.
pub proof fn lemma_hex_digit_injective(m: int, n: int)
    requires
        0 <= m < 16,
        0 <= n < 16,
        hex_digit(m) == hex_digit(n),
    ensures
        m == n,
{
    lemma_hex_alphabet();
}

/// Each byte takes exactly two characters.
pub proof fn lemma_hex_text_len(bytes: Seq<u8>)
    ensures
        hex_text(bytes).len() == 2 * bytes.len(),
        prefixed_hex(bytes).len() == 2 + 2 * bytes.len(),
{
    reveal_strlit("0x");
}

/// The spelling loses nothing: byte strings with the same hexadecimal text
/// are equal.
pub proof fn lemma_hex_text_injective(a: Seq<u8>, b: Seq<u8>)
    requires
        hex_text(a) == hex_text(b),
    ensures
        a == b,
{
    lemma_hex_text_len(a);
    lemma_hex_text_len(b);
    assert forall|k: int| 0 <= k < a.len() implies a[k] == b[k] by {
        let high_a = hex_text(a)[2 * k];
        let low_a = hex_text(a)[2 * k + 1];
        assert(high_a == hex_digit(a[k] as int / 16));
        assert(low_a == hex_digit(a[k] as int % 16));
        assert(hex_text(b)[2 * k] == hex_digit(b[k] as int / 16));
        assert(hex_text(b)[2 * k + 1] == hex_digit(b[k] as int % 16));
        lemma_hex_digit_injective(a[k] as int / 16, b[k] as int / 16);
        lemma_hex_digit_injective(a[k] as int % 16, b[k] as int % 16);
    }
    assert(a =~= b);
}

/// The same holds behind the marker.
pub proof fn lemma_prefixed_hex_injective(a: Seq<u8>, b: Seq<u8>)
    requires
        prefixed_hex(a) == prefixed_hex(b),
    ensures
        a == b,
{
    let marker = "0x"@;
    assert(hex_text(a) =~= prefixed_hex(a).subrange(marker.len() as int, prefixed_hex(a).len() as int));
    assert(hex_text(b) =~= prefixed_hex(b).subrange(marker.len() as int, prefixed_hex(b).len() as int));
    lemma_hex_text_injective(a, b);
}

} // verus!
