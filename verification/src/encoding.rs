//! Texts made from bytes and numbers: hexadecimal and decimal notation.

use vstd::prelude::*;
use vstd::string::*;

verus! {

/// The sixteen hexadecimal digits in lower case, by value.
pub open spec fn lower_digits() -> Seq<char> {
    "0123456789abcdef"@
}

/// The sixteen hexadecimal digits in upper case, by value.
pub open spec fn upper_digits() -> Seq<char> {
    "0123456789ABCDEF"@
}

/// The hexadecimal notation of `bytes` over the digits `digits`: two digits
/// for each byte, the high half first, and nothing between them.
pub open spec fn spec_hex(bytes: Seq<u8>, digits: Seq<char>) -> Seq<char> {
    Seq::new(
        2 * bytes.len(),
        |i: int|
            if i % 2 == 0 {
                digits[bytes[i / 2] as int / 16]
            } else {
                digits[bytes[i / 2] as int % 16]
            },
    )
}

/// `bytes` in lower-case hexadecimal.
pub open spec fn spec_hex_lower(bytes: Seq<u8>) -> Seq<char> {
    spec_hex(bytes, lower_digits())
}

/// `bytes` in upper-case hexadecimal.
pub open spec fn spec_hex_upper(bytes: Seq<u8>) -> Seq<char> {
    spec_hex(bytes, upper_digits())
}

/// The ten decimal digits, by value.
pub open spec fn decimal_digits() -> Seq<char> {
    "0123456789"@
}

/// The decimal notation of a natural number, without leading zeros.
pub open spec fn spec_decimal_nat(n: nat) -> Seq<char>
    decreases n,
{
    if n < 10 {
        seq![decimal_digits()[n as int]]
    } else {
        spec_decimal_nat(n / 10).push(decimal_digits()[(n % 10) as int])
    }
}

/// The decimal notation of a whole number: a minus sign before the digits of
/// a negative one.
pub open spec fn spec_decimal(n: int) -> Seq<char> {
    if n < 0 {
        seq!['-'] + spec_decimal_nat((-n) as nat)
    } else {
        spec_decimal_nat(n as nat)
    }
}

/// Writes `bytes` over the sixteen digits in `digits`.
fn hex(bytes: &[u8], digits: &str) -> (text: String)
    requires
        digits@.len() == 16,
        digits.is_ascii(),
    ensures
        text@ == spec_hex(bytes@, digits@),
{
    let mut text = String::new();
    let mut i: usize = 0;
    while i < bytes.len()
        invariant
            i <= bytes.len(),
            digits@.len() == 16,
            digits.is_ascii(),
            text@.len() == 2 * i,
            forall|k: int| 0 <= k < 2 * i ==> text@[k] == #[trigger] spec_hex(bytes@, digits@)[k],
        decreases bytes.len() - i,
    {
        let byte = bytes[i];
        let high = (byte / 16) as usize;
        let low = (byte % 16) as usize;
        text.append(digits.substring_ascii(high, high + 1));
        text.append(digits.substring_ascii(low, low + 1));
        i += 1;
    }
    assert(text@ =~= spec_hex(bytes@, digits@));
    text
}

/// `bytes` in lower-case hexadecimal, two digits a byte and no separators.
pub fn hex_lower(bytes: &[u8]) -> (text: String)
    ensures
        text@ == spec_hex_lower(bytes@),
{
    proof {
        reveal_strlit("0123456789abcdef");
    }
    hex(bytes, "0123456789abcdef")
}

/// `bytes` in upper-case hexadecimal, two digits a byte and no separators.
pub fn hex_upper(bytes: &[u8]) -> (text: String)
    ensures
        text@ == spec_hex_upper(bytes@),
{
    proof {
        reveal_strlit("0123456789ABCDEF");
    }
    hex(bytes, "0123456789ABCDEF")
}

/// `n` in decimal notation.
pub fn decimal(n: i64) -> (text: String)
    ensures
        text@ == spec_decimal(n as int),
{
    let digits = "0123456789";
    proof {
        reveal_strlit("0123456789");
        reveal_strlit("-");
    }
    let magnitude: u64 = if n < 0 {
        (-(n + 1)) as u64 + 1
    } else {
        n as u64
    };
    let last = (magnitude % 10) as usize;
    let mut text = String::from_str(digits.substring_ascii(last, last + 1));
    let mut rest: u64 = magnitude / 10;
    while rest > 0
        invariant
            digits@ == decimal_digits(),
            digits@.len() == 10,
            digits.is_ascii(),
            spec_decimal_nat(magnitude as nat) == if rest > 0 {
                spec_decimal_nat(rest as nat) + text@
            } else {
                text@
            },
        decreases rest,
    {
        let digit = (rest % 10) as usize;
        let longer = String::from_str(digits.substring_ascii(digit, digit + 1)).concat(
            text.as_str(),
        );
        proof {
            let head = spec_decimal_nat(rest as nat);
            if rest >= 10 {
                assert(head == spec_decimal_nat((rest / 10) as nat).push(
                    decimal_digits()[(rest % 10) as int],
                ));
                assert(head + text@ =~= spec_decimal_nat((rest / 10) as nat) + longer@);
            } else {
                assert(head + text@ =~= longer@);
            }
        }
        text = longer;
        rest = rest / 10;
    }
    if n < 0 {
        String::from_str("-").concat(text.as_str())
    } else {
        text
    }
}

} // verus!
