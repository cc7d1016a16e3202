//! Digits, decimal numbers and hexadecimal byte strings as text.

use vstd::prelude::*;
use vstd::string::*;

verus! {

/// The character that stands for the digit `d`, for digits below sixteen:
/// `'0'` to `'9'`, then `'a'` to `'f'`.
pub open spec fn digit_char(d: nat) -> char
    recommends
        d < 16,
{
    "0123456789abcdef"@[d as int]
}

/// Decimal notation of `n`: most significant digit first, no leading zero
/// except for zero itself.
pub open spec fn decimal(n: nat) -> Seq<char>
    decreases n,
{
    if n < 10 {
        seq![digit_char(n)]
    } else {
        decimal(n / 10).push(digit_char(n % 10))
    }
}

/// The nibble of `bytes` that the hexadecimal digit at position `i` shows:
/// the high half of byte `i / 2` at even positions, the low half at odd ones.
pub open spec fn nibble(bytes: Seq<u8>, i: int) -> nat
    recommends
        0 <= i < 2 * bytes.len(),
{
    if i % 2 == 0 {
        (bytes[i / 2] / 16) as nat
    } else {
        (bytes[i / 2] % 16) as nat
    }
}

/// Lower-case hexadecimal notation of `bytes`, two digits per byte.
pub open spec fn hex(bytes: Seq<u8>) -> Seq<char> {
    Seq::new(2 * bytes.len(), |i: int| digit_char(nibble(bytes, i)))
}

/// The digits are the ten decimal digits in their order, then the letters
/// `a` to `f` in theirs.
pub proof fn lemma_digit_char(d: nat)
    requires
        d < 16,
    ensures
        d < 10 ==> digit_char(d) as int == '0' as int + d,
        d >= 10 ==> digit_char(d) as int == 'a' as int + d - 10,
{
    reveal_strlit("0123456789abcdef");
}

/// A decimal notation is never empty, holds decimal digits only, and starts
/// with a zero only where the number is zero.
pub proof fn lemma_decimal_digits(n: nat)
    ensures
        decimal(n).len() >= 1,
        forall|i: int| 0 <= i < decimal(n).len() ==> '0' <= #[trigger] decimal(n)[i] <= '9',
        (decimal(n)[0] == '0') == (n == 0),
    decreases n,
{
    if n < 10 {
        lemma_digit_char(n);
    } else {
        lemma_decimal_digits(n / 10);
        lemma_digit_char(n % 10);
    }
}

/// A hexadecimal notation has two characters for each byte, all of them
/// decimal digits or letters from `a` to `f`.
pub proof fn lemma_hex_digits(bytes: Seq<u8>)
    ensures
        hex(bytes).len() == 2 * bytes.len(),
        forall|i: int|
            0 <= i < hex(bytes).len() ==> {
                let c = #[trigger] hex(bytes)[i];
                '0' <= c <= '9' || 'a' <= c <= 'f'
            },
{
    assert forall|i: int| 0 <= i < hex(bytes).len() implies {
        let c = #[trigger] hex(bytes)[i];
        '0' <= c <= '9' || 'a' <= c <= 'f'
    } by {
        lemma_digit_char(nibble(bytes, i));
    }
}

/// Appends the digit `d` to `out`.
pub fn push_digit(out: &mut String, d: usize)
    requires
        d < 16,
    ensures
        final(out)@ == old(out)@.push(digit_char(d as nat)),
{
    let table = "0123456789abcdef";
    proof {
        reveal_strlit("0123456789abcdef");
    }
    let digit = table.substring_ascii(d, d + 1);
    assert(digit@ =~= seq![digit_char(d as nat)]);
    out.append(digit);
    assert(out@ =~= old(out)@.push(digit_char(d as nat)));
}

/// Appends the decimal notation of `n` to `out`.
pub fn push_decimal(out: &mut String, n: usize)
    ensures
        final(out)@ == old(out)@ + decimal(n as nat),
    decreases n,
{
    if n >= 10 {
        push_decimal(out, n / 10);
    }
    push_digit(out, n % 10);
    assert(out@ =~= old(out)@ + decimal(n as nat));
}

/// Appends the hexadecimal notation of `bytes` to `out`.
pub fn push_hex(out: &mut String, bytes: &[u8])
    ensures
        final(out)@ == old(out)@ + hex(bytes@),
{
    let mut i: usize = 0;
    while i < bytes.len()
        invariant
            i <= bytes.len(),
            out@ == old(out)@ + hex(bytes@.take(i as int)),
        decreases bytes.len() - i,
    {
        let byte: u8 = bytes[i];
        let ghost before = out@;
        push_digit(out, (byte / 16) as usize);
        push_digit(out, (byte % 16) as usize);
        proof {
            let shorter = bytes@.take(i as int);
            let longer = bytes@.take(i + 1);
            assert(longer =~= shorter.push(byte));
            assert forall|k: int| 0 <= k < 2 * shorter.len() implies digit_char(
                nibble(longer, k),
            ) == digit_char(nibble(shorter, k)) by {
                assert(longer[k / 2] == shorter[k / 2]);
            }
            assert(nibble(longer, 2 * i) == (byte / 16) as nat);
            assert(nibble(longer, 2 * i + 1) == (byte % 16) as nat);
            assert(hex(longer) =~= hex(shorter).push(digit_char((byte / 16) as nat)).push(
                digit_char((byte % 16) as nat),
            ));
            assert(out@ =~= old(out)@ + hex(longer));
        }
        i = i + 1;
    }
    assert(bytes@.take(i as int) =~= bytes@);
}

} // verus!
