//! Stream identifiers: two random 32-bit numbers, written as sixteen hexadecimal
//! digits.

use vstd::arithmetic::div_mod::lemma_div_denominator;
use vstd::arithmetic::power::{lemma_pow0, lemma_pow_positive, pow};
use vstd::prelude::*;

verus! {

/// The digit for a value below sixteen.
pub open spec fn hex_digit(value: nat) -> char {
    "0123456789abcdef"@[value as int]
}

/// The last `digits` hexadecimal digits of `value`, with leading zeros.
pub open spec fn hex(value: nat, digits: nat) -> Seq<char>
    decreases digits,
{
    if digits == 0 {
        Seq::empty()
    } else {
        hex(value / 16, (digits - 1) as nat).push(hex_digit(value % 16))
    }
}

/// The identifier made of two numbers.
pub open spec fn stream_id_of(high: u32, low: u32) -> Seq<char> {
    hex(high as nat, 8) + hex(low as nat, 8)
}

/// Appends the last `digits` hexadecimal digits of `value` to `text`.
fn push_hex(text: &mut String, value: u32, digits: u32)
    ensures
        final(text)@ == old(text)@ + hex(value as nat, digits as nat),
    decreases digits,
{
    if digits > 0 {
        push_hex(text, value / 16, digits - 1);
        proof {
            reveal_strlit("0123456789abcdef");
        }
        let at: usize = (value % 16) as usize;
        text.append("0123456789abcdef".substring_char(at, at + 1));
    }
}

/// Returns the identifier made of two numbers: eight hexadecimal digits for each.
pub fn stream_id(high: u32, low: u32) -> (id: String)
    ensures
        id@ == stream_id_of(high, low),
{
    let mut id = String::new();
    push_hex(&mut id, high, 8);
    push_hex(&mut id, low, 8);
    id
}

/// `rand::random::<(u32, u32)>` draws two numbers, one after the other, from the
/// generator of the current thread. Every pair may come, so nothing is claimed of it.
#[verifier::external_body]
fn random_pair() -> (pair: (u32, u32)) {
    rand::random::<(u32, u32)>()
}

/// Whether a draw from the generator can have given `high` and then `low`.
pub closed spec fn drawn(high: u32, low: u32) -> bool {
    call_ensures(random_pair, (), (high, low))
}

/// Draws two numbers from the generator of the current thread.
pub(crate) fn draw() -> (pair: (u32, u32))
    ensures
        drawn(pair.0, pair.1),
{
    random_pair()
}

proof fn lemma_hex_len(value: nat, digits: nat)
    ensures
        hex(value, digits).len() == digits,
    decreases digits,
{
    if digits > 0 {
        lemma_hex_len(value / 16, (digits - 1) as nat);
    }
}

/// The value can be written in `digits` hexadecimal digits.
spec fn fits(value: nat, digits: nat) -> bool
    decreases digits,
{
    if digits == 0 {
        value == 0
    } else {
        fits(value / 16, (digits - 1) as nat)
    }
}

proof fn lemma_u32_fits(value: u32)
    ensures
        fits(value as nat, 8),
{
    reveal_with_fuel(fits, 9);
}

/// The code point of a digit: `0` to `9` and `a` to `f` follow each other.
proof fn lemma_digit_code(value: nat)
    requires
        value < 16,
    ensures
        hex_digit(value) as int == if value < 10 {
            48 + value
        } else {
            87 + value
        },
{
    reveal_strlit("0123456789abcdef");
    let digits = "0123456789abcdef"@;
    assert(digits[0] == '0' && digits[1] == '1' && digits[2] == '2' && digits[3] == '3');
    assert(digits[4] == '4' && digits[5] == '5' && digits[6] == '6' && digits[7] == '7');
    assert(digits[8] == '8' && digits[9] == '9' && digits[10] == 'a' && digits[11] == 'b');
    assert(digits[12] == 'c' && digits[13] == 'd' && digits[14] == 'e' && digits[15] == 'f');
}

proof fn lemma_hex_injective(a: nat, b: nat, digits: nat)
    requires
        fits(a, digits),
        fits(b, digits),
        hex(a, digits) == hex(b, digits),
    ensures
        a == b,
    decreases digits,
{
    if digits > 0 {
        let n = (digits - 1) as nat;
        lemma_hex_len(a / 16, n);
        lemma_hex_len(b / 16, n);
        assert(hex(a, digits).last() == hex_digit(a % 16));
        assert(hex(b, digits).last() == hex_digit(b % 16));
        assert(hex(a, digits).drop_last() =~= hex(a / 16, n));
        assert(hex(b, digits).drop_last() =~= hex(b / 16, n));
        lemma_hex_injective(a / 16, b / 16, n);
        lemma_digit_code(a % 16);
        lemma_digit_code(b % 16);
        assert(a % 16 == b % 16);
        assert(a / 16 == b / 16);
    }
}

proof fn lemma_hex_at(value: nat, digits: nat, at: nat)
    requires
        at < digits,
    ensures
        hex(value, digits).len() == digits,
        hex(value, digits)[digits - 1 - at] == hex_digit((value as int / pow(16, at) % 16) as nat),
    decreases digits,
{
    let n = (digits - 1) as nat;
    lemma_hex_len(value, digits);
    lemma_hex_len(value / 16, n);
    if at == 0 {
        lemma_pow0(16);
    } else {
        let before = (at - 1) as nat;
        lemma_hex_at(value / 16, n, before);
        lemma_pow_positive(16, before);
        lemma_div_denominator(value as int, 16, pow(16, before));
        reveal(pow);
    }
}

/// The characters of an identifier are the hexadecimal digits of its two numbers, with
/// lower-case letters: counted from its end, the digit at `at` of the first number stands
/// at that place of the first eight characters, and that of the second number at that
/// place of the last eight.
pub proof fn law_digits_of_a_stream_id(high: u32, low: u32, id: String, at: nat)
    requires
        call_ensures(stream_id, (high, low), id),
        at < 8,
    ensures
        id@.len() == 16,
        ({
            let digit = high as int / pow(16, at) % 16;
            id@[7 - at] as int == if digit < 10 {
                digit + '0' as int
            } else {
                digit - 10 + 'a' as int
            }
        }),
        ({
            let digit = low as int / pow(16, at) % 16;
            id@[15 - at] as int == if digit < 10 {
                digit + '0' as int
            } else {
                digit - 10 + 'a' as int
            }
        }),
{
    lemma_hex_at(high as nat, 8, at);
    lemma_hex_at(low as nat, 8, at);
    lemma_digit_code((high as int / pow(16, at) % 16) as nat);
    lemma_digit_code((low as int / pow(16, at) % 16) as nat);
}

/// An identifier has sixteen characters.
pub proof fn law_stream_id_length(high: u32, low: u32)
    ensures
        stream_id_of(high, low).len() == 16,
{
    lemma_hex_len(high as nat, 8);
    lemma_hex_len(low as nat, 8);
}

/// Different pairs of numbers make different identifiers.
pub proof fn law_stream_id_is_injective(high1: u32, low1: u32, high2: u32, low2: u32)
    requires
        stream_id_of(high1, low1) == stream_id_of(high2, low2),
    ensures
        high1 == high2,
        low1 == low2,
{
    lemma_hex_len(high1 as nat, 8);
    lemma_hex_len(high2 as nat, 8);
    lemma_hex_len(low1 as nat, 8);
    lemma_hex_len(low2 as nat, 8);
    let a = stream_id_of(high1, low1);
    let b = stream_id_of(high2, low2);
    assert(a.take(8) =~= hex(high1 as nat, 8));
    assert(b.take(8) =~= hex(high2 as nat, 8));
    assert(a.skip(8) =~= hex(low1 as nat, 8));
    assert(b.skip(8) =~= hex(low2 as nat, 8));
    lemma_u32_fits(high1);
    lemma_u32_fits(high2);
    lemma_u32_fits(low1);
    lemma_u32_fits(low2);
    lemma_hex_injective(high1 as nat, high2 as nat, 8);
    lemma_hex_injective(low1 as nat, low2 as nat, 8);
}

} // verus!
