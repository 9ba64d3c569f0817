//! Decimal text of the frame counter, kept in a fixed-capacity
//! `heapless::String` as the HUD needs no allocator.
use vstd::prelude::*;

verus! {

/// The fixed-capacity string type of the `heapless` crate.
#[verifier::external_type_specification]
#[verifier::external_body]
pub struct ExHeaplessString<const N: usize>(heapless::String<N>);

/// Bytes the HUD text may hold.
pub const TEXT_CAPACITY: usize = 64;

/// The characters a `heapless::String<64>` holds.
pub uninterp spec fn text_chars(s: heapless::String<64>) -> Seq<char>;

/// Bytes that UTF-8 takes for `c`.
pub open spec fn char_utf8_len(c: char) -> nat {
    if (c as u32) < 0x80 {
        1
    } else if (c as u32) < 0x800 {
        2
    } else if (c as u32) < 0x10000 {
        3
    } else {
        4
    }
}

/// Bytes that UTF-8 takes for the characters of `s`.
pub open spec fn utf8_len(s: Seq<char>) -> nat
    decreases s.len(),
{
    if s.len() == 0 {
        0
    } else {
        utf8_len(s.drop_last()) + char_utf8_len(s.last())
    }
}

/// Calls `heapless::String::<64>::new`, which gives an empty string.
#[verifier::external_body]
fn text_new() -> (s: heapless::String<64>)
    ensures
        text_chars(s) == Seq::<char>::empty(),
{
    heapless::String::new()
}

/// Calls `heapless::String::<64>::push`.  It appends `c` when its UTF-8
/// bytes still fit in the 64-byte capacity and answers `Ok`; otherwise it
/// leaves the string as it was and answers `Err`.
#[verifier::external_body]
fn text_push(s: &mut heapless::String<64>, c: char) -> (r: Result<(), ()>)
    ensures
        r is Ok <==> utf8_len(text_chars(*old(s))) + char_utf8_len(c) <= TEXT_CAPACITY,
        r is Ok ==> text_chars(*final(s)) == text_chars(*old(s)).push(c),
        r is Err ==> text_chars(*final(s)) == text_chars(*old(s)),
{
    s.push(c)
}

/// Calls `heapless::String::<64>::as_str` and collects the characters of
/// the string slice it gives.
#[verifier::external_body]
pub(crate) fn text_to_chars(s: &heapless::String<64>) -> (v: Vec<char>)
    ensures
        v@ == text_chars(*s),
{
    s.as_str().chars().collect()
}

/// The ASCII digit for `d` (below ten).
pub open spec fn digit_char(d: nat) -> char {
    (48 + d) as char
}

/// The decimal numeral of `n`, most significant digit first, without
/// leading zeros ("0" for zero).
pub open spec fn decimal_chars(n: nat) -> Seq<char>
    decreases n,
{
    if n < 10 {
        seq![digit_char(n)]
    } else {
        decimal_chars(n / 10).push(digit_char(n % 10))
    }
}

/// The characters of the bytes of `s` in reverse order.
spec fn reversed_chars(s: Seq<u8>) -> Seq<char>
    decreases s.len(),
{
    if s.len() == 0 {
        Seq::empty()
    } else {
        seq![s.last() as char] + reversed_chars(s.drop_last())
    }
}

proof fn lemma_reversed_push(s: Seq<u8>, b: u8)
    ensures
        reversed_chars(s.push(b)) == seq![b as char] + reversed_chars(s),
{
    assert(s.push(b).drop_last() =~= s);
}

proof fn lemma_ascii_utf8_len(s: Seq<char>)
    requires
        forall|i: int| 0 <= i < s.len() ==> (#[trigger] s[i] as u32) < 0x80,
    ensures
        utf8_len(s) == s.len(),
    decreases s.len(),
{
    if s.len() > 0 {
        lemma_ascii_utf8_len(s.drop_last());
    }
}

/// The decimal text of `num`, as the HUD shows the frame counter.
pub fn format_number(num: u32) -> (s: heapless::String<64>)
    ensures
        text_chars(s) == decimal_chars(num as nat),
        1 <= text_chars(s).len() <= 10,
{
    proof {
        lemma_decimal_len(num as nat);
        lemma_decimal_round_trip(num as nat);
    }
    let mut output = text_new();
    if num == 0 {
        let _ = text_push(&mut output, '0');
        assert(text_chars(output) =~= decimal_chars(0));
    } else {
        let mut n: u32 = num;
        let mut digits: Vec<u8> = Vec::new();
        proof {
            reveal_with_fuel(pow10, 11);
        }
        while n > 0
            invariant
                n > 0 ==> decimal_chars(num as nat) == decimal_chars(n as nat) + reversed_chars(
                    digits@,
                ),
                n == 0 ==> decimal_chars(num as nat) == reversed_chars(digits@),
                digits.len() <= 10,
                n > 0 ==> n < pow10((10 - digits.len()) as nat),
                forall|i: int| 0 <= i < digits.len() ==> 48 <= #[trigger] digits@[i] <= 57,
            decreases n,
        {
            let d: u8 = (n % 10) as u8 + 48;
            proof {
                lemma_reversed_push(digits@, d);
                assert(d as char == digit_char((n % 10) as nat));
                if n >= 10 {
                    assert(decimal_chars(n as nat) == decimal_chars((n / 10) as nat).push(
                        digit_char((n % 10) as nat),
                    ));
                }
            }
            digits.push(d);
            n = n / 10;
        }
        let mut k: usize = digits.len();
        assert(digits@.take(k as int) =~= digits@);
        assert(text_chars(output) + reversed_chars(digits@) =~= reversed_chars(digits@));
        while k > 0
            invariant
                k <= digits.len(),
                digits.len() <= 10,
                forall|i: int| 0 <= i < digits.len() ==> 48 <= #[trigger] digits@[i] <= 57,
                text_chars(output) + reversed_chars(digits@.take(k as int)) == reversed_chars(
                    digits@,
                ),
                text_chars(output).len() == digits.len() - k,
                forall|i: int|
                    0 <= i < text_chars(output).len() ==> (#[trigger] text_chars(output)[i] as u32)
                        < 0x80,
            decreases k,
        {
            let ghost before = text_chars(output);
            let c: char = digits[k - 1] as char;
            proof {
                lemma_ascii_utf8_len(before);
                assert(digits@.take(k as int).drop_last() =~= digits@.take(k - 1));
            }
            let _ = text_push(&mut output, c);
            k = k - 1;
            proof {
                assert(text_chars(output) == before.push(c));
                assert(text_chars(output) + reversed_chars(digits@.take(k as int)) =~= before
                    + reversed_chars(digits@.take(k + 1)));
            }
        }
        assert(digits@.take(0) =~= Seq::<u8>::empty());
        assert(text_chars(output) =~= decimal_chars(num as nat));
    }
    output
}

/// Ten to the power `k`.
pub open spec fn pow10(k: nat) -> nat
    decreases k,
{
    if k == 0 {
        1
    } else {
        10 * pow10((k - 1) as nat)
    }
}

/// The character is a decimal digit.
pub open spec fn is_digit(c: char) -> bool {
    48 <= (c as u32) <= 57
}

/// The number a string of decimal digits denotes, most significant first.
pub open spec fn decimal_value(s: Seq<char>) -> nat
    decreases s.len(),
{
    if s.len() == 0 {
        0
    } else {
        decimal_value(s.drop_last()) * 10 + ((s.last() as u32) - 48) as nat
    }
}

/// The decimal text of a number reads back as that number: it is made of
/// digits only, has no leading zero, and denotes the number.
pub proof fn lemma_decimal_round_trip(n: nat)
    ensures
        decimal_value(decimal_chars(n)) == n,
        decimal_chars(n).len() >= 1,
        forall|i: int| 0 <= i < decimal_chars(n).len() ==> is_digit(#[trigger] decimal_chars(n)[i]),
        decimal_chars(n)[0] == '0' ==> n == 0,
    decreases n,
{
    if n < 10 {
        assert(decimal_chars(n).drop_last() =~= Seq::<char>::empty());
        assert((digit_char(n) as u32) == 48 + n);
        assert(decimal_value(decimal_chars(n)) == decimal_value(Seq::<char>::empty()) * 10 + n);
    } else {
        lemma_decimal_round_trip(n / 10);
        let d = decimal_chars(n / 10);
        assert(decimal_chars(n).drop_last() =~= d);
        assert(decimal_chars(n)[0] == d[0]);
        vstd::arithmetic::div_mod::lemma_fundamental_div_mod(n as int, 10);
        assert((digit_char(n % 10) as u32) == 48 + n % 10);
        assert(decimal_value(decimal_chars(n)) == decimal_value(d) * 10 + n % 10);
        assert(decimal_value(d) == n / 10);
    }
}

/// The decimal numeral of a 32-bit number has at most ten digits.
pub proof fn lemma_decimal_len(n: nat)
    requires
        n <= 0xffff_ffff,
    ensures
        decimal_chars(n).len() <= 10,
{
    reveal_with_fuel(pow10, 11);
    lemma_decimal_len_bound(n, 10);
}

proof fn lemma_decimal_len_bound(n: nat, k: nat)
    requires
        k >= 1,
        n < pow10(k),
    ensures
        decimal_chars(n).len() <= k,
    decreases k,
{
    reveal_with_fuel(pow10, 11);
    if n >= 10 {
        lemma_decimal_len_bound(n / 10, (k - 1) as nat);
    }
}

/// Ten to a positive power is at least ten.
proof fn lemma_pow10_positive(k: nat)
    ensures
        pow10(k) >= 1,
        k >= 1 ==> pow10(k) >= 10,
    decreases k,
{
    if k > 0 {
        lemma_pow10_positive((k - 1) as nat);
    }
}

/// The decimal text of `n` has a character at position `i` exactly when
/// `i` is the first position or `n` is at least ten to the power `i`: it has
/// as many digits as `n` has in decimal.
pub proof fn lemma_decimal_digit_count(n: nat, i: nat)
    ensures
        i < decimal_chars(n).len() <==> (i == 0 || n >= pow10(i)),
    decreases n,
{
    lemma_pow10_positive(i);
    if n >= 10 {
        if i >= 1 {
            lemma_decimal_digit_count(n / 10, (i - 1) as nat);
            lemma_pow10_positive((i - 1) as nat);
            let p = pow10((i - 1) as nat);
            assert(pow10(i) == 10 * p);
            assert(n / 10 >= p <==> n >= 10 * p) by {
                vstd::arithmetic::div_mod::lemma_fundamental_div_mod(n as int, 10);
            }
        }
    }
}

} // verus!
