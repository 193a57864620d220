//! Verified rendering of numbers as text: decimal strings, zero-padded
//! fields, fixed-point values with banker's rounding, and lowercase
//! hexadecimal, as the size, speed, duration and identifier displays need.

use vstd::prelude::*;

verus! {

use crate::text::{digit_char, hex_char};
use vstd::string::StringExecFns;

/// Decimal representation of a natural number, most significant digit first,
/// with no leading zeroes (zero itself is `"0"`).
pub open spec fn decimal_digits(n: nat) -> Seq<char>
    decreases n,
{
    if n < 10 {
        seq![digit_char(n)]
    } else {
        decimal_digits(n / 10) + seq![digit_char(n % 10)]
    }
}

/// Two-digit decimal field, zero padded, for values below one hundred.
pub open spec fn two_digit_chars(n: nat) -> Seq<char> {
    seq![digit_char(n / 10), digit_char(n % 10)]
}

/// A scaled value rendered with one decimal place: `v` counts tenths.
pub open spec fn fixed1_chars(v: nat) -> Seq<char> {
    decimal_digits(v / 10) + seq!['.', digit_char(v % 10)]
}

/// A scaled value rendered with two decimal places: `v` counts hundredths.
pub open spec fn fixed2_chars(v: nat) -> Seq<char> {
    decimal_digits(v / 100) + seq!['.'] + two_digit_chars(v % 100)
}

/// `n / d` rounded to the nearest integer, ties to the even neighbour: the
/// rounding that the standard library applies when printing a binary
/// fraction with fixed precision.
pub open spec fn half_even(n: nat, d: nat) -> nat
    recommends
        d > 0,
{
    let q = n / d;
    let r = n % d;
    if 2 * r > d {
        q + 1
    } else if 2 * r < d {
        q
    } else if q % 2 == 0 {
        q
    } else {
        q + 1
    }
}

/// Fixed-width lowercase hexadecimal representation, most significant digit
/// first; `width` nibbles are always produced.
pub open spec fn hex_digits_fixed(n: nat, width: nat) -> Seq<char>
    decreases width,
{
    if width == 0 {
        Seq::empty()
    } else {
        hex_digits_fixed(n / 16, (width - 1) as nat) + seq![hex_char(n % 16)]
    }
}

/// Lowercase hexadecimal of a byte sequence, two digits per byte.
pub open spec fn bytes_hex(bs: Seq<u8>) -> Seq<char>
    decreases bs.len(),
{
    if bs.len() == 0 {
        Seq::empty()
    } else {
        seq![hex_char(bs[0] as nat / 16), hex_char(bs[0] as nat % 16)] + bytes_hex(bs.drop_first())
    }
}

/// One decimal digit as a string slice.
pub fn digit_str(d: u64) -> (r: &'static str)
    requires
        d < 10,
    ensures
        r@ == seq![digit_char(d as nat)],
{
    proof {
        reveal_strlit("0");
        reveal_strlit("1");
        reveal_strlit("2");
        reveal_strlit("3");
        reveal_strlit("4");
        reveal_strlit("5");
        reveal_strlit("6");
        reveal_strlit("7");
        reveal_strlit("8");
        reveal_strlit("9");
    }
    let r: &'static str = if d == 0 {
        "0"
    } else if d == 1 {
        "1"
    } else if d == 2 {
        "2"
    } else if d == 3 {
        "3"
    } else if d == 4 {
        "4"
    } else if d == 5 {
        "5"
    } else if d == 6 {
        "6"
    } else if d == 7 {
        "7"
    } else if d == 8 {
        "8"
    } else {
        "9"
    };
    proof {
        assert(r@ =~= seq![digit_char(d as nat)]);
    }
    r
}

/// One lowercase hexadecimal digit as a string slice.
pub fn hex_digit_str(d: u64) -> (r: &'static str)
    requires
        d < 16,
    ensures
        r@ == seq![hex_char(d as nat)],
{
    if d < 10 {
        digit_str(d)
    } else {
        proof {
            reveal_strlit("a");
            reveal_strlit("b");
            reveal_strlit("c");
            reveal_strlit("d");
            reveal_strlit("e");
            reveal_strlit("f");
        }
        let r: &'static str = if d == 10 {
            "a"
        } else if d == 11 {
            "b"
        } else if d == 12 {
            "c"
        } else if d == 13 {
            "d"
        } else if d == 14 {
            "e"
        } else {
            "f"
        };
        proof {
            assert(r@ =~= seq![hex_char(d as nat)]);
        }
        r
    }
}

/// Decimal rendering of a 64-bit value.
pub fn u64_to_string(n: u64) -> (r: String)
    ensures
        r@ == decimal_digits(n as nat),
    decreases n,
{
    if n < 10 {
        let r = String::from_str(digit_str(n));
        proof {
            assert(r@ =~= decimal_digits(n as nat));
        }
        r
    } else {
        let mut r = u64_to_string(n / 10);
        r.append(digit_str(n % 10));
        proof {
            assert(r@ =~= decimal_digits(n as nat));
        }
        r
    }
}

/// Two-digit zero-padded decimal rendering.
pub fn two_digit_string(n: u64) -> (r: String)
    requires
        n < 100,
    ensures
        r@ == two_digit_chars(n as nat),
{
    let mut r = String::from_str(digit_str(n / 10));
    r.append(digit_str(n % 10));
    proof {
        assert(r@ =~= two_digit_chars(n as nat));
    }
    r
}

/// Fixed-point rendering with one decimal place; `v` counts tenths.
pub fn fixed1_string(v: u64) -> (r: String)
    ensures
        r@ == fixed1_chars(v as nat),
{
    proof {
        reveal_strlit(".");
    }
    let mut r = u64_to_string(v / 10);
    r.append(".");
    r.append(digit_str(v % 10));
    proof {
        assert(r@ =~= fixed1_chars(v as nat));
    }
    r
}

/// Fixed-point rendering with two decimal places; `v` counts hundredths.
pub fn fixed2_string(v: u64) -> (r: String)
    ensures
        r@ == fixed2_chars(v as nat),
{
    proof {
        reveal_strlit(".");
    }
    let mut r = u64_to_string(v / 100);
    r.append(".");
    let tail = two_digit_string(v % 100);
    r.append(tail.as_str());
    proof {
        assert(r@ =~= fixed2_chars(v as nat));
    }
    r
}

/// Exec form of `half_even` over a 128-bit dividend, as the larger scaled
/// units need; the quotient must fit in 64 bits.
pub fn half_even_u128(n: u128, d: u128) -> (res: u64)
    requires
        0 < d,
        (n as nat) / (d as nat) < 0xffff_ffff_ffff_ffff,
        d < 0x8000_0000_0000_0000_0000_0000_0000_0000,
    ensures
        (res as nat) == half_even(n as nat, d as nat),
{
    let q = n / d;
    let r = n % d;
    let inc: bool = if 2 * r > d {
        true
    } else if 2 * r < d {
        false
    } else {
        q % 2 == 1
    };
    if inc {
        (q + 1) as u64
    } else {
        q as u64
    }
}

/// Fixed-width lowercase hexadecimal rendering of a 64-bit value; the low
/// `width` nibbles are produced, most significant first.
pub fn u64_to_hex_width(n: u64, width: usize) -> (r: String)
    requires
        width <= 16,
    ensures
        r@ == hex_digits_fixed(n as nat, width as nat),
{
    let mut r = String::new();
    let mut i: usize = 0;
    while i < width
        invariant
            i <= width <= 16,
            r@ == hex_digits_fixed(((n as int) / vstd::arithmetic::power::pow(
                16,
                (width - i) as nat,
            )) as nat, i as nat),
        decreases width - i,
    {
        proof {
            vstd::arithmetic::power::lemma_pow_positive(16, (width - i - 1) as nat);
            vstd::arithmetic::power::lemma_pow_adds(16, (width - i - 1) as nat, 1);
            vstd::arithmetic::power::lemma_pow1(16);
            vstd::arithmetic::div_mod::lemma_div_denominator(
                n as int,
                vstd::arithmetic::power::pow(16, (width - i - 1) as nat) as int,
                16,
            );
        }
        let shift: u64 = (width - i - 1) as u64;
        let nibble: u64 = nibble_at(n, shift);
        r.append(hex_digit_str(nibble));
        proof {
            assert(r@ =~= hex_digits_fixed(((n as int) / vstd::arithmetic::power::pow(
                16,
                (width - i - 1) as nat,
            )) as nat, (i + 1) as nat));
        }
        i = i + 1;
    }
    proof {
        vstd::arithmetic::power::lemma_pow0(16);
    }
    r
}

/// Full-width (sixteen digit) lowercase hexadecimal of a 64-bit value.
pub fn u64_to_hex16(n: u64) -> (r: String)
    ensures
        r@ == hex_digits_fixed(n as nat, 16),
{
    u64_to_hex_width(n, 16)
}

/// The hexadecimal digit of `n` at nibble position `shift` from the least
/// significant end.
fn nibble_at(n: u64, shift: u64) -> (r: u64)
    requires
        shift < 16,
    ensures
        (r as int) == ((n as int) / vstd::arithmetic::power::pow(16, shift as nat)) % 16,
        r < 16,
{
    let mut v: u64 = n;
    let mut s: u64 = 0;
    proof {
        vstd::arithmetic::power::lemma_pow0(16);
    }
    while s < shift
        invariant
            s <= shift,
            (v as int) == (n as int) / vstd::arithmetic::power::pow(16, s as nat),
        decreases shift - s,
    {
        proof {
            vstd::arithmetic::power::lemma_pow_positive(16, s as nat);
            vstd::arithmetic::power::lemma_pow_adds(16, s as nat, 1);
            vstd::arithmetic::power::lemma_pow1(16);
            vstd::arithmetic::div_mod::lemma_div_denominator(
                n as int,
                vstd::arithmetic::power::pow(16, s as nat) as int,
                16,
            );
        }
        v = v / 16;
        s = s + 1;
    }
    v % 16
}

/// Lowercase hexadecimal of a byte vector, two digits per byte.
pub fn hex_of_byte_vec(bs: &Vec<u8>) -> (r: String)
    ensures
        r@ == bytes_hex(bs@),
{
    let mut r = String::new();
    let mut i: usize = 0;
    while i < bs.len()
        invariant
            i <= bs.len(),
            r@ == bytes_hex(bs@.take(i as int)),
        decreases bs.len() - i,
    {
        let b = bs[i];
        r.append(hex_digit_str((b / 16) as u64));
        r.append(hex_digit_str((b % 16) as u64));
        proof {
            lemma_bytes_hex_snoc(bs@.take(i as int), b);
            assert(bs@.take(i + 1) =~= bs@.take(i as int).push(b));
        }
        i = i + 1;
    }
    proof {
        assert(bs@.take(bs@.len() as int) =~= bs@);
    }
    r
}

/// Appending one byte appends its two hexadecimal digits.
proof fn lemma_bytes_hex_snoc(bs: Seq<u8>, b: u8)
    ensures
        bytes_hex(bs.push(b)) == bytes_hex(bs) + seq![
            hex_char(b as nat / 16),
            hex_char(b as nat % 16),
        ],
    decreases bs.len(),
{
    reveal_with_fuel(bytes_hex, 3);
    if bs.len() == 0 {
        assert(bs.push(b).len() == 1);
        assert(bs.push(b)[0] == b);
        assert(bs.push(b).drop_first() =~= Seq::<u8>::empty());
        assert(bytes_hex(bs.push(b)) =~= bytes_hex(bs) + seq![
            hex_char(b as nat / 16),
            hex_char(b as nat % 16),
        ]);
    } else {
        let tail = seq![hex_char(b as nat / 16), hex_char(b as nat % 16)];
        let head = seq![hex_char(bs[0] as nat / 16), hex_char(bs[0] as nat % 16)];
        assert(bs.push(b)[0] == bs[0]);
        assert(bs.push(b).drop_first() =~= bs.drop_first().push(b));
        assert(bytes_hex(bs.push(b)) == head + bytes_hex(bs.drop_first().push(b)));
        lemma_bytes_hex_snoc(bs.drop_first(), b);
        assert(bytes_hex(bs.drop_first().push(b)) == bytes_hex(bs.drop_first()) + tail);
        assert(bytes_hex(bs) == head + bytes_hex(bs.drop_first()));
        assert(head + (bytes_hex(bs.drop_first()) + tail) =~= (head + bytes_hex(bs.drop_first()))
            + tail);
    }
}

} // verus!
