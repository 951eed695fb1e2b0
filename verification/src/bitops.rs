//! Bit-level helpers: locating the lowest set bit of a word, reading a word
//! as a signed number, and sign extension of narrow immediates.

use vstd::arithmetic::div_mod::{
    lemma_fundamental_div_mod, lemma_fundamental_div_mod_converse, lemma_mod_decreases,
};
use vstd::arithmetic::power2::{
    lemma2_to64, lemma2_to64_rest, lemma_pow2_adds, lemma_pow2_pos, lemma_pow2_strictly_increases,
    lemma_pow2_unfold, pow2,
};
use vstd::bits::lemma_u64_shl_is_mul;
use vstd::prelude::*;

verus! {

/// The number of distinct 32-bit words, 2^32.
pub open spec fn word_range() -> int {
    0x1_0000_0000
}

/// The two's-complement reading of a 32-bit word.
pub open spec fn signed32(v: u32) -> int {
    if v < 0x8000_0000 {
        v as int
    } else {
        v as int - word_range()
    }
}

/// The 32-bit word that holds `x` modulo 2^32.
pub open spec fn wrap32(x: int) -> u32 {
    (x % word_range()) as u32
}

/// Reads `v` as a signed 32-bit number.
pub fn to_signed(v: u32) -> (r: i32)
    ensures
        r == signed32(v),
{
    assert(v as i32 == (if v < 0x8000_0000u32 {
        v as int
    } else {
        v as int - 0x1_0000_0000
    })) by (bit_vector);
    v as i32
}

/// Stores a signed 32-bit number as a word, keeping its bit pattern.
pub fn from_signed(x: i32) -> (r: u32)
    ensures
        r == wrap32(x as int),
        signed32(r) == x,
{
    assert(x as u32 == (if x >= 0i32 {
        x as int
    } else {
        x as int + 0x1_0000_0000
    })) by (bit_vector);
    x as u32
}

/// The index of the lowest set bit of `source`, or -1 where no bit is set.
pub open spec fn lowest_set_bit(source: u32) -> int
    decreases source,
{
    if source == 0 {
        -1
    } else if source % 2 == 1 {
        0
    } else {
        1 + lowest_set_bit(source / 2)
    }
}

/// What `lowest_set_bit` means: below the index every bit is clear, and the
/// bit at the index is set.
pub proof fn lemma_lowest_set_bit(source: u32)
    ensures
        source == 0 <==> lowest_set_bit(source) == -1,
        source != 0 ==> 0 <= lowest_set_bit(source) < 32,
        source != 0 ==> source as int % (pow2((lowest_set_bit(source) + 1) as nat) as int) == pow2(
            lowest_set_bit(source) as nat,
        ),
    decreases source,
{
    lemma2_to64();
    if source != 0 {
        if source % 2 == 1 {
            assert(pow2(1) == 2);
            assert(pow2(0) == 1);
        } else {
            let half = source / 2;
            lemma_lowest_set_bit(half);
            let k = lowest_set_bit(half);
            assert(half != 0);
            assert(half < 0x8000_0000);
            lemma_pow2_unfold((k + 1) as nat);
            lemma_pow2_unfold((k + 2) as nat);
            lemma_pow2_pos((k + 1) as nat);
            let m = pow2((k + 1) as nat) as int;
            // half = q * m + pow2(k), hence source = q * (2 * m) + 2 * pow2(k)
            let q = half as int / m;
            assert(half as int == m * q + half as int % m) by {
                lemma_fundamental_div_mod(half as int, m);
            }
            assert(source as int == (2 * m) * q + 2 * pow2(k as nat)) by (nonlinear_arith)
                requires
                    source as int == 2 * half as int,
                    half as int == m * q + pow2(k as nat),
            ;
            assert(2 * pow2(k as nat) == pow2((k + 1) as nat));
            assert(2 * m == pow2((k + 2) as nat));
            assert(pow2((k + 1) as nat) < pow2((k + 2) as nat)) by {
                lemma_pow2_strictly_increases((k + 1) as nat, (k + 2) as nat);
            }
            lemma_fundamental_div_mod_converse(
                source as int,
                2 * m,
                q,
                m,
            );
            if k >= 31 {
                // half >= 2^31 would follow, which no half of a word reaches
                lemma_pow2_strictly_increases(31, (k + 1) as nat);
                assert(half as int % m == pow2(k as nat));
                if k > 31 {
                    lemma_pow2_strictly_increases(31, k as nat);
                }
                assert(pow2(31) == 0x8000_0000);
                assert(half as int >= pow2(k as nat)) by {
                    lemma_mod_decreases(half as nat, m as nat);
                }
                assert(false);
            }
        }
    }
}

/// Returns the index of the lowest set bit of `source`, or -1 where
/// `source` is zero.
pub fn first_lsb_set(source: u32) -> (r: i32)
    ensures
        r == lowest_set_bit(source),
{
    let mut x: u32 = 0;
    assert(source >> 0u32 == source) by (bit_vector);
    while x < 32
        invariant
            x <= 32,
            lowest_set_bit(source) == (if lowest_set_bit(source >> x) == -1 {
                -1
            } else {
                x + lowest_set_bit(source >> x)
            }),
            x == 32 ==> source >> x == 0,
        decreases 32 - x,
    {
        let bit: u32 = 1u32 << x;
        proof {
            assert((source & (1u32 << x)) > 0 <==> (source >> x) % 2 == 1) by (bit_vector)
                requires
                    x < 32,
            ;
            assert((source >> x) / 2 == source >> ((x + 1) as u32)) by (bit_vector)
                requires
                    x < 32,
            ;
            assert(x == 31 ==> (source >> 31u32) / 2 == 0) by (bit_vector);
            lemma_lowest_set_bit((source >> x) / 2);
        }
        if source & bit > 0 {
            return x as i32;
        }
        x = x + 1;
    }
    -1
}

/// 2^e as a 64-bit number, for exponents up to 32.
fn power_of_two(e: u32) -> (r: u64)
    requires
        e <= 32,
    ensures
        r == pow2(e as nat),
{
    proof {
        lemma2_to64();
        lemma2_to64_rest();
        lemma_pow2_strictly_increases(e as nat, 33);
        lemma_u64_shl_is_mul(1, e as u64);
    }
    1u64 << e
}

/// The sign extension of `v` from `width` bits: a word that reads above
/// 2^(width-1) as a signed number is lowered by 2^width, any other is kept.
pub open spec fn sign_extend_spec(v: u32, width: u32) -> int {
    if signed32(v) > pow2((width - 1) as nat) {
        signed32(v) - pow2(width as nat)
    } else {
        signed32(v)
    }
}

/// Sign-extends the `width`-bit value `v` to a signed 32-bit number.
pub fn sign_extend(v: u32, width: u32) -> (r: i32)
    requires
        1 <= width < 32,
    ensures
        r == sign_extend_spec(v, width),
{
    let signed: i32 = to_signed(v);
    let half: u64 = power_of_two(width - 1);
    let full: u64 = power_of_two(width);
    proof {
        lemma2_to64();
        lemma2_to64_rest();
        lemma_pow2_strictly_increases((width - 1) as nat, 31);
        lemma_pow2_strictly_increases(width as nat, 32);
    }
    if signed as i64 > half as i64 {
        (signed as i64 - full as i64) as i32
    } else {
        signed
    }
}

/// The low `width` bits of `v`, read as a two's-complement number of that
/// width.
pub open spec fn twos_complement(v: int, width: nat) -> int {
    let low = v % (pow2(width) as int);
    if low >= pow2((width - 1) as nat) {
        low - pow2(width)
    } else {
        low
    }
}

/// Sign extension is the two's-complement reading of the low `width` bits,
/// for every word whose signed reading lies from -2^(width-1) up to, but not
/// including, 3 * 2^(width-1), except 2^(width-1) itself, which is kept as
/// it is. Every `width`-bit value but that one is such a word, and so is
/// every value that is already extended to 32 bits.
pub proof fn lemma_sign_extend_is_twos_complement(v: u32, width: u32)
    requires
        1 <= width < 32,
        -pow2((width - 1) as nat) <= signed32(v) < 3 * pow2((width - 1) as nat),
        signed32(v) != pow2((width - 1) as nat),
    ensures
        sign_extend_spec(v, width) == twos_complement(v as int, width as nat),
{
    let half = pow2((width - 1) as nat) as int;
    let full = pow2(width as nat) as int;
    let s = signed32(v);
    lemma_pow2_unfold(width as nat);
    lemma_pow2_pos((width - 1) as nat);
    lemma_pow2_adds((32 - width) as nat, width as nat);
    lemma2_to64();
    lemma2_to64_rest();
    let top = pow2((32 - width) as nat) as int;
    assert(top * full == word_range());
    assert(full == 2 * half);
    // v == q * full + r with 0 <= r < full, in each of the four ranges of s
    let lift = if v < 0x8000_0000 { 0 } else { top };
    assert(v as int == s + lift * full);
    if s < 0 {
        assert(v as int == (lift - 1) * full + (s + full)) by (nonlinear_arith)
            requires
                v as int == s + lift * full,
        ;
        lemma_fundamental_div_mod_converse(v as int, full, lift - 1, s + full);
    } else if s < full {
        assert(v as int == lift * full + s) by (nonlinear_arith)
            requires
                v as int == s + lift * full,
        ;
        lemma_fundamental_div_mod_converse(v as int, full, lift, s);
    } else {
        assert(v as int == (lift + 1) * full + (s - full)) by (nonlinear_arith)
            requires
                v as int == s + lift * full,
        ;
        lemma_fundamental_div_mod_converse(v as int, full, lift + 1, s - full);
    }
}

} // verus!

verus! {

/// The sum of two words, modulo 2^32.
pub fn add_wrapping(a: u32, b: u32) -> (r: u32)
    ensures
        r == wrap32(a + b),
{
    let sum: u64 = a as u64 + b as u64;
    if sum >= 0x1_0000_0000 {
        (sum - 0x1_0000_0000) as u32
    } else {
        sum as u32
    }
}

/// The difference of two words, modulo 2^32.
pub fn sub_wrapping(a: u32, b: u32) -> (r: u32)
    ensures
        r == wrap32(a - b),
{
    if a >= b {
        a - b
    } else {
        (a as u64 + 0x1_0000_0000 - b as u64) as u32
    }
}

/// The sum of a word and a signed number, modulo 2^32.
pub fn add_signed(a: u32, x: i32) -> (r: u32)
    ensures
        r == wrap32(a + x),
{
    let sum: i64 = a as i64 + x as i64;
    if sum < 0 {
        (sum + 0x1_0000_0000) as u32
    } else if sum >= 0x1_0000_0000 {
        (sum - 0x1_0000_0000) as u32
    } else {
        sum as u32
    }
}

/// Reducing modulo 2^32 before a further sum changes nothing.
pub proof fn lemma_wrap_add(x: int, k: int)
    ensures
        wrap32(wrap32(x) + k) == wrap32(x + k),
{
    let q = x / word_range();
    assert(x == word_range() * q + x % word_range()) by {
        lemma_fundamental_div_mod(x, word_range());
    }
    assert((x % word_range() + k) % word_range() == (x + k) % word_range()) by {
        vstd::arithmetic::div_mod::lemma_mod_multiples_vanish(-q, x + k, word_range());
    }
}

/// The bits that an arithmetic right shift by `amount` fills in at the top:
/// ones where the sign bit of `a` is set, zeros where it is clear.
pub open spec fn sign_fill(a: u32, amount: u32) -> u32 {
    if a & 0x8000_0000 == 0 {
        0
    } else {
        !(0xffff_ffffu32 >> amount)
    }
}

/// `a` shifted right by `amount`, the vacated bits filled with the sign bit.
pub open spec fn shift_right_arithmetic_spec(a: u32, amount: u32) -> u32 {
    (a >> amount) | sign_fill(a, amount)
}

/// Shifts `a` right by `amount`, filling the vacated bits with the sign bit.
pub fn shift_right_arithmetic(a: u32, amount: u32) -> (r: u32)
    requires
        amount < 32,
    ensures
        r == shift_right_arithmetic_spec(a, amount),
{
    let fill: u32 = if a & 0x8000_0000 == 0 {
        0
    } else {
        !(0xffff_ffffu32 >> amount)
    };
    (a >> amount) | fill
}

/// An arithmetic right shift is the division of the signed reading by a
/// power of two, rounded down.
pub proof fn lemma_shift_right_arithmetic(a: u32, amount: u32)
    requires
        amount < 32,
    ensures
        signed32(shift_right_arithmetic_spec(a, amount)) == signed32(a) / (pow2(amount as nat) as int),
{
    let r = shift_right_arithmetic_spec(a, amount);
    let d = pow2(amount as nat) as int;
    lemma_pow2_pos(amount as nat);
    lemma2_to64();
    lemma2_to64_rest();
    lemma_pow2_strictly_increases(amount as nat, 32);
    vstd::bits::lemma_u32_shr_is_div(a, amount);
    vstd::bits::lemma_u32_shr_is_div(!a, amount);
    assert(a & 0x8000_0000 == 0 <==> a < 0x8000_0000) by (bit_vector);
    if a < 0x8000_0000 {
        assert((a >> amount) | 0u32 == a >> amount) by (bit_vector);
        assert(a >> amount <= a) by (bit_vector);
    } else {
        assert((a >> amount) | !(0xffff_ffffu32 >> amount) == !((!a) >> amount)) by (bit_vector)
            requires
                a >= 0x8000_0000u32,
                amount < 32,
        ;
        assert(!a == 0xffff_ffff - a) by (bit_vector);
        let n = (!a) as int;
        let q = n / d;
        assert(!((!a) >> amount) == 0xffff_ffff - ((!a) >> amount)) by (bit_vector);
        assert(r == 0xffff_ffff - q);
        assert(((!a) >> amount) < 0x8000_0000) by (bit_vector)
            requires
                a >= 0x8000_0000u32,
        ;
        // signed32(a) == -(n + 1), and floor(-(n + 1) / d) == -1 - floor(n / d)
        lemma_fundamental_div_mod(n, d);
        assert(signed32(a) == (-1 - q) * d + (d - 1 - n % d)) by (nonlinear_arith)
            requires
                signed32(a) == -(n + 1),
                n == d * q + n % d,
        ;
        lemma_fundamental_div_mod_converse(signed32(a), d, -1 - q, d - 1 - n % d);
    }
}

} // verus!
