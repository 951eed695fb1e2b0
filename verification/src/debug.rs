//! Binary notation of 32-bit numbers for diagnostics: the digits in groups
//! of four, and beside them the number in decimal.

use crate::bitops::from_signed;
use crate::text::{digit_char, push_decimal, push_signed_decimal, signed_decimal};
use vstd::prelude::*;
use vstd::string::{StrSliceExecFns, StringExecFns};

verus! {

/// The binary digits of `v`, without leading zeros.
pub open spec fn binary_digits(v: nat) -> Seq<char>
    decreases v,
{
    if v < 2 {
        seq![digit_char(v as int)]
    } else {
        binary_digits(v / 2).push(digit_char((v % 2) as int))
    }
}

/// `count` zeros.
pub open spec fn zeros(count: nat) -> Seq<char> {
    Seq::new(count, |i: int| '0')
}

/// `digits` with zeros in front, up to `width` characters. Digits that are
/// wider than `width` are kept whole.
pub open spec fn padded(digits: Seq<char>, width: nat) -> Seq<char> {
    if digits.len() >= width {
        digits
    } else {
        zeros((width - digits.len()) as nat) + digits
    }
}

/// `digits` in groups of four, counted from the right, with an underscore
/// between two groups.
pub open spec fn grouped(digits: Seq<char>) -> Seq<char>
    decreases digits.len(),
{
    if digits.len() <= 4 {
        digits
    } else {
        grouped(digits.subrange(0, digits.len() - 4)) + seq!['_'] + digits.subrange(
            digits.len() - 4,
            digits.len() as int,
        )
    }
}

/// The binary notation of the word `bits`: `0b`, then at least `width`
/// binary digits in groups of four.
pub open spec fn binary_text(bits: u32, width: nat) -> Seq<char> {
    seq!['0', 'b'] + grouped(padded(binary_digits(bits as nat), width))
}

/// The binary notation and, in brackets, the decimal one.
pub open spec fn number_text(bits: u32, value: int, width: nat) -> Seq<char> {
    binary_text(bits, width) + seq![' ', '('] + signed_decimal(value) + seq![')']
}

/// Appends the binary digits of `v`.
fn push_binary(out: &mut String, v: u32)
    ensures
        final(out)@ == old(out)@ + binary_digits(v as nat),
    decreases v,
{
    proof {
        reveal_strlit("0");
        reveal_strlit("1");
    }
    if v >= 2 {
        push_binary(out, v / 2);
    }
    if v % 2 == 0 {
        out.append("0");
    } else {
        out.append("1");
    }
    assert(final(out)@ =~= old(out)@ + binary_digits(v as nat));
}

/// Appends `digits` in groups of four.
fn push_grouped(out: &mut String, digits: &str)
    ensures
        final(out)@ == old(out)@ + grouped(digits@),
    decreases digits@.len(),
{
    let len = digits.unicode_len();
    if len <= 4 {
        out.append(digits);
    } else {
        proof {
            reveal_strlit("_");
        }
        push_grouped(out, digits.substring_char(0, len - 4));
        out.append("_");
        out.append(digits.substring_char(len - 4, len));
        assert(final(out)@ =~= old(out)@ + grouped(digits@));
    }
}

/// The binary notation of `bits` with at least `width` digits.
fn binary_of(bits: u32, width: usize) -> (s: String)
    ensures
        s@ == binary_text(bits, width as nat),
{
    let mut digits = String::new();
    push_binary(&mut digits, bits);
    assert(digits@ =~= binary_digits(bits as nat));
    let len = digits.as_str().unicode_len();
    let mut all = String::new();
    if len < width {
        let mut n: usize = 0;
        while n < width - len
            invariant
                len < width,
                n <= width - len,
                all@ == zeros(n as nat),
            decreases width - len - n,
        {
            proof {
                reveal_strlit("0");
            }
            all.append("0");
            assert(all@ =~= zeros((n + 1) as nat));
            n = n + 1;
        }
    }
    all.append(digits.as_str());
    assert(all@ =~= padded(binary_digits(bits as nat), width as nat));
    proof {
        reveal_strlit("0b");
    }
    let mut s = String::from_str("0b");
    assert(s@ =~= seq!['0', 'b']);
    push_grouped(&mut s, all.as_str());
    s
}

/// A number that has a binary notation of 32 bits and a decimal one.
pub trait BinaryFormattable: Copy {
    /// The 32 bits of the number.
    spec fn bits(&self) -> u32;

    /// The number.
    spec fn value(&self) -> int;

    /// The binary notation with at least `width` digits.
    fn format(&self, width: usize) -> (s: String)
        ensures
            s@ == binary_text(self.bits(), width as nat),
    ;

    /// The decimal notation.
    fn decimal(&self) -> (s: String)
        ensures
            s@ == signed_decimal(self.value()),
    ;
}

impl BinaryFormattable for i32 {
    /// The two's-complement bit pattern.
    open spec fn bits(&self) -> u32 {
        crate::bitops::wrap32(*self as int)
    }

    open spec fn value(&self) -> int {
        *self as int
    }

    fn format(&self, width: usize) -> (s: String) {
        binary_of(from_signed(*self), width)
    }

    fn decimal(&self) -> (s: String) {
        let mut s = String::new();
        push_signed_decimal(&mut s, *self as i64);
        assert(s@ =~= signed_decimal(*self as int));
        s
    }
}

impl BinaryFormattable for u32 {
    open spec fn bits(&self) -> u32 {
        *self
    }

    open spec fn value(&self) -> int {
        *self as int
    }

    fn format(&self, width: usize) -> (s: String) {
        binary_of(*self, width)
    }

    fn decimal(&self) -> (s: String) {
        let mut s = String::new();
        push_decimal(&mut s, *self as u64);
        assert(s@ =~= signed_decimal(*self as int));
        s
    }
}

/// The binary notation of `num` with at least `width` digits, in groups of
/// four behind `0b`.
pub fn binary<T: BinaryFormattable>(num: T, width: usize) -> (s: String)
    ensures
        s@ == binary_text(num.bits(), width as nat),
{
    num.format(width)
}

/// The binary notation of `num` and, in brackets, the decimal one.
pub fn number<T: BinaryFormattable>(num: T, width: usize) -> (s: String)
    ensures
        s@ == number_text(num.bits(), num.value(), width as nat),
{
    proof {
        reveal_strlit(" (");
        reveal_strlit(")");
    }
    let mut s = binary(num, width);
    s.append(" (");
    let text = num.decimal();
    s.append(text.as_str());
    s.append(")");
    assert(s@ =~= number_text(num.bits(), num.value(), width as nat));
    s
}

} // verus!
