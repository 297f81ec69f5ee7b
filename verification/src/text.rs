//! Verified ASCII rendering of unsigned numbers, as the disassembler needs
//! it: plain decimal, and decimal zero-padded to four digits.

use vstd::prelude::*;

verus! {

/// The decimal digits of `n`, most significant first, as ASCII bytes.
pub open spec fn spec_decimal(n: nat) -> Seq<u8>
    decreases n,
{
    if n < 10 {
        seq![(48 + n) as u8]
    } else {
        spec_decimal(n / 10).push((48 + n % 10) as u8)
    }
}

/// `k` ASCII zeroes.
pub open spec fn spec_zeroes(k: int) -> Seq<u8> {
    Seq::new(k as nat, |i: int| 48u8)
}

/// The decimal digits of `n`, zero-padded on the left to at least four
/// digits; a number of five or more digits is rendered in full.
pub open spec fn spec_pad4(n: nat) -> Seq<u8> {
    if spec_decimal(n).len() >= 4 {
        spec_decimal(n)
    } else {
        spec_zeroes(4 - spec_decimal(n).len()) + spec_decimal(n)
    }
}

/// A decimal rendering is never empty and consists of ASCII digits only.
pub proof fn lemma_decimal_digits(n: nat)
    ensures
        spec_decimal(n).len() >= 1,
        forall|i: int|
            0 <= i < spec_decimal(n).len() ==> 48 <= #[trigger] spec_decimal(n)[i] <= 57,
    decreases n,
{
    if n >= 10 {
        lemma_decimal_digits(n / 10);
    }
}

/// A padded rendering is at least four bytes long and starts with an ASCII
/// digit, so it is never mistaken for the same-line marker, which starts
/// with a space.
pub proof fn lemma_pad4_shape(n: nat)
    ensures
        spec_pad4(n).len() >= 4,
        48 <= spec_pad4(n)[0] <= 57,
{
    lemma_decimal_digits(n);
}

/// The decimal digits of `n`, most significant first, as ASCII bytes.
pub fn decimal_bytes(n: u64) -> (r: Vec<u8>)
    ensures
        r@ == spec_decimal(n as nat),
    decreases n,
{
    if n < 10 {
        let mut r: Vec<u8> = Vec::new();
        r.push(48 + (n as u8));
        assert(r@ =~= spec_decimal(n as nat));
        r
    } else {
        let mut r = decimal_bytes(n / 10);
        r.push(48 + ((n % 10) as u8));
        assert(r@ =~= spec_decimal(n as nat));
        r
    }
}

/// The decimal digits of `n`, zero-padded on the left to at least four.
pub fn pad4_bytes(n: u64) -> (r: Vec<u8>)
    ensures
        r@ == spec_pad4(n as nat),
{
    let mut digits = decimal_bytes(n);
    if digits.len() >= 4 {
        digits
    } else {
        let mut r: Vec<u8> = Vec::new();
        let mut i: usize = digits.len();
        while i < 4
            invariant
                digits@ == spec_decimal(n as nat),
                digits@.len() <= i <= 4,
                r@ == spec_zeroes(i - digits@.len()),
            decreases 4 - i,
        {
            r.push(48);
            assert(r@ =~= spec_zeroes(i + 1 - digits@.len()));
            i = i + 1;
        }
        r.append(&mut digits);
        assert(r@ =~= spec_pad4(n as nat));
        r
    }
}

} // verus!
