//! Decimal rendering of unsigned integers, used to build deterministic
//! identifiers (the same number always renders as the same text).

use vstd::prelude::*;
use crate::external::ascii_to_string;

verus! {

/// The ASCII digit character for `d` (which must be below 10).
pub open spec fn spec_digit(d: int) -> char {
    ((48 + d) as u8) as char
}

/// The decimal text of `n`, most significant digit first, no leading
/// zeros (but `0` itself renders as `"0"`).
pub open spec fn spec_decimal(n: int) -> Seq<char>
    decreases n,
{
    if n < 10 {
        seq![spec_digit(if n >= 0 { n } else { 0 })]
    } else {
        spec_decimal(n / 10).push(spec_digit(n % 10))
    }
}

/// The characters denoted by a sequence of ASCII bytes.
pub open spec fn chars_of(bytes: Seq<u8>) -> Seq<char> {
    bytes.map_values(|b: u8| b as char)
}

/// Render `n` in decimal.
pub fn u128_to_decimal(n: u128) -> (r: String)
    ensures
        r@ == spec_decimal(n as int),
{
    let mut rev: Vec<u8> = Vec::new();
    let mut m: u128 = n;
    proof {
        assert(chars_of(rev@).reverse() =~= Seq::<char>::empty());
        assert(spec_decimal(n as int) =~= spec_decimal(m as int) + chars_of(rev@).reverse());
    }
    while m >= 10
        invariant
            spec_decimal(n as int) == spec_decimal(m as int) + chars_of(rev@).reverse(),
            forall|i: int| 0 <= i < rev@.len() ==> 48 <= #[trigger] rev@[i] < 58,
        decreases m,
    {
        let ghost m0 = m as int;
        let ghost prev = rev@;
        let d: u8 = (m % 10) as u8;
        rev.push(48 + d);
        m = m / 10;
        proof {
            assert(spec_decimal(m0) == spec_decimal(m0 / 10).push(spec_digit(m0 % 10)));
            assert(rev@ == prev.push((48 + d) as u8));
            assert(chars_of(rev@) =~= chars_of(prev).push(spec_digit(m0 % 10)));
            assert(chars_of(rev@).reverse() =~= seq![spec_digit(m0 % 10)] + chars_of(prev).reverse());
            assert(spec_decimal(m as int).push(spec_digit(m0 % 10)) + chars_of(prev).reverse()
                =~= spec_decimal(m as int) + (seq![spec_digit(m0 % 10)] + chars_of(prev).reverse()));
        }
    }
    let ghost mid = rev@;
    let ghost mfin = m as int;
    let d: u8 = m as u8;
    rev.push(48 + d);
    proof {
        assert(spec_decimal(mfin) =~= seq![spec_digit(mfin)]);
        assert(rev@ == mid.push((48 + d) as u8));
        assert(chars_of(rev@) =~= chars_of(mid).push(spec_digit(mfin)));
        assert(chars_of(rev@).reverse() =~= seq![spec_digit(mfin)] + chars_of(mid).reverse());
        assert(spec_decimal(n as int) =~= chars_of(rev@).reverse());
    }
    let len = rev.len();
    let mut out: Vec<u8> = Vec::new();
    let mut i: usize = 0;
    while i < len
        invariant
            len == rev@.len(),
            i <= len,
            out@.len() == i,
            forall|j: int| 0 <= j < i ==> #[trigger] out@[j] == rev@[len - 1 - j],
            forall|j: int| 0 <= j < rev@.len() ==> 48 <= #[trigger] rev@[j] < 58,
        decreases len - i,
    {
        out.push(rev[len - 1 - i]);
        i = i + 1;
    }
    proof {
        assert(out@ =~= rev@.reverse());
        assert(chars_of(out@) =~= chars_of(rev@).reverse());
    }
    ascii_to_string(out)
}

} // verus!
