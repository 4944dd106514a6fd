//! Rendering of names and numbers kept as ASCII byte vectors.

use vstd::prelude::*;

verus! {

/// The decimal digits of a non-negative number, most significant first.
pub open spec fn spec_decimal_digits(n: int) -> Seq<u8>
    decreases n,
{
    if n < 10 {
        seq![(0x30 + if n >= 0 {
            n
        } else {
            0
        }) as u8]
    } else {
        spec_decimal_digits(n / 10).push((0x30 + n % 10) as u8)
    }
}

/// Render a number as its decimal ASCII digits.
pub fn format_usize(n: usize) -> (r: Vec<u8>)
    ensures
        r@ == spec_decimal_digits(n as int),
        forall|i: int| 0 <= i < r@.len() ==> 0x30 <= #[trigger] r@[i] <= 0x39,
{
    let mut rest: usize = n;
    let mut digits: Vec<u8> = Vec::new();
    loop
        invariant_except_break
            forall|k: int| 0 <= k < digits@.len() ==> 0x30 <= #[trigger] digits@[k] <= 0x39,
            digits@.len() == 0 ==> rest == n,
            digits@.len() > 0 ==> rest > 0 && spec_decimal_digits(n as int)
                =~= spec_decimal_digits(rest as int) + digits@.reverse(),
        ensures
            spec_decimal_digits(n as int) =~= digits@.reverse(),
            forall|k: int| 0 <= k < digits@.len() ==> 0x30 <= #[trigger] digits@[k] <= 0x39,
        decreases rest, (if digits@.len() == 0 { 1int } else { 0int }),
    {
        let d: u8 = 0x30 + (rest % 10) as u8;
        let ghost before = digits@;
        let ghost ro = rest as int;
        digits.push(d);
        proof {
            assert(digits@.reverse() =~= seq![d] + before.reverse());
            if ro < 10 {
                assert(spec_decimal_digits(ro) =~= seq![d]);
                if before.len() == 0 {
                    assert(spec_decimal_digits(n as int) =~= digits@.reverse());
                } else {
                    assert(spec_decimal_digits(n as int) =~= digits@.reverse());
                }
            } else {
                assert(spec_decimal_digits(ro) =~= spec_decimal_digits(ro / 10).push(d));
                assert(spec_decimal_digits(ro / 10).push(d) + before.reverse()
                    =~= spec_decimal_digits(ro / 10) + digits@.reverse());
                if before.len() == 0 {
                    assert(spec_decimal_digits(n as int) =~= spec_decimal_digits(ro / 10)
                        + digits@.reverse());
                } else {
                    assert(spec_decimal_digits(n as int) =~= spec_decimal_digits(ro / 10)
                        + digits@.reverse());
                }
            }
        }
        rest = rest / 10;
        if rest == 0 {
            break;
        }
    }
    let mut r: Vec<u8> = Vec::new();
    let mut i: usize = digits.len();
    while i > 0
        invariant
            0 <= i <= digits@.len(),
            r@.len() == digits@.len() - i,
            forall|j: int| 0 <= j < r@.len() ==> r@[j] == digits@[digits@.len() - 1 - j],
        decreases i,
    {
        i = i - 1;
        let b = digits[i];
        r.push(b);
    }
    proof {
        assert(r@ =~= digits@.reverse());
    }
    r
}

/// Turn ASCII bytes into a `String` of the same characters.
///
/// Relies on `String::from_utf8`: bytes below 128 are one-byte UTF-8
/// encodings of the characters with the same code points.
#[verifier::external_body]
pub fn ascii_to_string(bytes: &Vec<u8>) -> (r: String)
    requires
        forall|i: int| 0 <= i < bytes@.len() ==> bytes@[i] < 128,
    ensures
        r@.len() == bytes@.len(),
        forall|i: int| 0 <= i < bytes@.len() ==> r@[i] == bytes@[i] as char,
{
    String::from_utf8(bytes.clone()).unwrap_or_default()
}

/// Copy a vector of plain values.
pub fn clone_copy_vec<T: Copy>(v: &Vec<T>) -> (r: Vec<T>)
    ensures
        r@ == v@,
{
    let mut r: Vec<T> = Vec::new();
    let mut i: usize = 0;
    while i < v.len()
        invariant
            0 <= i <= v@.len(),
            r@ == v@.take(i as int),
        decreases v@.len() - i,
    {
        let b = v[i];
        r.push(b);
        i = i + 1;
        proof {
            assert(r@ =~= v@.take(i as int));
        }
    }
    proof {
        assert(v@.take(v@.len() as int) =~= v@);
    }
    r
}

/// Copy a byte vector.
pub fn clone_bytes(v: &Vec<u8>) -> (r: Vec<u8>)
    ensures
        r@ == v@,
{
    let mut r: Vec<u8> = Vec::new();
    let mut i: usize = 0;
    while i < v.len()
        invariant
            0 <= i <= v@.len(),
            r@ == v@.take(i as int),
        decreases v@.len() - i,
    {
        let b = v[i];
        r.push(b);
        i = i + 1;
        proof {
            assert(r@ =~= v@.take(i as int));
        }
    }
    proof {
        assert(v@.take(v@.len() as int) =~= v@);
    }
    r
}

} // verus!
