//! What all composite keys share: the digit checks of their string form, the
//! round trip of zero-padded components, and their place in the key order.
use vstd::prelude::*;

use crate::error::ParseKeyError;
use crate::text::{all_digits, decimal_digits, decimal_value, digit_char, digit_value, zero_padded};

verus! {

/// A composite key. `rank` places keys of one kind on the integer line in
/// key order; a key's children occupy a block of ranks below it.
pub trait Schluessel: Sized + Copy {
    /// The key's position in the order of its kind.
    spec fn rank(&self) -> int;

    /// Every rank of this kind is below this bound.
    spec fn rank_limit() -> int;

    /// The executable form of `rank`.
    fn code(&self) -> (r: u64)
        ensures
            r as int == self.rank(),
    ;

    /// Distinct keys have distinct ranks.
    proof fn lemma_rank_injective(a: Self, b: Self)
        ensures
            a.rank() == b.rank() ==> a == b,
            0 <= a.rank() < Self::rank_limit(),
    ;
}

/// `s` is a valid string form of a key of `width` digits.
pub open spec fn key_text_ok(s: Seq<char>, width: nat) -> bool {
    s.len() == width && all_digits(s)
}

/// `e` is the error for the key string `s` that should have `width` digits.
pub open spec fn key_error_for(s: Seq<char>, width: nat, e: ParseKeyError) -> bool {
    if s.len() != width {
        e matches ParseKeyError::InvalidLength { expected, got, s: t } && expected == width && got
            == s.len() && t@ == s
    } else {
        e matches ParseKeyError::NonNumeric(t) && t@ == s
    }
}

/// The value of the digits `s[from..to]`.
pub open spec fn component(s: Seq<char>, from: int, to: int) -> nat {
    decimal_value(s.subrange(from, to))
}

pub open spec fn pow10(n: nat) -> nat
    decreases n,
{
    if n == 0 {
        1
    } else {
        10 * pow10((n - 1) as nat)
    }
}

/// Checks that `s` has `width` characters, all of them digits.
pub fn check_key_text(s: &str, width: usize) -> (r: Result<(), ParseKeyError>)
    ensures
        r is Ok <==> key_text_ok(s@, width as nat),
        r matches Err(e) ==> key_error_for(s@, width as nat, e),
{
    let n = s.unicode_len();
    if n != width {
        return Err(ParseKeyError::invalid_length(s, width));
    }
    let mut i: usize = 0;
    while i < n
        invariant
            n == s@.len(),
            n == width,
            i <= n,
            forall|j: int| 0 <= j < i ==> crate::text::is_digit(#[trigger] s@[j]),
        decreases n - i,
    {
        let c = s.get_char(i);
        if !('0' <= c && c <= '9') {
            assert(!crate::text::is_digit(s@[i as int]));
            return Err(ParseKeyError::non_numeric(s));
        }
        i = i + 1;
    }
    Ok(())
}

/// The value of the digits `s[from..to]`, at most four of them.
pub fn component_value(s: &str, from: usize, to: usize) -> (r: u64)
    requires
        from <= to <= s@.len(),
        to - from <= 4,
        all_digits(s@),
    ensures
        r == component(s@, from as int, to as int),
        r < pow10((to - from) as nat),
{
    let mut v: u64 = 0;
    let mut i: usize = from;
    assert(s@.subrange(from as int, from as int) =~= Seq::<char>::empty());
    while i < to
        invariant
            from <= i <= to <= s@.len(),
            to - from <= 4,
            all_digits(s@),
            v == decimal_value(s@.subrange(from as int, i as int)),
            v < pow10((i - from) as nat),
        decreases to - i,
    {
        let c = s.get_char(i);
        assert(crate::text::is_digit(s@[i as int]));
        let d = (c as u32 - '0' as u32) as u64;
        assert(s@.subrange(from as int, i + 1).drop_last() =~= s@.subrange(from as int, i as int));
        assert(pow10((i + 1 - from) as nat) == 10 * pow10((i - from) as nat));
        proof {
            lemma_pow10_small();
        }
        v = v * 10 + d;
        i = i + 1;
    }
    v
}

pub proof fn lemma_pow10_small()
    ensures
        pow10(0) == 1,
        pow10(1) == 10,
        pow10(2) == 100,
        pow10(3) == 1000,
        pow10(4) == 10000,
{
    assert(pow10(1) == 10 * pow10(0));
    assert(pow10(2) == 10 * pow10(1));
    assert(pow10(3) == 10 * pow10(2));
    assert(pow10(4) == 10 * pow10(3));
}

/// A value `q * m + r` with `0 <= r < m` lies in the block of `k` exactly
/// when `q` is `k`.
pub proof fn lemma_block(q: int, r: int, k: int, m: int)
    requires
        m > 0,
        0 <= r < m,
    ensures
        (k * m <= q * m + r && q * m + r <= k * m + m - 1) <==> q == k,
{
    if q < k {
        assert(q * m + m <= k * m) by (nonlinear_arith)
            requires
                q < k,
                m > 0,
        ;
    }
    if q > k {
        assert(k * m + m <= q * m) by (nonlinear_arith)
            requires
                q > k,
                m > 0,
        ;
    }
}

/// A component of a valid key string renders back to its own digits.
pub proof fn lemma_component_text(s: Seq<char>, a: int, b: int)
    requires
        all_digits(s),
        0 <= a < b <= s.len(),
    ensures
        zero_padded(component(s, a, b), (b - a) as nat) == s.subrange(a, b),
        component(s, a, b) < pow10((b - a) as nat),
{
    let t = s.subrange(a, b);
    assert(all_digits(t)) by {
        assert forall|i: int| 0 <= i < t.len() implies crate::text::is_digit(t[i]) by {
            assert(crate::text::is_digit(s[a + i]));
        }
    }
    lemma_zero_padded_digits(t);
    lemma_value_below_pow10(t);
}

/// `n` digits spell a number below `10^n`.
pub proof fn lemma_value_below_pow10(t: Seq<char>)
    requires
        all_digits(t),
    ensures
        decimal_value(t) < pow10(t.len()),
    decreases t.len(),
{
    if t.len() > 0 {
        let p = t.drop_last();
        assert(all_digits(p)) by {
            assert forall|i: int| 0 <= i < p.len() implies crate::text::is_digit(p[i]) by {
                assert(crate::text::is_digit(t[i]));
            }
        }
        lemma_value_below_pow10(p);
        assert(crate::text::is_digit(t[t.len() - 1]));
        assert(pow10(t.len()) == 10 * pow10(p.len()));
    }
}

/// A run of digits is its own zero-padded rendering at its own width.
pub proof fn lemma_zero_padded_digits(t: Seq<char>)
    requires
        t.len() >= 1,
        all_digits(t),
    ensures
        zero_padded(decimal_value(t), t.len()) == t,
    decreases t.len(),
{
    let w = t.len();
    let c = t.last();
    let p = t.drop_last();
    assert(crate::text::is_digit(t[w - 1]));
    let d = digit_value(c);
    assert(digit_char(d) == c);
    let v = decimal_value(t);
    assert(v == decimal_value(p) * 10 + d);
    if w == 1 {
        assert(decimal_value(p) == 0);
        assert(decimal_digits(v) =~= seq![c]);
        assert(zero_padded(v, 1) =~= t);
    } else {
        assert(all_digits(p)) by {
            assert forall|i: int| 0 <= i < p.len() implies crate::text::is_digit(p[i]) by {
                assert(crate::text::is_digit(t[i]));
            }
        }
        lemma_zero_padded_digits(p);
        let vp = decimal_value(p);
        if vp == 0 {
            assert(decimal_digits(0) =~= seq![digit_char(0)]);
            assert(p =~= Seq::new((w - 1) as nat, |i: int| '0'));
            assert(v == d);
            assert(decimal_digits(v) =~= seq![c]);
            assert(zero_padded(v, w) =~= t);
        } else {
            assert(v / 10 == vp && v % 10 == d);
            assert(decimal_digits(v) == decimal_digits(vp).push(c));
            let dp = decimal_digits(vp);
            assert(dp.len() <= w - 1);
            let zeros = Seq::new((w - 1 - dp.len()) as nat, |i: int| '0');
            assert(p =~= zeros + dp);
            assert(t =~= p.push(c));
            assert(zero_padded(v, w) =~= zeros + dp.push(c));
            assert(zero_padded(v, w) =~= t);
        }
    }
}

} // verus!
