//! Character-level helpers shared by the key and record decoders: decimal
//! digits, blank fields, space trimming and zero-padded rendering.
use vstd::prelude::*;

verus! {

/// Relies on `String::push`: the character is appended at the end.
pub assume_specification[ String::push ](s: &mut String, ch: char)
    ensures
        final(s)@ == old(s)@.push(ch),
;

pub open spec fn is_digit(c: char) -> bool {
    '0' <= c && c <= '9'
}

pub open spec fn digit_value(c: char) -> nat {
    (c as u32 - '0' as u32) as nat
}

/// Every character of `s` is a decimal digit.
pub open spec fn all_digits(s: Seq<char>) -> bool {
    forall|i: int| 0 <= i < s.len() ==> #[trigger] is_digit(s[i])
}

/// The number that the decimal digits of `s` spell, most significant first.
pub open spec fn decimal_value(s: Seq<char>) -> nat
    decreases s.len(),
{
    if s.len() == 0 {
        0
    } else {
        decimal_value(s.drop_last()) * 10 + digit_value(s.last())
    }
}

/// `s` is a non-empty run of decimal digits.
pub open spec fn is_numeral(s: Seq<char>) -> bool {
    s.len() > 0 && all_digits(s)
}

/// The value of a numeral that fits in `max`, if `s` is one.
pub open spec fn numeral_up_to(s: Seq<char>, max: nat) -> Option<nat> {
    if is_numeral(s) && decimal_value(s) <= max {
        Some(decimal_value(s))
    } else {
        None
    }
}

/// Every character of `s` is a space (vacuously true of the empty field).
pub open spec fn all_spaces(s: Seq<char>) -> bool {
    forall|i: int| 0 <= i < s.len() ==> s[i] == ' '
}

/// `s` without its leading spaces.
pub open spec fn trim_start(s: Seq<char>) -> Seq<char>
    decreases s.len(),
{
    if s.len() > 0 && s[0] == ' ' {
        trim_start(s.drop_first())
    } else {
        s
    }
}

/// `s` without its trailing spaces.
pub open spec fn trim_end(s: Seq<char>) -> Seq<char>
    decreases s.len(),
{
    if s.len() > 0 && s.last() == ' ' {
        trim_end(s.drop_last())
    } else {
        s
    }
}

/// `s` without leading and trailing spaces.
pub open spec fn trimmed(s: Seq<char>) -> Seq<char> {
    trim_end(trim_start(s))
}

/// The decimal digits of `n`, without leading zeros (`0` is one digit).
pub open spec fn decimal_digits(n: nat) -> Seq<char>
    decreases n,
{
    if n < 10 {
        seq![digit_char(n)]
    } else {
        decimal_digits(n / 10).push(digit_char(n % 10))
    }
}

pub open spec fn digit_char(d: nat) -> char {
    (('0' as u32) + d) as char
}

/// `n` in decimal, padded with leading zeros to at least `width` characters.
pub open spec fn zero_padded(n: nat, width: nat) -> Seq<char> {
    let d = decimal_digits(n);
    if d.len() >= width {
        d
    } else {
        Seq::new((width - d.len()) as nat, |i: int| '0') + d
    }
}

proof fn lemma_value_monotone(s: Seq<char>, c: char)
    requires
        is_digit(c),
    ensures
        decimal_value(s.push(c)) >= decimal_value(s),
{
    assert(s.push(c).drop_last() =~= s);
}

proof fn lemma_trim_start_suffix(s: Seq<char>, a: int)
    requires
        0 <= a <= s.len(),
        forall|i: int| 0 <= i < a ==> s[i] == ' ',
    ensures
        trim_start(s) == trim_start(s.subrange(a, s.len() as int)),
    decreases a,
{
    if a > 0 {
        assert(s.drop_first().subrange(a - 1, s.drop_first().len() as int) =~= s.subrange(
            a,
            s.len() as int,
        ));
        lemma_trim_start_suffix(s.drop_first(), a - 1);
    } else {
        assert(s.subrange(0, s.len() as int) =~= s);
    }
}

proof fn lemma_trim_end_prefix(s: Seq<char>, b: int)
    requires
        0 <= b <= s.len(),
        forall|i: int| b <= i < s.len() ==> s[i] == ' ',
    ensures
        trim_end(s) == trim_end(s.subrange(0, b)),
    decreases s.len() - b,
{
    if b < s.len() {
        assert(s.drop_last().subrange(0, b) =~= s.subrange(0, b));
        lemma_trim_end_prefix(s.drop_last(), b);
    } else {
        assert(s.subrange(0, b) =~= s);
    }
}

/// Reads `s` as a decimal number; `None` unless it is a non-empty run of
/// digits whose value fits in a `u64`.
pub fn parse_decimal(s: &str) -> (r: Option<u64>)
    ensures
        r matches Some(v) ==> Some(v as nat) == numeral_up_to(s@, u64::MAX as nat),
        r is None ==> numeral_up_to(s@, u64::MAX as nat) is None,
{
    let n = s.unicode_len();
    if n == 0 {
        return None;
    }
    let mut value: u64 = 0;
    let mut i: usize = 0;
    while i < n
        invariant
            n == s@.len(),
            i <= n,
            all_digits(s@.subrange(0, i as int)),
            value as nat == decimal_value(s@.subrange(0, i as int)),
        decreases n - i,
    {
        let c = s.get_char(i);
        proof {
            assert(s@.subrange(0, i + 1).drop_last() =~= s@.subrange(0, i as int));
        }
        if !('0' <= c && c <= '9') {
            assert(!is_digit(s@[i as int]));
            return None;
        }
        let d = (c as u32 - '0' as u32) as u64;
        if value > (u64::MAX - d) / 10 {
            proof {
                assert(decimal_value(s@.subrange(0, i + 1)) > u64::MAX);
                lemma_prefix_value_bound(s@, i + 1);
            }
            return None;
        }
        value = value * 10 + d;
        i = i + 1;
    }
    assert(s@.subrange(0, n as int) =~= s@);
    Some(value)
}

/// A numeral is at least as large as the value of any of its prefixes.
proof fn lemma_prefix_value_bound(s: Seq<char>, k: int)
    requires
        0 <= k <= s.len(),
    ensures
        is_numeral(s) ==> decimal_value(s) >= decimal_value(s.subrange(0, k)),
    decreases s.len() - k,
{
    if k < s.len() && is_numeral(s) {
        lemma_prefix_value_bound(s, k + 1);
        assert(s.subrange(0, k + 1) =~= s.subrange(0, k).push(s[k]));
        assert(is_digit(s[k]));
        lemma_value_monotone(s.subrange(0, k), s[k]);
    } else if k == s.len() {
        assert(s.subrange(0, k) =~= s);
    }
}

/// Whether every character of `s` is a space.
pub fn is_blank(s: &str) -> (r: bool)
    ensures
        r == all_spaces(s@),
{
    let n = s.unicode_len();
    let mut i: usize = 0;
    while i < n
        invariant
            n == s@.len(),
            i <= n,
            forall|j: int| 0 <= j < i ==> s@[j] == ' ',
        decreases n - i,
    {
        if s.get_char(i) != ' ' {
            return false;
        }
        i = i + 1;
    }
    true
}

/// `s` without leading and trailing spaces.
pub fn trim_spaces(s: &str) -> (r: &str)
    ensures
        r@ == trimmed(s@),
{
    let n = s.unicode_len();
    let mut a: usize = 0;
    while a < n && s.get_char(a) == ' '
        invariant
            n == s@.len(),
            a <= n,
            forall|j: int| 0 <= j < a ==> s@[j] == ' ',
        decreases n - a,
    {
        a = a + 1;
    }
    proof {
        lemma_trim_start_suffix(s@, a as int);
        let t = s@.subrange(a as int, n as int);
        if t.len() > 0 {
            assert(t[0] != ' ');
        }
        assert(trim_start(t) == t);
    }
    let mut b: usize = n;
    while b > a && s.get_char(b - 1) == ' '
        invariant
            n == s@.len(),
            a <= b <= n,
            forall|j: int| b <= j < n ==> s@[j] == ' ',
        decreases b,
    {
        b = b - 1;
    }
    proof {
        let t = s@.subrange(a as int, n as int);
        lemma_trim_end_prefix(t, (b - a) as int);
        assert(t.subrange(0, (b - a) as int) =~= s@.subrange(a as int, b as int));
        let u = s@.subrange(a as int, b as int);
        if u.len() > 0 {
            assert(u.last() != ' ');
        }
        assert(trim_end(u) == u);
    }
    s.substring_char(a, b)
}

/// Appends `n` in decimal, zero-padded to at least `width` characters.
pub fn push_zero_padded(out: &mut String, n: u64, width: usize)
    ensures
        final(out)@ == old(out)@ + zero_padded(n as nat, width as nat),
{
    // digits of `n`, least significant first
    let mut rev: Vec<char> = Vec::new();
    let mut m: u64 = n;
    loop
        invariant_except_break
            decimal_digits(n as nat) == decimal_digits(m as nat) + rev@.reverse(),
        invariant
            m <= n,
        ensures
            decimal_digits(n as nat) == rev@.reverse(),
        decreases m,
    {
        let d = m % 10;
        let c = ((('0' as u32) + (d as u32)) as u8) as char;
        assert(c == digit_char(d as nat));
        let ghost before = rev@;
        rev.push(c);
        assert(rev@.reverse() =~= seq![c] + before.reverse());
        if m < 10 {
            assert(decimal_digits(m as nat) =~= seq![c]);
            assert(decimal_digits(n as nat) =~= rev@.reverse());
            break;
        }
        assert(decimal_digits(m as nat) == decimal_digits((m / 10) as nat).push(c));
        assert(decimal_digits(n as nat) =~= decimal_digits((m / 10) as nat) + rev@.reverse());
        m = m / 10;
    }
    let ghost start = out@;
    let len = rev.len();
    if len < width {
        let mut k: usize = 0;
        while k < width - len
            invariant
                len < width,
                k <= width - len,
                out@ == start + Seq::new(k as nat, |i: int| '0'),
            decreases width - len - k,
        {
            out.push('0');
            k = k + 1;
            assert(out@ =~= start + Seq::new(k as nat, |i: int| '0'));
        }
    } else {
        assert(out@ =~= start);
    }
    let ghost padded = out@;
    let mut j: usize = len;
    while j > 0
        invariant
            j <= len == rev@.len(),
            out@ == padded + rev@.reverse().subrange(0, (len - j) as int),
        decreases j,
    {
        out.push(rev[j - 1]);
        j = j - 1;
        assert(out@ =~= padded + rev@.reverse().subrange(0, (len - j) as int));
    }
    assert(rev@.reverse().subrange(0, len as int) =~= rev@.reverse());
    assert(decimal_digits(n as nat).len() == len);
    if len < width {
        assert(out@ =~= start + zero_padded(n as nat, width as nat));
    } else {
        assert(out@ =~= start + zero_padded(n as nat, width as nat));
    }
}

} // verus!
