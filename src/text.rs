//! Decimal numbers and marker search over text.
use vstd::prelude::*;

verus! {

/// The character of a decimal digit.
pub open spec fn digit_char(d: nat) -> char {
    seq!['0', '1', '2', '3', '4', '5', '6', '7', '8', '9'][d as int]
}

pub open spec fn is_digit(c: char) -> bool {
    48 <= c as u32 <= 57
}

pub open spec fn digit_value(c: char) -> nat {
    (c as u32 - 48) as nat
}

/// The decimal representation of `n`, without leading zeros.
pub open spec fn decimal(n: nat) -> Seq<char>
    decreases n,
{
    if n < 10 {
        seq![digit_char(n)]
    } else {
        decimal(n / 10).push(digit_char(n % 10))
    }
}

/// A non-empty run of decimal digits.
pub open spec fn is_decimal(s: Seq<char>) -> bool {
    s.len() > 0 && forall|i: int| 0 <= i < s.len() ==> is_digit(#[trigger] s[i])
}

/// The number that a run of decimal digits stands for.
pub open spec fn value_of(s: Seq<char>) -> nat
    decreases s.len(),
{
    if s.len() == 0 {
        0
    } else {
        value_of(s.drop_last()) * 10 + digit_value(s.last())
    }
}

/// `s` read as an unsigned 64-bit decimal number.
pub open spec fn parse_u64_spec(s: Seq<char>) -> Option<u64> {
    if is_decimal(s) && value_of(s) <= u64::MAX {
        Some(value_of(s) as u64)
    } else {
        None
    }
}

proof fn lemma_digit(d: nat)
    requires
        d < 10,
    ensures
        is_digit(digit_char(d)),
        digit_value(digit_char(d)) == d,
{
    assert(d == 0 || d == 1 || d == 2 || d == 3 || d == 4 || d == 5 || d == 6 || d == 7 || d == 8
        || d == 9);
}

/// Writing a number in decimal and reading it back gives the number.
pub proof fn lemma_decimal_round_trip(n: nat)
    ensures
        is_decimal(decimal(n)),
        value_of(decimal(n)) == n,
    decreases n,
{
    reveal_with_fuel(decimal, 2);
    lemma_digit(n % 10);
    if n < 10 {
        assert(decimal(n).drop_last() =~= Seq::<char>::empty());
        assert(value_of(Seq::<char>::empty()) == 0);
        assert(decimal(n).last() == digit_char(n));
    } else {
        lemma_decimal_round_trip(n / 10);
        assert(decimal(n).drop_last() =~= decimal(n / 10));
        assert(decimal(n).last() == digit_char(n % 10));
        assert(value_of(decimal(n)) == (n / 10) * 10 + n % 10);
    }
    let s = decimal(n);
    assert forall|i: int| 0 <= i < s.len() implies is_digit(#[trigger] s[i]) by {
        if n >= 10 && i < s.len() - 1 {
            assert(s[i] == decimal(n / 10)[i]);
        }
    }
}

/// Appends the decimal representation of `n` to `out`.
pub fn push_decimal(out: &mut String, n: u64)
    ensures
        final(out)@ == old(out)@ + decimal(n as nat),
    decreases n,
{
    if n >= 10 {
        push_decimal(out, n / 10);
    }
    let digits = "0123456789";
    proof {
        reveal_strlit("0123456789");
    }
    let d = (n % 10) as usize;
    let one = digits.substring_char(d, d + 1);
    proof {
        assert(one@ =~= seq![digit_char(d as nat)]);
    }
    out.append(one);
    proof {
        reveal_with_fuel(decimal, 2);
    }
    assert(out@ =~= old(out)@ + decimal(n as nat));
}

proof fn lemma_value_of_prefix_grows(s: Seq<char>, k: int)
    requires
        0 <= k <= s.len(),
    ensures
        value_of(s.take(k)) <= value_of(s),
    decreases s.len() - k,
{
    if k < s.len() {
        lemma_value_of_prefix_grows(s, k + 1);
        assert(s.take(k + 1).drop_last() =~= s.take(k));
    } else {
        assert(s.take(k) =~= s);
    }
}

/// Reads `s` as an unsigned decimal number; `None` when `s` is not a run of
/// digits or the number does not fit in 64 bits.
pub fn parse_u64(s: &str) -> (r: Option<u64>)
    ensures
        r == parse_u64_spec(s@),
{
    let n = s.unicode_len();
    if n == 0 {
        return None;
    }
    let mut value: u64 = 0;
    let mut i: usize = 0;
    while i < n
        invariant
            n == s@.len(),
            0 <= i <= n,
            value as nat == value_of(s@.take(i as int)),
            forall|j: int| 0 <= j < i ==> is_digit(#[trigger] s@[j]),
        decreases n - i,
    {
        let c = s.get_char(i);
        if c < '0' || c > '9' {
            assert(!is_digit(s@[i as int]));
            return None;
        }
        let d = (c as u32 - 48) as u64;
        assert(s@.take(i + 1).drop_last() =~= s@.take(i as int));
        if value > (u64::MAX - d) / 10 {
            proof {
                lemma_value_of_prefix_grows(s@, i + 1);
            }
            return None;
        }
        value = value * 10 + d;
        i = i + 1;
    }
    assert(s@.take(n as int) =~= s@);
    Some(value)
}

/// Whether two texts are equal.
pub fn same_text(a: &str, b: &str) -> (r: bool)
    ensures
        r == (a@ == b@),
{
    let n = a.unicode_len();
    if n != b.unicode_len() {
        return false;
    }
    let mut i: usize = 0;
    while i < n
        invariant
            n == a@.len() == b@.len(),
            0 <= i <= n,
            forall|j: int| 0 <= j < i ==> a@[j] == b@[j],
        decreases n - i,
    {
        if a.get_char(i) != b.get_char(i) {
            return false;
        }
        i = i + 1;
    }
    assert(a@ =~= b@);
    true
}

/// `m` occurs in `s` at position `i`.
pub open spec fn occurs_at(s: Seq<char>, m: Seq<char>, i: int) -> bool {
    0 <= i && i + m.len() <= s.len() && s.subrange(i, i + m.len()) == m
}

/// The greatest position not after `i` at which `m` occurs in `s`.
pub open spec fn last_at_or_before(s: Seq<char>, m: Seq<char>, i: int) -> Option<int>
    decreases i + 1,
{
    if i < 0 {
        None
    } else if occurs_at(s, m, i) {
        Some(i)
    } else {
        last_at_or_before(s, m, i - 1)
    }
}

/// The position of the last occurrence of `m` in `s`.
pub open spec fn last_occurrence(s: Seq<char>, m: Seq<char>) -> Option<int> {
    last_at_or_before(s, m, s.len() - m.len())
}

/// The least position not before `i` at which `m` occurs in `s`.
pub open spec fn first_at_or_after(s: Seq<char>, m: Seq<char>, i: int) -> Option<int>
    decreases s.len() + 1 - i,
{
    if i < 0 || i + m.len() > s.len() {
        None
    } else if occurs_at(s, m, i) {
        Some(i)
    } else {
        first_at_or_after(s, m, i + 1)
    }
}

/// The position of the first occurrence of `m` in `s`.
pub open spec fn first_occurrence(s: Seq<char>, m: Seq<char>) -> Option<int> {
    first_at_or_after(s, m, 0)
}

/// Whether `m` occurs in `s` at position `i`.
fn matches_at(s: &str, m: &str, i: usize) -> (r: bool)
    requires
        i + m@.len() <= s@.len() <= usize::MAX,
    ensures
        r == occurs_at(s@, m@, i as int),
{
    let k = m.unicode_len();
    let mut j: usize = 0;
    while j < k
        invariant
            k == m@.len(),
            i + k <= s@.len() <= usize::MAX,
            0 <= j <= k,
            forall|t: int| 0 <= t < j ==> s@[i + t] == m@[t],
        decreases k - j,
    {
        if s.get_char(i + j) != m.get_char(j) {
            assert(s@.subrange(i as int, i + k)[j as int] != m@[j as int]);
            return false;
        }
        j = j + 1;
    }
    assert(s@.subrange(i as int, i + k) =~= m@);
    true
}

proof fn lemma_last_at_or_before_occurs(s: Seq<char>, m: Seq<char>, i: int)
    ensures
        last_at_or_before(s, m, i) matches Some(k) ==> occurs_at(s, m, k),
    decreases i + 1,
{
    if i >= 0 && !occurs_at(s, m, i) {
        lemma_last_at_or_before_occurs(s, m, i - 1);
    }
}

/// The position of the last occurrence of `m` in `s`.
pub fn find_last(s: &str, m: &str) -> (r: Option<usize>)
    ensures
        match r {
            Some(k) => last_occurrence(s@, m@) == Some(k as int) && occurs_at(s@, m@, k as int),
            None => last_occurrence(s@, m@) is None,
        },
{
    proof {
        lemma_last_at_or_before_occurs(s@, m@, s@.len() - m@.len());
    }
    let n = s.unicode_len();
    let k = m.unicode_len();
    if k > n {
        return None;
    }
    let mut i: usize = n - k;
    loop
        invariant
            n == s@.len(),
            k == m@.len(),
            i + k <= n,
            last_occurrence(s@, m@) == last_at_or_before(s@, m@, i as int),
        decreases i,
    {
        if matches_at(s, m, i) {
            return Some(i);
        }
        if i == 0 {
            assert(last_at_or_before(s@, m@, -1) is None);
            return None;
        }
        i = i - 1;
    }
}

/// The position of the first occurrence of `m` in `s`.
pub fn find_first(s: &str, m: &str) -> (r: Option<usize>)
    ensures
        match r {
            Some(k) => first_occurrence(s@, m@) == Some(k as int) && occurs_at(s@, m@, k as int),
            None => first_occurrence(s@, m@) is None,
        },
{
    let n = s.unicode_len();
    let k = m.unicode_len();
    if k > n {
        return None;
    }
    let mut i: usize = 0;
    loop
        invariant
            n == s@.len(),
            k == m@.len(),
            i + k <= n,
            first_occurrence(s@, m@) == first_at_or_after(s@, m@, i as int),
        decreases n - k - i,
    {
        if matches_at(s, m, i) {
            return Some(i);
        }
        if i == n - k {
            assert(first_at_or_after(s@, m@, i + 1) is None);
            return None;
        }
        i = i + 1;
    }
}

} // verus!
