//! Character-level helpers for building and rewriting request strings.

use vstd::prelude::*;

verus! {

/// `String::push` appends exactly one character at the end.
pub assume_specification[ String::push ](s: &mut String, ch: char)
    ensures
        final(s)@ == old(s)@.push(ch),
;

/// The characters of `s`, in order.
pub fn chars_of(s: &str) -> (r: Vec<char>)
    ensures
        r@ == s@,
{
    broadcast use vstd::string::group_string_axioms;

    let mut out: Vec<char> = Vec::new();
    for c in it: s.chars()
        invariant
            it.seq() == s@,
            out@ == s@.take(it.index()),
    {
        out.push(c);
    }
    assert(s@.take(s@.len() as int) == s@);
    out
}

/// The string that holds the characters `v`, in order.
pub fn string_of(v: &Vec<char>) -> (r: String)
    ensures
        r@ == v@,
{
    let mut out = String::new();
    let mut i: usize = 0;
    while i < v.len()
        invariant
            i <= v.len(),
            out@ == v@.take(i as int),
        decreases v.len() - i,
    {
        out.push(v[i]);
        i += 1;
    }
    out
}

/// Whether `s` begins with `prefix`.
pub open spec fn has_prefix(s: Seq<char>, prefix: Seq<char>) -> bool {
    prefix.len() <= s.len() && s.subrange(0, prefix.len() as int) == prefix
}

/// `s` without its leading copies of `prefix`: the prefix is removed as
/// often as it stands at the start. An empty prefix removes nothing.
pub open spec fn trimmed(s: Seq<char>, prefix: Seq<char>) -> Seq<char>
    decreases s.len(),
{
    if prefix.len() > 0 && has_prefix(s, prefix) {
        trimmed(s.skip(prefix.len() as int), prefix)
    } else {
        s
    }
}

/// `s` with every occurrence of `from` replaced by `to`. Occurrences are
/// found from the left and do not overlap. An empty `from` replaces nothing.
pub open spec fn replaced(s: Seq<char>, from: Seq<char>, to: Seq<char>) -> Seq<char>
    decreases s.len(),
{
    if s.len() == 0 || from.len() == 0 {
        s
    } else if has_prefix(s, from) {
        to + replaced(s.skip(from.len() as int), from, to)
    } else {
        seq![s[0]] + replaced(s.skip(1), from, to)
    }
}

/// The decimal digit for `d`.
pub open spec fn digit(d: int) -> char {
    if d == 0 {
        '0'
    } else if d == 1 {
        '1'
    } else if d == 2 {
        '2'
    } else if d == 3 {
        '3'
    } else if d == 4 {
        '4'
    } else if d == 5 {
        '5'
    } else if d == 6 {
        '6'
    } else if d == 7 {
        '7'
    } else if d == 8 {
        '8'
    } else {
        '9'
    }
}

/// The decimal digits of a natural number, without leading zeros.
pub open spec fn decimal_nat(n: nat) -> Seq<char>
    decreases n,
{
    if n < 10 {
        seq![digit(n as int)]
    } else {
        decimal_nat(n / 10).push(digit((n % 10) as int))
    }
}

/// The decimal form of an integer: a minus sign for a negative one, then
/// the digits of its magnitude.
pub open spec fn decimal(n: int) -> Seq<char> {
    if n < 0 {
        seq!['-'] + decimal_nat((-n) as nat)
    } else {
        decimal_nat(n as nat)
    }
}

/// A text that lacks a character of the pattern holds no occurrence of the
/// pattern, and replacing leaves it as it is.
pub proof fn lemma_replaced_without_occurrence(
    s: Seq<char>,
    from: Seq<char>,
    to: Seq<char>,
    missing: char,
)
    requires
        from.contains(missing),
        !s.contains(missing),
    ensures
        replaced(s, from, to) == s,
    decreases s.len(),
{
    if s.len() > 0 {
        let at = choose|at: int| 0 <= at < from.len() && from[at] == missing;
        if has_prefix(s, from) {
            assert(s.subrange(0, from.len() as int)[at] == s[at]);
            assert(s.contains(missing));
        }
        assert forall|k: int| 0 <= k < s.skip(1).len() implies s.skip(1)[k] != missing by {
            assert(s.skip(1)[k] == s[k + 1]);
        }
        lemma_replaced_without_occurrence(s.skip(1), from, to, missing);
        assert(seq![s[0]] + s.skip(1) == s);
    }
}

/// A text that begins with another character than the prefix keeps its
/// start when the prefix is trimmed.
pub proof fn lemma_trimmed_without_prefix(s: Seq<char>, prefix: Seq<char>)
    requires
        prefix.len() > 0,
        s.len() == 0 || s[0] != prefix[0],
    ensures
        trimmed(s, prefix) == s,
{
    if has_prefix(s, prefix) {
        assert(s.subrange(0, prefix.len() as int)[0] == s[0]);
    }
}

/// The digits of a number are at least one, none of them a minus sign; a
/// number of two digits or more is ten or more.
pub proof fn lemma_decimal_nat_shape(n: nat)
    ensures
        decimal_nat(n).len() >= 1,
        decimal_nat(n)[0] != '-',
        n >= 10 <==> decimal_nat(n).len() >= 2,
    decreases n,
{
    if n >= 10 {
        lemma_decimal_nat_shape(n / 10);
    }
}

/// Two natural numbers with the same digits are the same number.
pub proof fn lemma_decimal_nat_injective(a: nat, b: nat)
    requires
        decimal_nat(a) == decimal_nat(b),
    ensures
        a == b,
    decreases a,
{
    lemma_decimal_nat_shape(a);
    lemma_decimal_nat_shape(b);
    if a >= 10 {
        let high_a = decimal_nat(a / 10);
        let high_b = decimal_nat(b / 10);
        assert(high_a == decimal_nat(a).drop_last());
        assert(high_b == decimal_nat(b).drop_last());
        assert(decimal_nat(a).last() == digit((a % 10) as int));
        assert(decimal_nat(b).last() == digit((b % 10) as int));
        lemma_decimal_nat_injective(a / 10, b / 10);
    } else {
        assert(decimal_nat(a)[0] == digit(a as int));
        assert(decimal_nat(b)[0] == digit(b as int));
    }
}

/// Two integers with the same decimal form are the same integer.
pub proof fn lemma_decimal_injective(a: int, b: int)
    requires
        decimal(a) == decimal(b),
    ensures
        a == b,
{
    if a < 0 {
        lemma_decimal_nat_shape((-a) as nat);
        assert(decimal(a)[0] == '-');
        if b < 0 {
            assert(decimal(a).skip(1) == decimal_nat((-a) as nat));
            assert(decimal(b).skip(1) == decimal_nat((-b) as nat));
            lemma_decimal_nat_injective((-a) as nat, (-b) as nat);
        } else {
            lemma_decimal_nat_shape(b as nat);
        }
    } else {
        lemma_decimal_nat_shape(a as nat);
        if b < 0 {
            assert(decimal(b)[0] == '-');
        } else {
            lemma_decimal_nat_injective(a as nat, b as nat);
        }
    }
}

/// Whether `pattern` stands in `s` at position `at`.
pub fn matches_at(s: &Vec<char>, at: usize, pattern: &Vec<char>) -> (r: bool)
    ensures
        r == (at <= s.len() && has_prefix(s@.skip(at as int), pattern@)),
{
    if at > s.len() || pattern.len() > s.len() - at {
        return false;
    }
    let ghost rest = s@.skip(at as int);
    let mut j: usize = 0;
    while j < pattern.len()
        invariant
            j <= pattern.len(),
            at + pattern.len() <= s.len(),
            rest == s@.skip(at as int),
            forall|k: int| 0 <= k < j ==> rest[k] == pattern@[k],
        decreases pattern.len() - j,
    {
        if s[at + j] != pattern[j] {
            assert(rest.subrange(0, pattern@.len() as int)[j as int] == rest[j as int]);
            return false;
        }
        j += 1;
    }
    assert(rest.subrange(0, pattern@.len() as int) =~= pattern@);
    true
}

/// Whether `s` begins with `prefix`.
pub fn starts_with(s: &Vec<char>, prefix: &Vec<char>) -> (r: bool)
    ensures
        r == has_prefix(s@, prefix@),
{
    assert(s@.skip(0) == s@);
    matches_at(s, 0, prefix)
}

/// Appends the characters of `extra` to `out`.
pub fn append_all(out: &mut Vec<char>, extra: &Vec<char>)
    ensures
        final(out)@ == old(out)@ + extra@,
{
    let mut j: usize = 0;
    while j < extra.len()
        invariant
            j <= extra.len(),
            out@ == old(out)@ + extra@.take(j as int),
        decreases extra.len() - j,
    {
        out.push(extra[j]);
        j += 1;
    }
    assert(extra@.take(extra@.len() as int) == extra@);
}

/// Removes the leading copies of `prefix` from `s`.
pub fn trim_start_matches(s: &Vec<char>, prefix: &Vec<char>) -> (r: Vec<char>)
    ensures
        r@ == trimmed(s@, prefix@),
{
    let mut i: usize = 0;
    assert(s@.skip(0) == s@);
    if prefix.len() > 0 {
        while matches_at(s, i, prefix)
            invariant
                i <= s.len(),
                prefix.len() > 0,
                trimmed(s@, prefix@) == trimmed(s@.skip(i as int), prefix@),
            decreases s.len() - i,
        {
            assert(s@.skip(i as int).skip(prefix@.len() as int) == s@.skip(i + prefix@.len()));
            i += prefix.len();
        }
    }
    let mut out: Vec<char> = Vec::new();
    let mut j: usize = i;
    while j < s.len()
        invariant
            i <= j <= s.len(),
            out@ == s@.subrange(i as int, j as int),
        decreases s.len() - j,
    {
        out.push(s[j]);
        j += 1;
    }
    assert(s@.subrange(i as int, s@.len() as int) == s@.skip(i as int));
    out
}

/// Replaces every occurrence of `from` in `s` by `to`.
pub fn replace(s: &Vec<char>, from: &Vec<char>, to: &Vec<char>) -> (r: Vec<char>)
    ensures
        r@ == replaced(s@, from@, to@),
{
    let mut out: Vec<char> = Vec::new();
    let mut i: usize = 0;
    assert(s@.skip(0) == s@);
    if from.len() == 0 {
        append_all(&mut out, s);
        return out;
    }
    while i < s.len()
        invariant
            i <= s.len(),
            from.len() > 0,
            replaced(s@, from@, to@) == out@ + replaced(s@.skip(i as int), from@, to@),
        decreases s.len() - i,
    {
        let ghost rest = s@.skip(i as int);
        let ghost before = out@;
        if matches_at(s, i, from) {
            append_all(&mut out, to);
            assert(rest.skip(from@.len() as int) == s@.skip(i + from@.len()));
            assert(before + (to@ + replaced(rest.skip(from@.len() as int), from@, to@)) == (before
                + to@) + replaced(rest.skip(from@.len() as int), from@, to@));
            i += from.len();
        } else {
            out.push(s[i]);
            assert(rest.skip(1) == s@.skip(i + 1));
            assert(before + (seq![rest[0]] + replaced(rest.skip(1), from@, to@)) == before.push(
                rest[0],
            ) + replaced(rest.skip(1), from@, to@));
            i += 1;
        }
    }
    assert(out@ + replaced(s@.skip(i as int), from@, to@) == out@);
    out
}

/// The character for the last decimal digit of `n`.
pub fn digit_char(n: u64) -> (r: char)
    ensures
        r == digit((n % 10) as int),
{
    let d: u64 = n % 10;
    if d == 0 {
        '0'
    } else if d == 1 {
        '1'
    } else if d == 2 {
        '2'
    } else if d == 3 {
        '3'
    } else if d == 4 {
        '4'
    } else if d == 5 {
        '5'
    } else if d == 6 {
        '6'
    } else if d == 7 {
        '7'
    } else if d == 8 {
        '8'
    } else {
        '9'
    }
}

/// Appends the decimal form of `n` to `out`.
pub fn push_decimal(out: &mut String, n: i64)
    ensures
        final(out)@ == old(out)@ + decimal(n as int),
{
    let magnitude: u64 = if n < 0 {
        (-(n + 1)) as u64 + 1
    } else {
        n as u64
    };
    let mut low: Vec<char> = Vec::new();
    let mut m: u64 = magnitude;
    assert(decimal_nat(m as nat) + low@.reverse() == decimal_nat(m as nat));
    while m >= 10
        invariant
            decimal_nat(magnitude as nat) == decimal_nat(m as nat) + low@.reverse(),
        decreases m,
    {
        let d = digit_char(m % 10);
        let ghost before = low@;
        low.push(d);
        assert(low@.reverse() == seq![d] + before.reverse());
        assert(decimal_nat((m / 10) as nat).push(d) + before.reverse() == decimal_nat(
            (m / 10) as nat,
        ) + (seq![d] + before.reverse()));
        m = m / 10;
    }
    if n < 0 {
        out.push('-');
    }
    out.push(digit_char(m));
    let ghost head = out@;
    let mut k: usize = low.len();
    while k > 0
        invariant
            k <= low.len(),
            out@ == head + low@.reverse().take(low.len() - k),
        decreases k,
    {
        k -= 1;
        out.push(low[k]);
        assert(low@.reverse().take(low.len() - k) == low@.reverse().take(low.len() - k - 1).push(
            low@[k as int],
        ));
    }
    assert(low@.reverse().take(low@.len() as int) == low@.reverse());
    assert(out@ == old(out)@ + decimal(n as int));
}

/// The decimal form of `n`.
pub fn to_decimal(n: i64) -> (r: String)
    ensures
        r@ == decimal(n as int),
{
    let mut out = String::new();
    push_decimal(&mut out, n);
    out
}

} // verus!
