//! Character-level string operations used by the documentation generator.

use vstd::prelude::*;

verus! {

/// Appends one character at the end of a string.
///
/// Trusted: calls `String::push`, which std documents as appending the given
/// `char` to the end of the string.
#[verifier::external_body]
pub(crate) fn push_char(s: &mut String, c: char)
    ensures
        final(s)@ == old(s)@.push(c),
{
    s.push(c);
}

/// `pat` occurs in `s` starting at character index `i`.
pub open spec fn occurs_at(s: Seq<char>, pat: Seq<char>, i: int) -> bool {
    &&& 0 <= i
    &&& i + pat.len() <= s.len()
    &&& s.subrange(i, i + pat.len()) == pat
}

/// The result of replacing, from left to right, every non-overlapping
/// occurrence of the non-empty pattern `from` in `s` by `to`.
pub open spec fn replaced(s: Seq<char>, from: Seq<char>, to: Seq<char>) -> Seq<char>
    decreases s.len(),
{
    if s.len() == 0 || from.len() == 0 {
        s
    } else if occurs_at(s, from, 0) {
        to + replaced(s.skip(from.len() as int), from, to)
    } else {
        seq![s[0]] + replaced(s.drop_first(), from, to)
    }
}

/// Whether `pat` occurs in `s` at character index `i`.
pub fn matches_at(s: &str, pat: &str, i: usize) -> (res: bool)
    requires
        i <= s@.len(),
    ensures
        res == occurs_at(s@, pat@, i as int),
{
    let n = s.unicode_len();
    let m = pat.unicode_len();
    if m > n - i {
        return false;
    }
    let mut j: usize = 0;
    while j < m
        invariant
            n == s@.len(),
            m == pat@.len(),
            i + m <= n,
            j <= m,
            forall|k: int| 0 <= k < j ==> s@[i + k] == pat@[k],
        decreases m - j,
    {
        if s.get_char(i + j) != pat.get_char(j) {
            assert(s@.subrange(i as int, i + m)[j as int] != pat@[j as int]);
            return false;
        }
        j = j + 1;
    }
    assert(s@.subrange(i as int, i + m) =~= pat@);
    true
}

/// Character-wise equality of two strings.
pub fn chars_eq(a: &str, b: &str) -> (res: bool)
    ensures
        res == (a@ == b@),
{
    let n = a.unicode_len();
    if n != b.unicode_len() {
        return false;
    }
    let r = matches_at(a, b, 0);
    assert(a@.subrange(0, n as int) =~= a@);
    r
}

proof fn lemma_replaced_step(s: Seq<char>, from: Seq<char>, to: Seq<char>, i: int)
    requires
        0 <= i < s.len(),
        from.len() > 0,
    ensures
        occurs_at(s, from, i) ==> replaced(s.skip(i), from, to) == to + replaced(
            s.skip(i + from.len()),
            from,
            to,
        ),
        !occurs_at(s, from, i) ==> replaced(s.skip(i), from, to) == seq![s[i]] + replaced(
            s.skip(i + 1),
            from,
            to,
        ),
{
    let t = s.skip(i);
    if occurs_at(s, from, i) {
        assert(t.subrange(0, from.len() as int) =~= s.subrange(i, i + from.len()));
        assert(t.skip(from.len() as int) =~= s.skip(i + from.len()));
    } else {
        if i + from.len() <= s.len() {
            assert(t.subrange(0, from.len() as int) =~= s.subrange(i, i + from.len()));
        }
        assert(t.drop_first() =~= s.skip(i + 1));
    }
}

/// Replaces every non-overlapping occurrence of `from` in `s` by `to`,
/// scanning from left to right, as `str::replace` does for a non-empty pattern.
pub fn replace_all(s: &str, from: &str, to: &str) -> (res: String)
    requires
        from@.len() > 0,
    ensures
        res@ == replaced(s@, from@, to@),
{
    let n = s.unicode_len();
    let m = from.unicode_len();
    let mut res = String::new();
    let mut i: usize = 0;
    assert(s@.skip(0) =~= s@);
    while i < n
        invariant
            n == s@.len(),
            m == from@.len(),
            m > 0,
            i <= n,
            replaced(s@, from@, to@) == res@ + replaced(s@.skip(i as int), from@, to@),
        decreases n - i,
    {
        proof {
            lemma_replaced_step(s@, from@, to@, i as int);
        }
        if matches_at(s, from, i) {
            let ghost before = res@;
            res.append(to);
            assert(before + (to@ + replaced(s@.skip(i + m), from@, to@)) =~= res@ + replaced(
                s@.skip(i + m),
                from@,
                to@,
            ));
            i = i + m;
        } else {
            let ghost before = res@;
            push_char(&mut res, s.get_char(i));
            assert(before + (seq![s@[i as int]] + replaced(s@.skip(i + 1), from@, to@))
                =~= res@ + replaced(s@.skip(i + 1), from@, to@));
            i = i + 1;
        }
    }
    assert(s@.skip(n as int) =~= Seq::<char>::empty());
    assert(res@ + Seq::<char>::empty() =~= res@);
    res
}

/// Replacing a pattern that does not occur in a string leaves the string as
/// it is.
pub proof fn law_replace_without_occurrence_is_identity(
    s: Seq<char>,
    from: Seq<char>,
    to: Seq<char>,
)
    requires
        from.len() > 0,
        forall|i: int| !occurs_at(s, from, i),
    ensures
        replaced(s, from, to) == s,
    decreases s.len(),
{
    if s.len() > 0 {
        let t = s.drop_first();
        assert forall|i: int| !occurs_at(t, from, i) by {
            if occurs_at(t, from, i) {
                assert(s.subrange(i + 1, i + 1 + from.len()) =~= t.subrange(i, i + from.len()));
                assert(occurs_at(s, from, i + 1));
            }
        }
        law_replace_without_occurrence_is_identity(t, from, to);
        assert(!occurs_at(s, from, 0));
        assert(seq![s[0]] + t =~= s);
    }
}

/// The character of the decimal digit `d`.
pub open spec fn digit(d: nat) -> char {
    (48 + d) as char
}

/// Decimal digits of `n`, most significant first, without leading zeros.
pub open spec fn decimal(n: nat) -> Seq<char>
    decreases n,
{
    if n < 10 {
        seq![digit(n)]
    } else {
        decimal(n / 10).push(digit(n % 10))
    }
}

/// Decimal text of a signed integer, with a leading `-` when negative, as
/// `Display` writes an `i64`.
pub open spec fn signed_decimal(v: int) -> Seq<char> {
    if v < 0 {
        seq!['-'] + decimal((-v) as nat)
    } else {
        decimal(v as nat)
    }
}

/// The number that a string of decimal digits denotes.
pub open spec fn digits_value(s: Seq<char>) -> int
    decreases s.len(),
{
    if s.len() == 0 {
        0
    } else {
        digits_value(s.drop_last()) * 10 + (s.last() as int - 48)
    }
}

/// The decimal text of `n` is non-empty, made of the digits `0` to `9`,
/// has no leading zero unless it is `0` itself, and denotes `n`.
pub proof fn law_decimal_denotes_value(n: nat)
    ensures
        decimal(n).len() >= 1,
        forall|i: int| 0 <= i < decimal(n).len() ==> '0' <= #[trigger] decimal(n)[i] <= '9',
        decimal(n)[0] == '0' ==> n == 0,
        digits_value(decimal(n)) == n,
    decreases n,
{
    if n < 10 {
        assert(decimal(n) == seq![digit(n)]);
        assert(seq![digit(n)].drop_last() =~= Seq::<char>::empty());
        assert(digit(n) as int == 48 + n);
        assert(digits_value(Seq::<char>::empty()) == 0);
        assert(digits_value(seq![digit(n)]) == digits_value(Seq::<char>::empty()) * 10 + (digit(
            n,
        ) as int - 48));
    } else {
        law_decimal_denotes_value(n / 10);
        let d = decimal(n / 10);
        assert(decimal(n) == d.push(digit(n % 10)));
        assert(d.push(digit(n % 10)).drop_last() =~= d);
        assert(digit(n % 10) as int == 48 + n % 10);
        assert(n == (n / 10) * 10 + n % 10);
        assert(digits_value(d.push(digit(n % 10))) == digits_value(d) * 10 + (digit(n % 10) as int
            - 48));
        assert forall|i: int| 0 <= i < decimal(n).len() implies '0' <= #[trigger] decimal(n)[i]
            <= '9' by {
            if i < d.len() {
                assert(decimal(n)[i] == d[i]);
            }
        }
    }
}

/// The signed decimal text of a value: the digits of the value when it is
/// not negative, and `-` followed by the digits of its magnitude when it is.
pub proof fn law_signed_decimal(v: int)
    ensures
        v >= 0 ==> signed_decimal(v) == decimal(v as nat) && digits_value(signed_decimal(v)) == v,
        v < 0 ==> signed_decimal(v)[0] == '-' && signed_decimal(v).drop_first() == decimal(
            (-v) as nat,
        ) && digits_value(signed_decimal(v).drop_first()) == -v,
{
    if v >= 0 {
        law_decimal_denotes_value(v as nat);
    } else {
        law_decimal_denotes_value((-v) as nat);
        assert((seq!['-'] + decimal((-v) as nat)).drop_first() =~= decimal((-v) as nat));
    }
}

fn digit_char(d: u64) -> (c: char)
    requires
        d < 10,
    ensures
        c == digit(d as nat),
{
    let b: u8 = 48u8 + (d as u8);
    b as char
}

/// Appends the decimal digits of `n`.
pub fn push_decimal(s: &mut String, n: u64)
    ensures
        final(s)@ == old(s)@ + decimal(n as nat),
    decreases n,
{
    if n >= 10 {
        push_decimal(s, n / 10);
    }
    push_char(s, digit_char(n % 10));
    assert(s@ =~= old(s)@ + decimal(n as nat));
}

/// Appends the decimal text of `v`.
pub fn push_signed_decimal(s: &mut String, v: i64)
    ensures
        final(s)@ == old(s)@ + signed_decimal(v as int),
{
    if v < 0 {
        push_char(s, '-');
        let wide: i128 = v as i128;
        let magnitude: u64 = (0i128 - wide) as u64;
        push_decimal(s, magnitude);
        assert(s@ =~= old(s)@ + signed_decimal(v as int));
    } else {
        push_decimal(s, v as u64);
    }
}

} // verus!
