use vstd::prelude::*;

verus! {

pub open spec fn is_digit(c: char) -> bool {
    '0' <= c && c <= '9'
}

/// Every character of `s` is an ASCII decimal digit.
pub open spec fn all_digits(s: Seq<char>) -> bool {
    forall|i: int| 0 <= i < s.len() ==> is_digit(#[trigger] s[i])
}

/// The value of a string of decimal digits.
pub open spec fn digits_value(s: Seq<char>) -> int
    decreases s.len(),
{
    if s.len() == 0 {
        0
    } else {
        digits_value(s.drop_last()) * 10 + (s.last() as int - '0' as int)
    }
}

pub open spec fn has_char(s: Seq<char>, c: char) -> bool {
    exists|i: int| 0 <= i < s.len() && s[i] == c
}

/// A date without a time of day: it holds a `-` and no `:`.
pub open spec fn is_date_only(s: Seq<char>) -> bool {
    has_char(s, '-') && !has_char(s, ':')
}

/// Whether every character of `s` is an ASCII decimal digit (true of the
/// empty string).
pub fn is_number(s: &String) -> (r: bool)
    ensures
        r == all_digits(s@),
{
    let n = s.as_str().unicode_len();
    let mut i: usize = 0;
    while i < n
        invariant
            n == s@.len(),
            i <= n,
            forall|j: int| 0 <= j < i ==> is_digit(#[trigger] s@[j]),
        decreases n - i,
    {
        let c = s.as_str().get_char(i);
        if !('0' <= c && c <= '9') {
            return false;
        }
        i = i + 1;
    }
    true
}

fn contains_char(s: &str, c: char) -> (r: bool)
    ensures
        r == has_char(s@, c),
{
    let n = s.unicode_len();
    let mut i: usize = 0;
    while i < n
        invariant
            n == s@.len(),
            i <= n,
            forall|j: int| 0 <= j < i ==> s@[j] != c,
        decreases n - i,
    {
        if s.get_char(i) == c {
            return true;
        }
        i = i + 1;
    }
    false
}

/// Whether `s` is a date without a time of day.
pub fn is_date(s: &String) -> (r: bool)
    ensures
        r == is_date_only(s@),
{
    contains_char(s.as_str(), '-') && !contains_char(s.as_str(), ':')
}

/// The value of the digits of `s` from `start` to `end`, or `None` when it is
/// greater than `i64::MAX`.
pub fn digits_to_i64(s: &str, start: usize, end: usize) -> (r: Option<i64>)
    requires
        start <= end <= s@.len(),
        all_digits(s@.subrange(start as int, end as int)),
    ensures
        ({
            let v = digits_value(s@.subrange(start as int, end as int));
            r == if v <= i64::MAX {
                Some(v as i64)
            } else {
                None::<i64>
            }
        }),
{
    let ghost d = s@.subrange(start as int, end as int);
    let mut value: i64 = 0;
    let mut i: usize = start;
    while i < end
        invariant
            start <= i <= end <= s@.len(),
            d == s@.subrange(start as int, end as int),
            all_digits(d),
            value as int == digits_value(d.subrange(0, i - start)),
            0 <= value,
        decreases end - i,
    {
        let c = s.get_char(i);
        proof {
            assert(is_digit(d[i - start]));
            assert(d.subrange(0, i + 1 - start).drop_last() =~= d.subrange(0, i - start));
            assert(d =~= d.subrange(0, i + 1 - start) + d.subrange(i + 1 - start, d.len() as int));
            lemma_digits_value_mono(d.subrange(0, i + 1 - start), d.subrange(i + 1 - start, d.len() as int), d);
        }
        let digit: i64 = (c as u32 - '0' as u32) as i64;
        if value > (i64::MAX - digit) / 10 {
            proof {
                assert(value * 10 + digit > i64::MAX) by (nonlinear_arith)
                    requires
                        value > (i64::MAX - digit) / 10,
                        0 <= digit <= 9,
                ;
            }
            return None;
        }
        value = value * 10 + digit;
        i = i + 1;
    }
    assert(d.subrange(0, end - start) =~= d);
    Some(value)
}

/// A longer digit string has a value no smaller than its prefix.
proof fn lemma_digits_value_mono(p: Seq<char>, q: Seq<char>, d: Seq<char>)
    requires
        d == p + q,
        all_digits(d),
    ensures
        digits_value(p) <= digits_value(d),
        0 <= digits_value(p),
    decreases q.len() + p.len(),
{
    if q.len() == 0 {
        assert(d =~= p);
        lemma_digits_value_nonneg(p);
    } else {
        let d2 = d.drop_last();
        assert(d2 =~= p + q.drop_last());
        assert(all_digits(d2)) by {
            assert forall|i: int| 0 <= i < d2.len() implies is_digit(#[trigger] d2[i]) by {
                assert(d2[i] == d[i]);
            }
        }
        lemma_digits_value_mono(p, q.drop_last(), d2);
        assert(is_digit(d[d.len() - 1]));
    }
}

proof fn lemma_digits_value_nonneg(d: Seq<char>)
    requires
        all_digits(d),
    ensures
        0 <= digits_value(d),
    decreases d.len(),
{
    if d.len() > 0 {
        let d2 = d.drop_last();
        assert(all_digits(d2)) by {
            assert forall|i: int| 0 <= i < d2.len() implies is_digit(#[trigger] d2[i]) by {
                assert(d2[i] == d[i]);
            }
        }
        lemma_digits_value_nonneg(d2);
        assert(is_digit(d[d.len() - 1]));
    }
}

/// A digit string of `n` digits has a value below `10^n`.
pub proof fn lemma_digits_bounded(d: Seq<char>)
    requires
        all_digits(d),
    ensures
        0 <= digits_value(d) < pow10(d.len()),
    decreases d.len(),
{
    if d.len() > 0 {
        let d2 = d.drop_last();
        assert(all_digits(d2)) by {
            assert forall|i: int| 0 <= i < d2.len() implies is_digit(#[trigger] d2[i]) by {
                assert(d2[i] == d[i]);
            }
        }
        lemma_digits_bounded(d2);
        assert(is_digit(d[d.len() - 1]));
        let v2 = digits_value(d2);
        let p2 = pow10(d2.len());
        assert(v2 * 10 + 9 < p2 * 10) by (nonlinear_arith)
            requires
                v2 < p2,
        ;
    }
}

pub open spec fn pow10(n: nat) -> int
    decreases n,
{
    if n == 0 {
        1
    } else {
        10 * pow10((n - 1) as nat)
    }
}

} // verus!
