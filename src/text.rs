//! Character-level helpers on text: substring search and decimal rendering.

use vstd::prelude::*;

verus! {

/// `pat` occurs in `s` as a contiguous run of characters.
pub open spec fn seq_contains(s: Seq<char>, pat: Seq<char>) -> bool {
    exists|i: int| 0 <= i <= s.len() - pat.len() && #[trigger] s.subrange(i, i + pat.len()) == pat
}

/// The character of a decimal digit.
pub open spec fn digit_char(d: nat) -> char {
    if d == 0 {
        '0'
    } else if d == 1 {
        '1'
    } else if d == 2 {
        '2'
    } else if d == 3 {
        '3'
    } else if d == 4 {
        '4'
    } else if d == 5 {
        '5'
    } else if d == 6 {
        '6'
    } else if d == 7 {
        '7'
    } else if d == 8 {
        '8'
    } else {
        '9'
    }
}

/// The decimal digits of `n`, most significant first, without leading zeros.
pub open spec fn decimal_of(n: nat) -> Seq<char>
    decreases n,
{
    if n < 10 {
        seq![digit_char(n)]
    } else {
        decimal_of(n / 10) + seq![digit_char(n % 10)]
    }
}

/// The decimal rendering of an integer, with a leading `-` when negative.
pub open spec fn signed_decimal_of(n: int) -> Seq<char> {
    if n < 0 {
        seq!['-'] + decimal_of((-n) as nat)
    } else {
        decimal_of(n as nat)
    }
}

/// The characters of `s`, one per element.
pub fn chars_of(s: &str) -> (r: Vec<char>)
    ensures
        r@ == s@,
{
    let n = s.unicode_len();
    let mut r: Vec<char> = Vec::new();
    let mut i: usize = 0;
    while i < n
        invariant
            n == s@.len(),
            i <= n,
            r@ == s@.subrange(0, i as int),
        decreases n - i,
    {
        r.push(s.get_char(i));
        i += 1;
    }
    assert(r@ =~= s@);
    r
}

/// Whether `pat` occurs in `s`.
pub fn text_contains(s: &str, pat: &str) -> (r: bool)
    ensures
        r == seq_contains(s@, pat@),
{
    let sv = chars_of(s);
    let pv = chars_of(pat);
    let n = sv.len();
    let m = pv.len();
    if m > n {
        return false;
    }
    if m == 0 {
        assert(s@.subrange(0, 0 + pat@.len() as int) =~= pat@);
        return true;
    }
    let mut i: usize = 0;
    while i <= n - m
        invariant
            sv@ == s@,
            pv@ == pat@,
            n == sv.len(),
            m == pv.len(),
            1 <= m <= n,
            i <= n - m + 1,
            forall|k: int| 0 <= k < i ==> #[trigger] s@.subrange(k, k + m) != pat@,
        decreases n - m + 1 - i,
    {
        let mut j: usize = 0;
        let mut same = true;
        while j < m
            invariant
                sv@ == s@,
                pv@ == pat@,
                n == sv.len(),
                m == pv.len(),
                i + m <= n,
                j <= m,
                same ==> forall|t: int| 0 <= t < j ==> sv@[i + t] == pv@[t],
                !same ==> s@.subrange(i as int, i + m) != pat@,
            decreases m - j,
        {
            if sv[i + j] != pv[j] {
                same = false;
                assert(s@.subrange(i as int, i + m)[j as int] == sv@[i + j]);
            }
            j += 1;
        }
        if same {
            assert(s@.subrange(i as int, i + m) =~= pat@);
            return true;
        }
        i += 1;
    }
    false
}

fn digit_str(d: u64) -> (r: &'static str)
    requires
        d < 10,
    ensures
        r@ == seq![digit_char(d as nat)],
{
    proof {
        reveal_strlit("0");
        reveal_strlit("1");
        reveal_strlit("2");
        reveal_strlit("3");
        reveal_strlit("4");
        reveal_strlit("5");
        reveal_strlit("6");
        reveal_strlit("7");
        reveal_strlit("8");
        reveal_strlit("9");
    }
    let r = if d == 0 {
        "0"
    } else if d == 1 {
        "1"
    } else if d == 2 {
        "2"
    } else if d == 3 {
        "3"
    } else if d == 4 {
        "4"
    } else if d == 5 {
        "5"
    } else if d == 6 {
        "6"
    } else if d == 7 {
        "7"
    } else if d == 8 {
        "8"
    } else {
        "9"
    };
    assert(r@ =~= seq![digit_char(d as nat)]);
    r
}

/// Appends the decimal digits of `n` to `s`.
pub fn push_decimal(s: &mut String, n: u64)
    ensures
        final(s)@ == old(s)@ + decimal_of(n as nat),
    decreases n,
{
    if n >= 10 {
        push_decimal(s, n / 10);
        s.append(digit_str(n % 10));
        assert(final(s)@ =~= old(s)@ + decimal_of(n as nat));
    } else {
        s.append(digit_str(n));
    }
}

/// Appends the decimal rendering of `n` to `s`, with a `-` when negative.
pub fn push_signed_decimal(s: &mut String, n: i64)
    ensures
        final(s)@ == old(s)@ + signed_decimal_of(n as int),
{
    if n < 0 {
        proof {
            reveal_strlit("-");
        }
        s.append("-");
        let mag: u64 = if n == i64::MIN {
            9223372036854775808u64
        } else {
            (-n) as u64
        };
        push_decimal(s, mag);
        assert(final(s)@ =~= old(s)@ + signed_decimal_of(n as int));
    } else {
        push_decimal(s, n as u64);
    }
}

} // verus!
