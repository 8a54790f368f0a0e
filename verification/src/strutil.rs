//! Verified character-level string helpers: substring search, string
//! equality, and decimal rendering of integers.

use vstd::prelude::*;

verus! {

/// `t` occurs in `s` starting at position `k`.
pub open spec fn occurs_at(s: Seq<char>, t: Seq<char>, k: int) -> bool {
    0 <= k && k + t.len() <= s.len() && forall|j: int| 0 <= j < t.len() ==> s[k + j] == t[j]
}

/// `t` occurs somewhere in `s`.
pub open spec fn contains_seq(s: Seq<char>, t: Seq<char>) -> bool {
    exists|k: int| occurs_at(s, t, k)
}

/// Substring search over characters.
pub fn contains_str(haystack: &str, needle: &str) -> (r: bool)
    ensures
        r == contains_seq(haystack@, needle@),
{
    let hl = haystack.unicode_len();
    let nl = needle.unicode_len();
    if nl > hl {
        assert(forall|k: int| !occurs_at(haystack@, needle@, k));
        return false;
    }
    let mut k: usize = 0;
    while k <= hl - nl
        invariant
            nl <= hl,
            hl == haystack@.len(),
            nl == needle@.len(),
            k <= hl - nl + 1,
            forall|i: int| 0 <= i < k ==> !occurs_at(haystack@, needle@, i),
        decreases hl - nl - k + 1,
    {
        let mut j: usize = 0;
        let mut matched = true;
        while j < nl
            invariant
                nl <= hl,
                hl == haystack@.len(),
                nl == needle@.len(),
                k + nl <= hl,
                j <= nl,
                matched == (forall|m: int| 0 <= m < j ==> haystack@[k + m] == needle@[m]),
            decreases nl - j,
        {
            if haystack.get_char(k + j) != needle.get_char(j) {
                matched = false;
                j = nl;
            } else {
                j = j + 1;
            }
        }
        if matched {
            assert(occurs_at(haystack@, needle@, k as int));
            return true;
        }
        k = k + 1;
    }
    assert(forall|i: int| occurs_at(haystack@, needle@, i) ==> 0 <= i < k);
    return false;
}

/// Character-wise string equality.
pub fn str_eq(a: &str, b: &str) -> (r: bool)
    ensures
        r == (a@ == b@),
{
    let al = a.unicode_len();
    let bl = b.unicode_len();
    if al != bl {
        return false;
    }
    let mut i: usize = 0;
    while i < al
        invariant
            al == a@.len(),
            al == b@.len(),
            i <= al,
            forall|m: int| 0 <= m < i ==> a@[m] == b@[m],
        decreases al - i,
    {
        if a.get_char(i) != b.get_char(i) {
            return false;
        }
        i = i + 1;
    }
    assert(a@ =~= b@);
    return true;
}

/// The decimal digit character for `d < 10`.
pub open spec fn digit_char(d: nat) -> char {
    if d == 0 { '0' }
    else if d == 1 { '1' }
    else if d == 2 { '2' }
    else if d == 3 { '3' }
    else if d == 4 { '4' }
    else if d == 5 { '5' }
    else if d == 6 { '6' }
    else if d == 7 { '7' }
    else if d == 8 { '8' }
    else if d == 9 { '9' }
    else { ' ' }
}

/// The decimal rendering of `n`, most significant digit first.
pub open spec fn dec_of(n: nat) -> Seq<char>
    decreases n,
{
    if n < 10 {
        seq![digit_char(n)]
    } else {
        dec_of(n / 10).push(digit_char(n % 10))
    }
}

/// Decimal renderings consist of digit characters only.
pub proof fn lemma_dec_of_digits(n: nat)
    ensures
        forall|i: int| 0 <= i < dec_of(n).len() ==> ('0' <= #[trigger] dec_of(n)[i] <= '9'),
    decreases n,
{
    if n < 10 {
        assert(dec_of(n) == seq![digit_char(n)]);
        assert(dec_of(n)[0] == digit_char(n));
        assert('0' <= digit_char(n) <= '9');
    } else {
        lemma_dec_of_digits(n / 10);
        let prefix = dec_of(n / 10);
        let d = digit_char(n % 10);
        assert('0' <= d <= '9');
        assert(dec_of(n) == prefix.push(d));
        assert forall|i: int| 0 <= i < dec_of(n).len() implies ('0' <= #[trigger] dec_of(n)[i]
            <= '9') by {
            if i < prefix.len() {
                assert(dec_of(n)[i] == prefix[i]);
            } else {
                assert(dec_of(n)[i] == d);
            }
        }
    }
}

/// The one-character string for the decimal digit `d`.
pub(crate) fn digit_str(d: u64) -> (r: &'static str)
    requires
        d < 10,
    ensures
        r@ == seq![digit_char(d as nat)],
{
    proof {
        reveal_strlit("0");
        reveal_strlit("1");
        reveal_strlit("2");
        reveal_strlit("3");
        reveal_strlit("4");
        reveal_strlit("5");
        reveal_strlit("6");
        reveal_strlit("7");
        reveal_strlit("8");
        reveal_strlit("9");
    }
    let r = match d {
        0 => "0",
        1 => "1",
        2 => "2",
        3 => "3",
        4 => "4",
        5 => "5",
        6 => "6",
        7 => "7",
        8 => "8",
        _ => "9",
    };
    assert(r@ =~= seq![digit_char(d as nat)]);
    r
}

/// Renders `n` in decimal.
pub fn u64_to_dec(n: u64) -> (r: String)
    ensures
        r@ == dec_of(n as nat),
    decreases n,
{
    if n < 10 {
        let s = String::from_str(digit_str(n));
        assert(s@ =~= dec_of(n as nat));
        s
    } else {
        let mut s = u64_to_dec(n / 10);
        s.append(digit_str(n % 10));
        assert(s@ =~= dec_of(n as nat));
        s
    }
}

} // verus!
