//! Verified text helpers: equality, substring search and decimal formatting.

use vstd::prelude::*;
use vstd::string::StrSliceExecFns;
use vstd::string::StringExecFns;

verus! {

/// Whether `p` occurs in `s` starting exactly at index `i`.
pub open spec fn match_at(s: Seq<char>, p: Seq<char>, i: int) -> bool {
    0 <= i && i + p.len() <= s.len() && s.subrange(i, i + p.len() as int) == p
}

/// Whether `p` occurs anywhere in `s`.
pub open spec fn contains_seq(s: Seq<char>, p: Seq<char>) -> bool {
    exists|i: int| match_at(s, p, i)
}

/// Character-for-character equality of two string slices.
pub fn str_eq(a: &str, b: &str) -> (r: bool)
    ensures
        r == (a@ == b@),
{
    let n = a.unicode_len();
    let m = b.unicode_len();
    if n != m {
        return false;
    }
    let mut i: usize = 0;
    while i < n
        invariant
            a@.len() == n as int,
            b@.len() == n as int,
            i <= n,
            forall|j: int| 0 <= j < i ==> a@[j] == b@[j],
        decreases n - i,
    {
        if a.get_char(i) != b.get_char(i) {
            return false;
        }
        i += 1;
    }
    proof {
        assert(a@ =~= b@);
    }
    true
}

/// Substring search: whether `pat` occurs anywhere in `s`.
pub fn contains_substr(s: &str, pat: &str) -> (r: bool)
    ensures
        r == contains_seq(s@, pat@),
{
    let n = s.unicode_len();
    let m = pat.unicode_len();
    if m > n {
        proof {
            assert(forall|i: int| !match_at(s@, pat@, i));
        }
        return false;
    }
    if m == 0 {
        proof {
            assert(s@.subrange(0, 0) =~= pat@);
            assert(match_at(s@, pat@, 0));
        }
        return true;
    }
    let mut i: usize = 0;
    while i <= n - m
        invariant
            s@.len() == n as int,
            pat@.len() == m as int,
            0 < m <= n,
            i <= n - m + 1,
            forall|ii: int| 0 <= ii < i ==> !match_at(s@, pat@, ii),
        decreases n - i,
    {
        let mut j: usize = 0;
        let mut mismatch = false;
        while j < m && !mismatch
            invariant
                s@.len() == n as int,
                pat@.len() == m as int,
                i + m <= n,
                j <= m,
                !mismatch ==> forall|jj: int| 0 <= jj < j ==> s@[i + jj] == pat@[jj],
                mismatch ==> !match_at(s@, pat@, i as int),
            decreases m - j + (if mismatch { 0int } else { 1int }),
        {
            if s.get_char(i + j) != pat.get_char(j) {
                proof {
                    assert(!match_at(s@, pat@, i as int)) by {
                        if match_at(s@, pat@, i as int) {
                            assert(s@.subrange(i as int, i + m as int)[j as int] == pat@[j as int]);
                        }
                    }
                }
                mismatch = true;
            } else {
                j += 1;
            }
        }
        if !mismatch {
            proof {
                assert(s@.subrange(i as int, i + m as int) =~= pat@);
                assert(match_at(s@, pat@, i as int));
            }
            return true;
        }
        i += 1;
    }
    proof {
        assert(forall|ii: int| 0 <= ii < i ==> !match_at(s@, pat@, ii));
        assert(forall|ii: int| ii >= i ==> !match_at(s@, pat@, ii));
    }
    false
}

/// The first index at which `p` occurs in `s`: the match whose every
/// earlier position is no match. Meaningful only when `p` occurs at all.
pub open spec fn first_match(s: Seq<char>, p: Seq<char>) -> int {
    choose|i: int|
        match_at(s, p, i) && (forall|j: int| 0 <= j < i ==> !match_at(s, p, j))
}

/// Strips everything up to and including the first `://` from a URL; a
/// URL without a scheme separator is returned unchanged.
pub fn clean_url(url: &str) -> (r: String)
    ensures
        !contains_seq(url@, "://"@) ==> r@ == url@,
        contains_seq(url@, "://"@) ==> r@ == url@.subrange(
            first_match(url@, "://"@) + 3,
            url@.len() as int,
        ),
{
    let pat = "://";
    proof {
        reveal_strlit("://");
        assert(pat@.len() == 3);
    }
    let n = url.unicode_len();
    if n < 3 {
        proof {
            assert(forall|i: int| !match_at(url@, pat@, i));
        }
        return url.to_owned();
    }
    let mut i: usize = 0;
    while i <= n - 3
        invariant
            url@.len() == n as int,
            pat@ == "://"@,
            pat@.len() == 3,
            3 <= n,
            i <= n - 3 + 1,
            forall|ii: int| 0 <= ii < i ==> !match_at(url@, pat@, ii),
        decreases n - i,
    {
        let mut j: usize = 0;
        let mut mismatch = false;
        while j < 3 && !mismatch
            invariant
                url@.len() == n as int,
                pat@ == "://"@,
                pat@.len() == 3,
                i + 3 <= n,
                j <= 3,
                !mismatch ==> forall|jj: int| 0 <= jj < j ==> url@[i + jj] == pat@[jj],
                mismatch ==> !match_at(url@, pat@, i as int),
            decreases 3 - j + (if mismatch { 0int } else { 1int }),
        {
            if url.get_char(i + j) != pat.get_char(j) {
                proof {
                    assert(!match_at(url@, pat@, i as int)) by {
                        if match_at(url@, pat@, i as int) {
                            assert(url@.subrange(i as int, i + 3int)[j as int] == pat@[
                                j as int
                            ]);
                        }
                    }
                }
                mismatch = true;
            } else {
                j += 1;
            }
        }
        if !mismatch {
            proof {
                assert(url@.subrange(i as int, i + 3int) =~= pat@);
                assert(match_at(url@, pat@, i as int));
                let f = first_match(url@, pat@);
                assert(match_at(url@, pat@, f) && (forall|jj: int|
                    0 <= jj < f ==> !match_at(url@, pat@, jj)));
                assert(f == i as int) by {
                    if f < i as int {
                        assert(!match_at(url@, pat@, f));
                    }
                    if f > i as int {
                        assert(!match_at(url@, pat@, i as int));
                    }
                }
            }
            let rest = url.substring_char(i + 3, n);
            return rest.to_owned();
        }
        i += 1;
    }
    proof {
        assert(forall|ii: int| ii >= i ==> !match_at(url@, pat@, ii));
        assert(!contains_seq(url@, pat@));
    }
    url.to_owned()
}

/// The decimal digit character for a value below ten.
pub open spec fn spec_digit(d: nat) -> char {
    if d == 0 {
        '0'
    } else if d == 1 {
        '1'
    } else if d == 2 {
        '2'
    } else if d == 3 {
        '3'
    } else if d == 4 {
        '4'
    } else if d == 5 {
        '5'
    } else if d == 6 {
        '6'
    } else if d == 7 {
        '7'
    } else if d == 8 {
        '8'
    } else {
        '9'
    }
}

/// The usual decimal rendering of `n`, most significant digit first,
/// with no leading zero except for `n == 0` itself.
pub open spec fn spec_decimal(n: nat) -> Seq<char>
    decreases n,
{
    if n < 10 {
        seq![spec_digit(n)]
    } else {
        spec_decimal(n / 10).push(spec_digit(n % 10))
    }
}

fn digit_str(d: u16) -> (s: &'static str)
    requires
        d < 10,
    ensures
        s@ == seq![spec_digit(d as nat)],
{
    let s: &'static str = match d {
        0 => "0",
        1 => "1",
        2 => "2",
        3 => "3",
        4 => "4",
        5 => "5",
        6 => "6",
        7 => "7",
        8 => "8",
        _ => "9",
    };
    proof {
        reveal_strlit("0");
        reveal_strlit("1");
        reveal_strlit("2");
        reveal_strlit("3");
        reveal_strlit("4");
        reveal_strlit("5");
        reveal_strlit("6");
        reveal_strlit("7");
        reveal_strlit("8");
        reveal_strlit("9");
        assert(s@ =~= seq![spec_digit(d as nat)]);
    }
    s
}

/// Renders `n` in decimal, exactly as `spec_decimal` describes.
pub fn decimal_string(n: u16) -> (r: String)
    ensures
        r@ == spec_decimal(n as nat),
    decreases n,
{
    if n < 10 {
        digit_str(n).to_owned()
    } else {
        proof {
            assert(n / 10 < n) by (nonlinear_arith)
                requires
                    n >= 10,
            ;
        }
        let prefix = decimal_string(n / 10);
        let r = prefix.concat(digit_str(n % 10));
        proof {
            assert(r@ =~= spec_decimal(n as nat));
        }
        r
    }
}

} // verus!
