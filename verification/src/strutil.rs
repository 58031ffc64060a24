//! Small verified helpers for moving between `&str` / `String` and the
//! character sequences the rest of the crate reasons about.

use vstd::prelude::*;

verus! {

/// Collects the characters of a string into a vector, preserving order.
pub fn str_to_chars(s: &str) -> (v: Vec<char>)
    ensures
        v@ == s@,
{
    let n = s.unicode_len();
    let mut v: Vec<char> = Vec::new();
    let mut i: usize = 0;
    while i < n
        invariant
            i <= n,
            n == s@.len(),
            v@ == s@.subrange(0, i as int),
        decreases n - i,
    {
        v.push(s.get_char(i));
        i += 1;
        proof {
            assert(v@ =~= s@.subrange(0, i as int));
        }
    }
    proof {
        assert(v@ =~= s@);
    }
    v
}

/// The needle `n` occurs in `h` starting at position `i`.
pub open spec fn contains_at(h: Seq<char>, n: Seq<char>, i: int) -> bool {
    0 <= i && i + n.len() <= h.len() && h.subrange(i, i + n.len()) == n
}

/// The needle `n` occurs somewhere in `h`.
pub open spec fn contains_seq(h: Seq<char>, n: Seq<char>) -> bool {
    exists|i: int| contains_at(h, n, i)
}

/// Substring search: whether `n` occurs in `h`.
pub fn str_contains(h: &str, n: &str) -> (r: bool)
    ensures
        r == contains_seq(h@, n@),
{
    let hc = str_to_chars(h);
    let nc = str_to_chars(n);
    let hl = hc.len();
    let nl = nc.len();
    if nl > hl {
        proof {
            assert(forall|i: int| !contains_at(h@, n@, i));
        }
        return false;
    }
    let mut i: usize = 0;
    while i <= hl - nl
        invariant
            hc@ == h@,
            nc@ == n@,
            hl == h@.len(),
            nl == n@.len(),
            nl <= hl,
            i <= hl - nl + 1,
            forall|k: int| 0 <= k < i ==> !contains_at(h@, n@, k),
        decreases hl + 1 - nl - i,
    {
        let mut j: usize = 0;
        let mut matched = true;
        while j < nl
            invariant
                hc@ == h@,
                nc@ == n@,
                hl == h@.len(),
                nl == n@.len(),
                i + nl <= hl,
                j <= nl,
                matched == (forall|k: int| 0 <= k < j ==> h@[i + k] == n@[k]),
            decreases nl - j,
        {
            if hc[i + j] != nc[j] {
                matched = false;
                proof {
                    assert(!(forall|k: int| 0 <= k < j + 1 ==> h@[i + k] == n@[k]));
                }
                j = nl;
            } else {
                j += 1;
            }
        }
        if matched {
            proof {
                assert(h@.subrange(i as int, i + n@.len()) =~= n@);
                assert(contains_at(h@, n@, i as int));
            }
            return true;
        }
        proof {
            if contains_at(h@, n@, i as int) {
                let k = choose|k: int| 0 <= k < nl && h@[i + k] != n@[k];
                assert(n@[k] == h@.subrange(i as int, i + n@.len())[k]);
                assert(false);
            }
        }
        i += 1;
    }
    proof {
        assert forall|k: int| !contains_at(h@, n@, k) by {
            if contains_at(h@, n@, k) {
                assert(0 <= k <= h@.len() - n@.len());
            }
        }
    }
    false
}

/// The views of a sequence of character vectors.
pub open spec fn views_of(ps: Seq<Vec<char>>) -> Seq<Seq<char>> {
    ps.map_values(|p: Vec<char>| p@)
}

pub proof fn lemma_views_of_push(ps: Seq<Vec<char>>, p: Vec<char>)
    ensures
        views_of(ps.push(p)) == views_of(ps).push(p@),
{
    assert(views_of(ps.push(p)) =~= views_of(ps).push(p@));
}

/// The pieces of `s` from position `from` on, split at each occurrence of
/// `sep`; `cur` is where the piece under construction began. Every piece is
/// kept, empty ones included, as `str::split` keeps them.
pub open spec fn split_char_from(s: Seq<char>, sep: char, from: int, cur: int) -> Seq<Seq<char>>
    decreases s.len() - from,
{
    if from < 0 || from >= s.len() {
        seq![s.subrange(cur, s.len() as int)]
    } else if s[from] == sep {
        seq![s.subrange(cur, from)] + split_char_from(s, sep, from + 1, from + 1)
    } else {
        split_char_from(s, sep, from + 1, cur)
    }
}

/// The pieces of `s` split at each occurrence of `sep`.
pub open spec fn split_char(s: Seq<char>, sep: char) -> Seq<Seq<char>> {
    split_char_from(s, sep, 0, 0)
}

/// Splits `v` at each occurrence of `sep`, keeping empty pieces.
pub fn split_char_exec(v: &Vec<char>, sep: char) -> (out: Vec<Vec<char>>)
    ensures
        views_of(out@) == split_char(v@, sep),
        out@.len() >= 1,
{
    let mut out: Vec<Vec<char>> = Vec::new();
    let mut cur: usize = 0;
    let mut i: usize = 0;
    proof {
        assert(views_of(out@) =~= Seq::<Seq<char>>::empty());
    }
    while i < v.len()
        invariant
            cur <= i <= v@.len(),
            split_char(v@, sep) == views_of(out@) + split_char_from(
                v@,
                sep,
                i as int,
                cur as int,
            ),
        decreases v@.len() - i,
    {
        if v[i] == sep {
            let ghost old_out = out@;
            let piece = copy_range(v, cur, i);
            out.push(piece);
            proof {
                lemma_views_of_push(old_out, piece);
                assert(views_of(old_out) + (seq![piece@] + split_char_from(
                    v@,
                    sep,
                    i + 1,
                    i + 1,
                )) =~= views_of(out@) + split_char_from(v@, sep, i + 1, i + 1));
            }
            cur = i + 1;
        }
        i += 1;
    }
    let ghost old_out = out@;
    let piece = copy_range(v, cur, v.len());
    out.push(piece);
    proof {
        lemma_views_of_push(old_out, piece);
        assert(views_of(old_out) + seq![piece@] =~= views_of(out@));
        assert(views_of(out@) =~= split_char(v@, sep));
    }
    out
}

/// Copies the characters of `v` between positions `a` and `b`.
pub fn copy_range(v: &Vec<char>, a: usize, b: usize) -> (out: Vec<char>)
    requires
        a <= b <= v@.len(),
    ensures
        out@ == v@.subrange(a as int, b as int),
{
    let mut out: Vec<char> = Vec::new();
    let mut i: usize = a;
    while i < b
        invariant
            a <= i <= b <= v@.len(),
            out@ == v@.subrange(a as int, i as int),
        decreases b - i,
    {
        out.push(v[i]);
        i += 1;
        proof {
            assert(out@ =~= v@.subrange(a as int, i as int));
        }
    }
    out
}

/// Relies on `String`'s `FromIterator<char>` implementation: collecting
/// characters yields the string made of exactly those characters in order.
#[verifier::external_body]
pub fn chars_to_string(v: &Vec<char>) -> (s: String)
    ensures
        s@ == v@,
{
    v.iter().collect()
}

} // verus!
