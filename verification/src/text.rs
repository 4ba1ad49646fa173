//! Verified text substitution.
//!
//! [`replace_all`] rewrites every non-overlapping occurrence of a pattern,
//! scanning left to right, exactly as [`replace_all_view`] describes.

use vstd::prelude::*;
use vstd::string::{StrSliceExecFns, StringExecFns};

verus! {

/// Left-to-right, non-overlapping replacement of `pat` by `repl` in `s`.
pub open spec fn replace_all_view(s: Seq<char>, pat: Seq<char>, repl: Seq<char>) -> Seq<char>
    decreases s.len(),
    when pat.len() >= 1
{
    if s.len() < pat.len() {
        s
    } else if s.take(pat.len() as int) == pat {
        repl + replace_all_view(s.skip(pat.len() as int), pat, repl)
    } else {
        seq![s[0]] + replace_all_view(s.drop_first(), pat, repl)
    }
}

/// Whether `pat` occurs in `s` at character position `i`.
fn matches_at(s: &str, pat: &str, i: usize, s_len: usize, pat_len: usize) -> (b: bool)
    requires
        s_len == s@.len(),
        pat_len == pat@.len(),
        i + pat_len <= s_len,
    ensures
        b == (s@.subrange(i as int, i as int + pat@.len() as int) == pat@),
{
    let mut j: usize = 0;
    while j < pat_len
        invariant
            j <= pat_len,
            s_len == s@.len(),
            pat_len == pat@.len(),
            i + pat_len <= s_len,
            forall|k: int| 0 <= k < j ==> s@[i + k] == pat@[k],
        decreases pat_len - j,
    {
        if s.get_char(i + j) != pat.get_char(j) {
            proof {
                let window = s@.subrange(i as int, i as int + pat@.len() as int);
                assert(window[j as int] == s@[i + j]);
            }
            return false;
        }
        j = j + 1;
    }
    proof {
        assert(s@.subrange(i as int, i as int + pat@.len() as int) =~= pat@);
    }
    true
}

/// Replace every non-overlapping occurrence of `pat` in `s` by `repl`,
/// scanning left to right.
pub fn replace_all(s: &str, pat: &str, repl: &str) -> (r: String)
    requires
        pat@.len() >= 1,
    ensures
        r@ == replace_all_view(s@, pat@, repl@),
{
    let s_len = s.unicode_len();
    let pat_len = pat.unicode_len();
    let mut out = String::new();
    let mut i: usize = 0;
    proof {
        assert(s@.skip(0) =~= s@);
        assert(out@ + replace_all_view(s@, pat@, repl@) =~= replace_all_view(s@, pat@, repl@));
    }
    while i < s_len
        invariant
            i <= s_len,
            s_len == s@.len(),
            pat_len == pat@.len(),
            pat_len >= 1,
            out@ + replace_all_view(s@.skip(i as int), pat@, repl@) == replace_all_view(
                s@,
                pat@,
                repl@,
            ),
        decreases s_len - i,
    {
        let ghost rem = s@.skip(i as int);
        if s_len - i >= pat_len && matches_at(s, pat, i, s_len, pat_len) {
            proof {
                assert(rem.take(pat_len as int) =~= s@.subrange(
                    i as int,
                    i as int + pat_len as int,
                ));
                assert(rem.skip(pat_len as int) =~= s@.skip(i as int + pat_len as int));
                assert(replace_all_view(rem, pat@, repl@) == repl@ + replace_all_view(
                    s@.skip(i as int + pat_len as int),
                    pat@,
                    repl@,
                ));
            }
            out.append(repl);
            i = i + pat_len;
        } else {
            proof {
                if rem.len() >= pat_len {
                    assert(rem.take(pat_len as int) =~= s@.subrange(
                        i as int,
                        i as int + pat_len as int,
                    ));
                    assert(rem.take(pat_len as int) != pat@);
                    assert(rem.drop_first() =~= s@.skip(i as int + 1));
                    assert(replace_all_view(rem, pat@, repl@) == seq![rem[0]]
                        + replace_all_view(s@.skip(i as int + 1), pat@, repl@));
                } else {
                    // Too little text is left for a match: both the remainder
                    // and its tail rewrite to themselves.
                    assert(replace_all_view(rem, pat@, repl@) == rem);
                    let tail = s@.skip(i as int + 1);
                    assert(tail.len() < pat@.len());
                    assert(replace_all_view(tail, pat@, repl@) == tail);
                    assert(rem =~= seq![rem[0]] + tail);
                }
                assert(seq![rem[0]] =~= s@.subrange(i as int, i as int + 1));
            }
            let piece = s.substring_char(i, i + 1);
            out.append(piece);
            i = i + 1;
        }
        proof {
            assert(out@ + replace_all_view(s@.skip(i as int), pat@, repl@) =~= replace_all_view(
                s@,
                pat@,
                repl@,
            ));
        }
    }
    proof {
        assert(s@.skip(s_len as int) =~= Seq::<char>::empty());
        assert(replace_all_view(Seq::<char>::empty(), pat@, repl@) == Seq::<char>::empty());
        assert(out@ + Seq::<char>::empty() =~= out@);
    }
    out
}

} // verus!
