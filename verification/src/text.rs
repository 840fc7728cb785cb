//! Byte-sequence searching and rewriting used by the classifier and the
//! pipeline: occurrence predicates, first/last occurrence search, and the
//! scrubbing of a host-internal byte string out of captured text.

use vstd::prelude::*;
use vstd::string::StringSliceAdditionalSpecFns;

verus! {

/// `pat` occurs in `s` starting at index `i`.
pub open spec fn occurs_at(s: Seq<u8>, pat: Seq<u8>, i: int) -> bool {
    &&& 0 <= i
    &&& i + pat.len() <= s.len()
    &&& s.subrange(i, i + pat.len() as int) == pat
}

/// `pat` occurs somewhere in `s`.
pub open spec fn contains_seq(s: Seq<u8>, pat: Seq<u8>) -> bool {
    exists|i: int| occurs_at(s, pat, i)
}

/// `i` is the leftmost occurrence of `pat` in `s`.
pub open spec fn is_first_occurrence(s: Seq<u8>, pat: Seq<u8>, i: int) -> bool {
    &&& occurs_at(s, pat, i)
    &&& forall|j: int| 0 <= j < i ==> !occurs_at(s, pat, j)
}

/// `i` is the rightmost occurrence of `pat` in `s`.
pub open spec fn is_last_occurrence(s: Seq<u8>, pat: Seq<u8>, i: int) -> bool {
    &&& occurs_at(s, pat, i)
    &&& forall|j: int| j > i ==> !occurs_at(s, pat, j)
}

/// The bytes of an ASCII string literal, one byte per character.
pub open spec fn ascii_view(s: Seq<char>) -> Seq<u8> {
    Seq::new(s.len(), |i: int| s[i] as u8)
}

/// Bytes of an ASCII string; used to carry message constants into byte form.
pub fn lit_bytes(s: &str) -> (r: Vec<u8>)
    requires
        vstd::string::is_ascii(s),
    ensures
        r@ == ascii_view(s@),
{
    proof {
        vstd::string::is_ascii_spec_bytes(s);
        assert(s.spec_bytes() =~= ascii_view(s@));
    }
    vstd::slice::slice_to_vec(s.as_bytes())
}

/// Does `pat` occur in `s` at index `i`?
pub fn match_at(s: &Vec<u8>, pat: &Vec<u8>, i: usize) -> (r: bool)
    requires
        i + pat@.len() <= s@.len(),
    ensures
        r == occurs_at(s@, pat@, i as int),
{
    let n: usize = s.len();
    let mut k: usize = 0;
    while k < pat.len()
        invariant
            i + pat@.len() <= s@.len(),
            n == s@.len(),
            0 <= k <= pat@.len(),
            forall|m: int| 0 <= m < k ==> s@[i + m] == pat@[m],
        decreases pat@.len() - k,
    {
        if s[i + k] != pat[k] {
            proof {
                assert(s@.subrange(i as int, i + pat@.len() as int)[k as int] == s@[i + k]);
            }
            return false;
        }
        k += 1;
    }
    proof {
        assert(s@.subrange(i as int, i + pat@.len() as int) =~= pat@);
    }
    true
}

/// The replacement text written over each scrubbed occurrence.
pub open spec fn scrub_marker() -> Seq<u8> {
    ascii_view("<scrubbed>"@)
}

/// `s` with every occurrence of `pat` (scanned left to right) replaced by the
/// scrub marker; with an empty `pat`, `s` unchanged.
pub open spec fn scrub_spec(s: Seq<u8>, pat: Seq<u8>) -> Seq<u8>
    decreases s.len(),
{
    if s.len() == 0 {
        s
    } else if pat.len() > 0 && occurs_at(s, pat, 0) {
        scrub_marker() + scrub_spec(s.skip(pat.len() as int), pat)
    } else {
        seq![s[0]] + scrub_spec(s.skip(1), pat)
    }
}

proof fn lemma_scrub_unfold(s: Seq<u8>, pat: Seq<u8>, i: int)
    requires
        0 <= i < s.len(),
    ensures
        pat.len() > 0 && occurs_at(s, pat, i) ==> scrub_spec(s.skip(i), pat) == scrub_marker()
            + scrub_spec(s.skip(i + pat.len()), pat),
        !(pat.len() > 0 && occurs_at(s, pat, i)) ==> scrub_spec(s.skip(i), pat) == seq![s[i]]
            + scrub_spec(s.skip(i + 1), pat),
{
    let t = s.skip(i);
    assert(t.len() == s.len() - i);
    if pat.len() > 0 && i + pat.len() <= s.len() {
        assert(t.subrange(0, pat.len() as int) =~= s.subrange(i, i + pat.len() as int));
    }
    if pat.len() > 0 && occurs_at(s, pat, i) {
        assert(occurs_at(t, pat, 0));
        assert(t.skip(pat.len() as int) =~= s.skip(i + pat.len()));
    } else {
        assert(!(pat.len() > 0 && occurs_at(t, pat, 0)));
        assert(t[0] == s[i]);
        assert(t.skip(1) =~= s.skip(i + 1));
    }
}

/// `s` with every occurrence of `pat` replaced by the scrub marker; used to
/// keep host-internal byte strings (such as the sandbox working directory
/// path) out of user-visible text.
pub fn scrub(s: &Vec<u8>, pat: &Vec<u8>) -> (r: Vec<u8>)
    ensures
        r@ == scrub_spec(s@, pat@),
{
    let mut out: Vec<u8> = Vec::new();
    proof {
        reveal_strlit("<scrubbed>");
    }
    let marker: Vec<u8> = lit_bytes("<scrubbed>");
    proof {
        assert(marker@ =~= scrub_marker());
        assert(s@.skip(0) =~= s@);
        assert(out@ + scrub_spec(s@, pat@) =~= scrub_spec(s@, pat@));
    }
    let mut i: usize = 0;
    while i < s.len()
        invariant
            0 <= i <= s@.len(),
            marker@ == scrub_marker(),
            scrub_spec(s@, pat@) == out@ + scrub_spec(s@.skip(i as int), pat@),
        decreases s@.len() - i,
    {
        proof {
            lemma_scrub_unfold(s@, pat@, i as int);
        }
        if pat.len() > 0 && pat.len() <= s.len() - i && match_at(s, pat, i) {
            let ghost pre = out@;
            out.extend_from_slice(marker.as_slice());
            proof {
                assert((pre + scrub_marker()) + scrub_spec(
                    s@.skip(i + pat@.len()),
                    pat@,
                ) =~= pre + (scrub_marker() + scrub_spec(s@.skip(i + pat@.len()), pat@)));
            }
            i += pat.len();
        } else {
            let ghost pre = out@;
            out.push(s[i]);
            proof {
                assert(pre + seq![s@[i as int]] =~= out@);
                assert((pre + seq![s@[i as int]]) + scrub_spec(s@.skip(i + 1), pat@) =~= pre + (
                seq![s@[i as int]] + scrub_spec(s@.skip(i + 1), pat@)));
            }
            i += 1;
        }
    }
    proof {
        assert(s@.skip(i as int) =~= Seq::<u8>::empty());
        assert(out@ + scrub_spec(s@.skip(i as int), pat@) =~= out@);
    }
    out
}

/// `s` without its trailing line-break bytes (line feed and carriage return).
pub open spec fn trim_newlines_spec(s: Seq<u8>) -> Seq<u8>
    decreases s.len(),
{
    if s.len() > 0 && (s.last() == 10u8 || s.last() == 13u8) {
        trim_newlines_spec(s.drop_last())
    } else {
        s
    }
}

/// Removes trailing line-break bytes from `s`.
pub fn trim_newlines(s: Vec<u8>) -> (r: Vec<u8>)
    ensures
        r@ == trim_newlines_spec(s@),
{
    let mut v = s;
    let ghost orig = v@;
    while v.len() > 0 && (v[v.len() - 1] == 10u8 || v[v.len() - 1] == 13u8)
        invariant
            trim_newlines_spec(v@) == trim_newlines_spec(orig),
        decreases v@.len(),
    {
        let ghost pre = v@;
        v.pop();
        proof {
            assert(v@ =~= pre.drop_last());
        }
    }
    v
}

/// Index of the leftmost occurrence of `pat` in `s`, if any.
pub fn find_first(s: &Vec<u8>, pat: &Vec<u8>) -> (r: Option<usize>)
    ensures
        match r {
            Some(i) => is_first_occurrence(s@, pat@, i as int),
            None => !contains_seq(s@, pat@),
        },
{
    if pat.len() == 0 {
        proof {
            assert(s@.subrange(0, 0) =~= pat@);
        }
        return Some(0);
    }
    if pat.len() > s.len() {
        return None;
    }
    let last: usize = s.len() - pat.len();
    let mut i: usize = 0;
    loop
        invariant
            pat@.len() > 0,
            pat@.len() <= s@.len(),
            last == s@.len() - pat@.len(),
            0 <= i <= last,
            forall|j: int| 0 <= j < i ==> !occurs_at(s@, pat@, j),
        ensures
            forall|j: int| 0 <= j <= last ==> !occurs_at(s@, pat@, j),
        decreases last - i,
    {
        if match_at(s, pat, i) {
            return Some(i);
        }
        if i == last {
            break;
        }
        i += 1;
    }
    proof {
        assert(forall|j: int| occurs_at(s@, pat@, j) ==> 0 <= j <= last);
    }
    None
}

/// Index of the rightmost occurrence of `pat` in `s`, if any.
pub fn find_last(s: &Vec<u8>, pat: &Vec<u8>) -> (r: Option<usize>)
    ensures
        match r {
            Some(i) => is_last_occurrence(s@, pat@, i as int),
            None => !contains_seq(s@, pat@),
        },
{
    if pat.len() == 0 {
        proof {
            assert(s@.subrange(s@.len() as int, s@.len() as int) =~= pat@);
        }
        return Some(s.len());
    }
    if pat.len() > s.len() {
        return None;
    }
    let last: usize = s.len() - pat.len();
    let mut i: usize = last;
    loop
        invariant
            pat@.len() > 0,
            pat@.len() <= s@.len(),
            last == s@.len() - pat@.len(),
            0 <= i <= last,
            forall|j: int| i < j <= last ==> !occurs_at(s@, pat@, j),
        ensures
            forall|j: int| 0 <= j <= last ==> !occurs_at(s@, pat@, j),
        decreases i,
    {
        if match_at(s, pat, i) {
            proof {
                assert(forall|j: int| occurs_at(s@, pat@, j) ==> j <= last);
            }
            return Some(i);
        }
        if i == 0 {
            break;
        }
        i -= 1;
    }
    proof {
        assert(forall|j: int| occurs_at(s@, pat@, j) ==> 0 <= j <= last);
    }
    None
}

} // verus!
