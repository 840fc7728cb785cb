//! Trigger classification for one inbound chat message: decide whether it
//! asks for a meme caption, for the compile-and-run of a fenced source
//! snippet, or for nothing. The fenced body is extracted here; matching the
//! meme pattern is delegated to the regex crate behind a trusted wrapper.

use vstd::prelude::*;
use crate::text::{
    ascii_view,
    contains_seq,
    find_first,
    find_last,
    is_first_occurrence,
    is_last_occurrence,
    lit_bytes,
    occurs_at,
};

verus! {

/// What one inbound message asks of the service.
pub enum Trigger {
    /// A meme caption captured from the message text.
    MemeRequest(Vec<u8>),
    /// Source text extracted from a fenced code block, to compile and run.
    CodeExecutionRequest(Vec<u8>),
    /// Nothing; the message is left alone.
    Ignore,
}

/// The fence opening a Haskell snippet in short form.
pub open spec fn fence_hs() -> Seq<u8> {
    ascii_view("```hs"@)
}

/// The fence opening a Haskell snippet in long form.
pub open spec fn fence_haskell() -> Seq<u8> {
    ascii_view("```haskell"@)
}

/// The bare fence that closes a snippet.
pub open spec fn fence_close() -> Seq<u8> {
    ascii_view("```"@)
}

/// The pattern that asks for a meme caption, handed to the regex crate: a
/// case-insensitive "no", whitespace, then a caption up to a question mark.
pub open spec fn meme_pattern() -> Seq<char> {
    "(?i)no\\s+(.*)?\\?"@
}

/// What the regex crate answers for a pattern and a haystack: the bytes of
/// the first capture group of the leftmost match, if the pattern is a valid
/// expression that matches and the group participates. A function of the two
/// arguments alone.
pub uninterp spec fn regex_capture_of(pattern: Seq<char>, text: Seq<u8>) -> Option<Seq<u8>>;

/// Relies on `regex::bytes::Regex::new` and `Regex::captures`: the leftmost
/// match and its capture groups depend only on the pattern and the haystack.
/// An invalid pattern is answered with `None`, as is a haystack the pattern
/// does not match.
#[verifier::external_body]
fn regex_first_capture(pattern: &str, text: &Vec<u8>) -> (r: Option<Vec<u8>>)
    ensures
        match r {
            Some(c) => regex_capture_of(pattern@, text@) == Some(c@),
            None => regex_capture_of(pattern@, text@) is None,
        },
{
    let re = match regex::bytes::Regex::new(pattern) {
        Ok(re) => re,
        Err(_) => {
            return None;
        },
    };
    match re.captures(text.as_slice()) {
        Some(caps) => match caps.get(1) {
            Some(m) => Some(m.as_bytes().to_vec()),
            None => None,
        },
        None => None,
    }
}

/// `t` is the right answer for a message that holds the opening fence
/// `marker`: the body between the first opening fence and the last closing
/// fence becomes a `CodeExecutionRequest`, and a message whose only fence
/// marks are the opening one (so that no body can be cut out) is ignored.
pub open spec fn code_trigger_matches(t: Trigger, text: Seq<u8>, marker: Seq<u8>) -> bool {
    exists|i: int, j: int|
        {
            &&& #[trigger] is_first_occurrence(text, marker, i)
            &&& #[trigger] is_last_occurrence(text, fence_close(), j)
            &&& if i + marker.len() <= j {
                t matches Trigger::CodeExecutionRequest(src) && src@ == text.subrange(
                    i + marker.len() as int,
                    j,
                )
            } else {
                t == Trigger::Ignore
            }
        }
}

/// `t` is the right answer for a message without any opening fence: a meme
/// request exactly when the meme pattern captures a caption.
pub open spec fn meme_trigger_matches(t: Trigger, text: Seq<u8>) -> bool {
    match regex_capture_of(meme_pattern(), text) {
        Some(c) => t matches Trigger::MemeRequest(cap) && cap@ == c,
        None => t == Trigger::Ignore,
    }
}

/// Classifies one inbound message. Only a message from a human that
/// mentions the bot is considered at all; one holding an opening fence is a
/// code-execution request over the fenced body; otherwise the meme pattern
/// decides. Total: malformed fencing is ignored, never an error.
pub fn classify(author_is_bot: bool, mentions_bot: bool, raw_text: &Vec<u8>) -> (t: Trigger)
    ensures
        author_is_bot || !mentions_bot ==> t == Trigger::Ignore,
        !author_is_bot && mentions_bot ==> {
            if contains_seq(raw_text@, fence_hs()) {
                code_trigger_matches(t, raw_text@, fence_hs())
            } else if contains_seq(raw_text@, fence_haskell()) {
                code_trigger_matches(t, raw_text@, fence_haskell())
            } else {
                meme_trigger_matches(t, raw_text@)
            }
        },
{
    if author_is_bot || !mentions_bot {
        return Trigger::Ignore;
    }
    proof {
        reveal_strlit("```hs");
        reveal_strlit("```haskell");
        reveal_strlit("```");
    }
    let hs = lit_bytes("```hs");
    let haskell = lit_bytes("```haskell");
    proof {
        assert(hs@ =~= fence_hs());
        assert(haskell@ =~= fence_haskell());
    }
    proof {
        reveal_strlit("```");
        assert(fence_hs().subrange(0, 3) =~= fence_close());
        assert(fence_haskell().subrange(0, 3) =~= fence_close());
    }
    if let Some(i) = find_first(raw_text, &hs) {
        extract_fenced(raw_text, &hs, i)
    } else if let Some(i) = find_first(raw_text, &haskell) {
        extract_fenced(raw_text, &haskell, i)
    } else {
        match regex_first_capture("(?i)no\\s+(.*)?\\?", raw_text) {
            Some(cap) => Trigger::MemeRequest(cap),
            None => Trigger::Ignore,
        }
    }
}

/// Cuts the fenced body out of `text`, between the end of the opening fence
/// `marker` found first at `i` and the last closing fence.
fn extract_fenced(text: &Vec<u8>, marker: &Vec<u8>, i: usize) -> (t: Trigger)
    requires
        is_first_occurrence(text@, marker@, i as int),
        marker@.len() >= 3,
        marker@.subrange(0, 3) == fence_close(),
    ensures
        code_trigger_matches(t, text@, marker@),
{
    proof {
        reveal_strlit("```");
        assert(text@.subrange(i as int, i + 3) =~= text@.subrange(i as int, i + marker@.len())
            .subrange(0, 3));
        assert(occurs_at(text@, fence_close(), i as int));
    }
    let close = lit_bytes("```");
    proof {
        assert(close@ =~= fence_close());
    }
    let j = match find_last(text, &close) {
        Some(j) => j,
        None => {
            proof {
                assert(false);
            }
            vstd::pervasive::unreached()
        },
    };
    let n: usize = text.len();
    proof {
        assert(i + marker@.len() <= n);
    }
    let start = i + marker.len();
    if start <= j {
        let body = copy_range(text, start, j);
        let t = Trigger::CodeExecutionRequest(body);
        proof {
            assert(is_first_occurrence(text@, marker@, i as int) && is_last_occurrence(
                text@,
                fence_close(),
                j as int,
            ));
        }
        t
    } else {
        proof {
            assert(is_first_occurrence(text@, marker@, i as int) && is_last_occurrence(
                text@,
                fence_close(),
                j as int,
            ));
        }
        Trigger::Ignore
    }
}

/// Copies `text[from..to]` into a fresh vector.
fn copy_range(text: &Vec<u8>, from: usize, to: usize) -> (r: Vec<u8>)
    requires
        0 <= from <= to <= text@.len(),
    ensures
        r@ == text@.subrange(from as int, to as int),
{
    let mut out: Vec<u8> = Vec::new();
    let mut k: usize = from;
    while k < to
        invariant
            from <= k <= to <= text@.len(),
            out@ == text@.subrange(from as int, k as int),
        decreases to - k,
    {
        out.push(text[k]);
        proof {
            assert(text@.subrange(from as int, k as int) + seq![text@[k as int]] =~= text@.subrange(
                from as int,
                k + 1,
            ));
        }
        k += 1;
    }
    proof {
        assert(out@ =~= text@.subrange(from as int, to as int));
    }
    out
}

} // verus!
