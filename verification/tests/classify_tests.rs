use code_runner::classify::{classify, Trigger};

fn bytes(s: &str) -> Vec<u8> {
    s.as_bytes().to_vec()
}

#[test]
fn bot_author_is_ignored() {
    let t = classify(true, true, &bytes("no memes?"));
    assert!(matches!(t, Trigger::Ignore));
}

#[test]
fn unmentioned_message_is_ignored() {
    let t = classify(false, false, &bytes("no memes?"));
    assert!(matches!(t, Trigger::Ignore));
}

#[test]
fn meme_pattern_captures_caption() {
    let t = classify(false, true, &bytes("no memes?"));
    match t {
        Trigger::MemeRequest(cap) => assert_eq!(cap, bytes("memes")),
        _ => panic!("expected a meme request"),
    }
}

#[test]
fn meme_pattern_is_case_insensitive() {
    let t = classify(false, true, &bytes("NO way?"));
    match t {
        Trigger::MemeRequest(cap) => assert_eq!(cap, bytes("way")),
        _ => panic!("expected a meme request"),
    }
}

#[test]
fn plain_message_is_ignored() {
    let t = classify(false, true, &bytes("hello there"));
    assert!(matches!(t, Trigger::Ignore));
}

#[test]
fn short_fence_extracts_body() {
    let t = classify(false, true, &bytes("run this ```hs\nmain = putStrLn \"hi\"\n``` please"));
    match t {
        Trigger::CodeExecutionRequest(src) => {
            assert_eq!(src, bytes("\nmain = putStrLn \"hi\"\n"));
        },
        _ => panic!("expected a code execution request"),
    }
}

#[test]
fn long_fence_extracts_body() {
    let t = classify(false, true, &bytes("```haskell\nmain = pure ()\n```"));
    match t {
        Trigger::CodeExecutionRequest(src) => {
            assert_eq!(src, bytes("\nmain = pure ()\n"));
        },
        _ => panic!("expected a code execution request"),
    }
}

#[test]
fn fence_without_closing_marker_is_ignored() {
    let t = classify(false, true, &bytes("```hs main = x"));
    assert!(matches!(t, Trigger::Ignore));
}

#[test]
fn fence_takes_precedence_over_meme_pattern() {
    let t = classify(false, true, &bytes("no fun? ```hs\nmain = x\n```"));
    assert!(matches!(t, Trigger::CodeExecutionRequest(_)));
}

#[test]
fn empty_fenced_body_is_allowed() {
    let t = classify(false, true, &bytes("```hs```"));
    match t {
        Trigger::CodeExecutionRequest(src) => assert_eq!(src, bytes("")),
        _ => panic!("expected a code execution request"),
    }
}
