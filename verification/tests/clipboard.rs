//! The calls that put a text on the clipboard.

use chiu::clipboard::{encoded_bytes, ClipboardCall, ClipboardStep, ClipboardWrite};

/// The calls that are made where one kind of call fails, and how it ends.
fn calls(failing: Option<ClipboardCall>) -> (Vec<ClipboardCall>, bool) {
    let mut write = ClipboardWrite::new(8);
    let mut made = Vec::new();
    loop {
        match write.next() {
            ClipboardStep::Done(written) => return (made, written),
            ClipboardStep::Call(call) => {
                made.push(call);
                write.returned(Some(call) != failing);
            }
        }
    }
}

#[test]
fn a_text_is_handed_over_and_the_clipboard_closed() {
    assert_eq!(
        calls(None),
        (
            vec![
                ClipboardCall::Open,
                ClipboardCall::Empty,
                ClipboardCall::Allocate { bytes: 8 },
                ClipboardCall::Lock,
                ClipboardCall::Fill,
                ClipboardCall::Hand,
                ClipboardCall::Close,
            ],
            true
        )
    );
}

#[test]
fn a_clipboard_that_does_not_open_is_not_closed() {
    assert_eq!(
        calls(Some(ClipboardCall::Open)),
        (vec![ClipboardCall::Open], false)
    );
}

#[test]
fn memory_that_is_not_taken_is_given_back() {
    for failing in [ClipboardCall::Lock, ClipboardCall::Hand] {
        let (made, written) = calls(Some(failing));
        assert!(!written);
        assert_eq!(
            made[made.len() - 3..],
            [failing, ClipboardCall::Free, ClipboardCall::Close]
        );
    }
}

#[test]
fn without_memory_nothing_is_given_back() {
    for failing in [ClipboardCall::Empty, ClipboardCall::Allocate { bytes: 8 }] {
        let (made, written) = calls(Some(failing));
        assert!(!written);
        assert_eq!(made[made.len() - 2..], [failing, ClipboardCall::Close]);
        assert!(!made.contains(&ClipboardCall::Free));
    }
}

#[test]
fn units_are_counted_in_bytes() {
    assert_eq!(encoded_bytes(0), Some(0));
    assert_eq!(encoded_bytes(5), Some(10));
    assert_eq!(encoded_bytes(usize::MAX / 2), Some(usize::MAX - 1));
    assert_eq!(encoded_bytes(usize::MAX / 2 + 1), None);
}
