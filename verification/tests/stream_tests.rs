use nostrachat::event::RelayEvent;
use nostrachat::stream::{decode_frame_text, EventStream, Frame, Phase, RawFrame, StreamAction};

fn event(created_at: u64, author: &[u8], content: &[u8]) -> RelayEvent {
    RelayEvent {
        id: b"00".to_vec(),
        author_public_key: author.to_vec(),
        created_at,
        kind: 42,
        content: content.to_vec(),
    }
}

#[test]
fn history_is_flushed_sorted_on_eose() {
    // History arrives with timestamps [500, 100, 300]: the post-marker
    // display order is 100, 300, 500.
    let mut stream = EventStream::new();
    for t in [500u64, 100, 300] {
        let a = stream.process_frame(Frame::Event(event(t, b"aa", b"x")), None);
        assert!(matches!(a, StreamAction::DoNothing));
    }
    match stream.process_frame(Frame::EndOfStoredEvents, None) {
        StreamAction::FlushHistory(h) => {
            let times: Vec<u64> = h.iter().map(|e| e.created_at).collect();
            assert_eq!(times, vec![100, 300, 500]);
        },
        _ => panic!("the marker must flush the buffer"),
    }
    assert!(matches!(stream.phase, Phase::Live));
}

#[test]
fn equal_timestamps_keep_arrival_order() {
    let mut stream = EventStream::new();
    stream.process_frame(Frame::Event(event(5, b"aa", b"first")), None);
    stream.process_frame(Frame::Event(event(5, b"bb", b"second")), None);
    stream.process_frame(Frame::Event(event(1, b"cc", b"third")), None);
    match stream.process_frame(Frame::EndOfStoredEvents, None) {
        StreamAction::FlushHistory(h) => {
            let contents: Vec<&[u8]> = h.iter().map(|e| e.content.as_slice()).collect();
            assert_eq!(contents, vec![b"third" as &[u8], b"first", b"second"]);
        },
        _ => panic!("the marker must flush the buffer"),
    }
}

#[test]
fn eose_transitions_exactly_once() {
    let mut stream = EventStream::new();
    assert!(matches!(stream.phase, Phase::ReplayingHistory));
    let first = stream.process_frame(Frame::EndOfStoredEvents, None);
    assert!(matches!(first, StreamAction::FlushHistory(_)));
    assert!(matches!(stream.phase, Phase::Live));
    let second = stream.process_frame(Frame::EndOfStoredEvents, None);
    assert!(matches!(second, StreamAction::DoNothing));
    assert!(matches!(stream.phase, Phase::Live));
}

#[test]
fn unknown_label_warns_and_stream_continues() {
    // An unknown label in the live phase is a warning; the next frame is
    // still processed normally.
    let mut stream = EventStream::new();
    stream.process_frame(Frame::EndOfStoredEvents, None);
    let warned = stream.process_frame(Frame::Unknown("FOO".to_string()), None);
    match warned {
        StreamAction::WarnUnknown(l) => assert_eq!(l, "FOO"),
        _ => panic!("an unknown label must warn"),
    }
    let next = stream.process_frame(Frame::Event(event(7, b"aa", b"still here")), None);
    assert!(matches!(next, StreamAction::DisplayLive(_)));
}

#[test]
fn live_self_echo_is_suppressed_for_suppressed_author() {
    let mut stream = EventStream::new();
    stream.process_frame(Frame::EndOfStoredEvents, None);
    let local = b"aa".to_vec();
    let own = stream.process_frame(Frame::Event(event(1, b"aa", b"mine")), Some(&local));
    assert!(matches!(own, StreamAction::DoNothing));
    let other = stream.process_frame(Frame::Event(event(1, b"bb", b"theirs")), Some(&local));
    assert!(matches!(other, StreamAction::DisplayLive(_)));
}

#[test]
fn replaying_history_does_not_suppress_self() {
    let mut stream = EventStream::new();
    let local = b"aa".to_vec();
    stream.process_frame(Frame::Event(event(1, b"aa", b"mine")), Some(&local));
    match stream.process_frame(Frame::EndOfStoredEvents, Some(&local)) {
        StreamAction::FlushHistory(h) => assert_eq!(h.len(), 1),
        _ => panic!("the marker must flush the buffer"),
    }
}

#[test]
fn notice_and_receipt_frames() {
    let mut stream = EventStream::new();
    let n = stream.process_frame(Frame::Notice("slow down".to_string()), None);
    match n {
        StreamAction::ShowNotice(s) => assert_eq!(s, "slow down"),
        _ => panic!("a notice must be surfaced"),
    }
    let ok = stream.process_frame(Frame::OkReceipt, None);
    assert!(matches!(ok, StreamAction::DoNothing));
    let bad = stream.process_frame(Frame::Malformed, None);
    assert!(matches!(bad, StreamAction::DropMalformed));
    assert!(matches!(stream.phase, Phase::ReplayingHistory));
}

#[test]
fn frame_text_is_classified() {
    let text = r#"["EVENT","sub-0",{"id":"ab","pubkey":"cd","created_at":5,"kind":42,"content":"hi"}]"#;
    match decode_frame_text(text) {
        Frame::Event(e) => {
            assert_eq!(e.id, b"ab".to_vec());
            assert_eq!(e.author_public_key, b"cd".to_vec());
            assert_eq!(e.created_at, 5);
            assert_eq!(e.kind, 42);
            assert_eq!(e.content, b"hi".to_vec());
        },
        _ => panic!("a complete event frame must classify as an event"),
    }
    assert!(matches!(decode_frame_text(r#"["EOSE","sub-0"]"#), Frame::EndOfStoredEvents));
    match decode_frame_text(r#"["NOTICE","stop"]"#) {
        Frame::Notice(s) => assert_eq!(s, "stop"),
        _ => panic!("a notice frame must classify as a notice"),
    }
    assert!(matches!(decode_frame_text(r#"["OK","id",true,""]"#), Frame::OkReceipt));
    match decode_frame_text(r#"["FOO"]"#) {
        Frame::Unknown(l) => assert_eq!(l, "FOO"),
        _ => panic!("an unrecognized label must classify as unknown"),
    }
    assert!(matches!(decode_frame_text("not json"), Frame::Malformed));
    assert!(matches!(decode_frame_text(""), Frame::Malformed));
    assert!(matches!(decode_frame_text(r#"["EVENT","sub-0",{"id":"ab"}]"#), Frame::Malformed));
    assert!(matches!(decode_frame_text(r#"{"not":"a frame"}"#), Frame::Malformed));
}

#[test]
fn classify_handles_raw_fields() {
    let raw = RawFrame {
        label: Some("EVENT".to_string()),
        text: None,
        id: Some(b"ab".to_vec()),
        pubkey: Some(b"cd".to_vec()),
        created_at: Some(1),
        kind: Some(42),
        content: None,
    };
    assert!(matches!(nostrachat::stream::classify(raw), Frame::Malformed));
}

#[test]
fn non_integer_created_at_is_malformed() {
    let text = r#"["EVENT","s",{"id":"ab","pubkey":"cd","created_at":-5,"kind":42,"content":"x"}]"#;
    assert!(matches!(decode_frame_text(text), Frame::Malformed));
}
