use nostr::nips::nip19::ToBech32;
use nostrachat::colors::{draw_palette_index, PrintingHandler, PALETTE_SIZE};
use nostrachat::event::{ChannelMetadata, RelayEvent};
use nostrachat::filter::SubscriptionIdGen;
use nostrachat::hexcode::{hex_decode, hex_encode};
use nostrachat::ratchet::RatchetProfile;
use nostrachat::session::{ChatType, PrivateChat, PublicChannel};
use nostrachat::stream::{EventStream, Frame, StreamAction};

const ROOT_ID_HEX: &str = "79be667ef9dcbbac55a06295ce870b07029bfcdb2dce28d959f2815b16f81798";
const CREATOR_HEX: &str = "c6047f9441ed7d6d3045406e95c07cd85c778e4b8cef3ca7abac09b95c709ee5";

fn root_event() -> RelayEvent {
    RelayEvent {
        id: ROOT_ID_HEX.as_bytes().to_vec(),
        author_public_key: CREATOR_HEX.as_bytes().to_vec(),
        created_at: 500,
        kind: 40,
        content: Vec::new(),
    }
}

fn channel() -> PublicChannel {
    PublicChannel::new(
        root_event(),
        ChannelMetadata { name: Some("lobby".to_string()), about: None },
    )
    .unwrap()
}

fn private_chat() -> PrivateChat {
    let secret = vec![0x01; 32];
    let peer = hex_decode(&ROOT_ID_HEX.as_bytes().to_vec()).unwrap();
    PrivateChat {
        name: "alice".to_string(),
        recipient_public_key: peer.clone(),
        secret_key: secret.clone(),
        ratchet_profile: RatchetProfile::new(secret, peer).unwrap(),
    }
}

#[test]
fn channel_subscribe_frame_has_kind_and_root_reference() {
    let mut ids = SubscriptionIdGen::new();
    let frame = channel().build_request_message(&mut ids);
    let text = String::from_utf8(frame).unwrap();
    assert_eq!(
        text,
        format!(r##"["REQ","sub-0",{{"kinds":[42],"#e":["{}"]}}]"##, ROOT_ID_HEX)
    );
}

#[test]
fn private_subscribe_frame_has_private_kind() {
    let mut ids = SubscriptionIdGen::new();
    let frame = private_chat().build_request_message(&mut ids);
    assert_eq!(String::from_utf8(frame).unwrap(), r#"["REQ","sub-0",{"kinds":[420]}]"#);
}

#[test]
fn subscription_ids_are_fresh_per_subscribe() {
    let mut ids = SubscriptionIdGen::new();
    let c = channel();
    let first = String::from_utf8(c.build_request_message(&mut ids)).unwrap();
    let second = String::from_utf8(c.build_request_message(&mut ids)).unwrap();
    assert!(first.contains("\"sub-0\""));
    assert!(second.contains("\"sub-1\""));
    assert_ne!(first, second);
}

#[test]
fn channel_name_prefers_metadata() {
    assert_eq!(channel().get_name(), "lobby");
    let unnamed = PublicChannel::new(root_event(), ChannelMetadata { name: None, about: None })
        .unwrap();
    assert_eq!(unnamed.get_name(), ROOT_ID_HEX);
}

#[test]
fn channel_rejects_malformed_identity() {
    let mut bad = root_event();
    bad.id = b"zz".to_vec();
    assert!(PublicChannel::new(bad, ChannelMetadata { name: None, about: None }).is_none());
}

#[test]
fn info_table_reports_channel_details() {
    let info = channel().get_info_table("wss://relay.example");
    let id = nostr::event::EventId::from_hex(ROOT_ID_HEX).unwrap();
    let creator = nostr::key::PublicKey::from_hex(CREATOR_HEX).unwrap();
    let expected = format!(
        "Relay: wss://relay.example\nName: lobby\nEvent ID in Bech32: {}\nEvent ID in Hex: {}\nAbout: No about\nCreator: {}\nCreated at: 1970-01-01 00:08:20",
        id.to_bech32().unwrap(),
        ROOT_ID_HEX,
        creator.to_bech32().unwrap()
    );
    assert_eq!(info, expected);
}

#[test]
fn private_info_table_is_a_placeholder() {
    let chat = ChatType::PrivateChat(private_chat());
    assert_eq!(chat.get_info_table("wss://relay.example"), "Coming soon!");
}

#[test]
fn channel_message_is_signed_with_kind_and_root_tag() {
    let c = channel();
    let msg = c.message_from("hello there", &vec![0x01; 32]).unwrap();
    let v: serde_json::Value = serde_json::from_str(&msg).unwrap();
    assert_eq!(v[0], "EVENT");
    assert_eq!(v[1]["kind"], 42);
    assert_eq!(v[1]["content"], "hello there");
    let tags = v[1]["tags"].as_array().unwrap();
    assert!(tags.iter().any(|t| t[0] == "e" && t[1] == ROOT_ID_HEX && t[3] == "root"));
}

#[test]
fn private_message_ratchets_and_signs_under_ephemeral_key() {
    let mut chat = private_chat();
    let chain0 = chat.ratchet_profile.chain_key.clone();
    let mut probe = chat.ratchet_profile.clone();
    probe.ephemeral_keys.secret_key = vec![0x02; 32];
    let material = probe.rotate();
    let plaintext = b"secret plan".to_vec();
    let msg = chat.message_from(&plaintext, vec![0x02; 32]).unwrap();
    // The ratchet advanced once and the ephemeral key was replaced.
    assert_ne!(chat.ratchet_profile.chain_key, chain0);
    assert_eq!(chat.ratchet_profile.chain_key, probe.chain_key);
    assert_eq!(chat.ratchet_profile.ephemeral_keys.secret_key, vec![0x02; 32]);
    // The event carries kind 420 and the keystreamed hex of the text.
    let v: serde_json::Value = serde_json::from_str(&msg).unwrap();
    assert_eq!(v[0], "EVENT");
    assert_eq!(v[1]["kind"], 420);
    let mixed: Vec<u8> = plaintext
        .iter()
        .enumerate()
        .map(|(i, b)| b ^ material[i % 256])
        .collect();
    let expected = String::from_utf8(hex_encode(&mixed)).unwrap();
    assert_eq!(v[1]["content"], expected.as_str());
}

#[test]
fn private_event_is_decoded_with_updated_peer_key() {
    let mut chat = private_chat();
    // The author rotates its ephemeral identity: the receiver must take
    // the new key from the event before deriving the message material.
    let author_hex = CREATOR_HEX.as_bytes().to_vec();
    let mut probe = chat.ratchet_profile.clone();
    probe.ephemeral_keys.recipient_public_key = hex_decode(&author_hex).unwrap();
    let material = probe.rotate();
    let plaintext = b"over the wire".to_vec();
    let mixed: Vec<u8> = plaintext
        .iter()
        .enumerate()
        .map(|(i, b)| b ^ material[i % 256])
        .collect();
    let event = RelayEvent {
        id: b"00".to_vec(),
        author_public_key: author_hex.clone(),
        created_at: 9,
        kind: 420,
        content: hex_encode(&mixed),
    };
    let mut stream = EventStream::new();
    stream.process_frame(Frame::EndOfStoredEvents, None);
    match chat.handle_frame(&mut stream, Frame::Event(event)) {
        StreamAction::DisplayLive(shown) => {
            assert_eq!(shown.content, plaintext);
            assert_eq!(shown.author_public_key, author_hex);
        },
        _ => panic!("a live private event must be displayed decoded"),
    }
    assert_eq!(
        chat.ratchet_profile.ephemeral_keys.recipient_public_key,
        hex_decode(&author_hex).unwrap()
    );
}

#[test]
fn private_event_with_invalid_author_is_dropped() {
    let mut chat = private_chat();
    let chain0 = chat.ratchet_profile.chain_key.clone();
    let event = RelayEvent {
        id: b"00".to_vec(),
        author_public_key: b"zz".to_vec(),
        created_at: 9,
        kind: 420,
        content: b"00".to_vec(),
    };
    let mut stream = EventStream::new();
    let a = chat.handle_frame(&mut stream, Frame::Event(event));
    assert!(matches!(a, StreamAction::DropMalformed));
    assert_eq!(chat.ratchet_profile.chain_key, chain0);
}

#[test]
fn color_assignment_is_stable_per_author() {
    let mut handler = PrintingHandler::new(b"self".to_vec());
    let first = handler.color_for(&b"alice".to_vec(), 3);
    assert_eq!(first, 3);
    let second = handler.color_for(&b"alice".to_vec(), 7);
    assert_eq!(second, 3);
    let other = handler.color_for(&b"bob".to_vec(), 5);
    assert_eq!(other, 5);
    let third = handler.color_for(&b"alice".to_vec(), 1);
    assert_eq!(third, 3);
}

#[test]
fn palette_draws_stay_in_range() {
    for _ in 0..100 {
        let d = draw_palette_index();
        assert!(1 <= d && d <= PALETTE_SIZE);
    }
}

#[test]
fn live_channel_event_from_local_identity_is_not_printed() {
    // The identical event from another author is printed with an
    // assigned color; the local identity's own event yields no line.
    let local = b"aa".to_vec();
    let mut handler = PrintingHandler::new(local.clone());
    let own = RelayEvent {
        id: b"00".to_vec(),
        author_public_key: local.clone(),
        created_at: 1,
        kind: 42,
        content: b"hi".to_vec(),
    };
    assert!(handler.print_message(&own, 2).is_none());
    let mut theirs = own.clone();
    theirs.author_public_key = b"bb".to_vec();
    let line = handler.print_message(&theirs, 2).unwrap();
    assert!(line.ends_with(": hi"));
    assert_eq!(handler.color_for(&b"bb".to_vec(), 7), 2);
}

#[test]
fn history_rendering_keeps_every_line_in_sorted_order() {
    let mut handler = PrintingHandler::new(b"aa".to_vec());
    let mk = |t: u64, author: &[u8], content: &[u8]| RelayEvent {
        id: b"00".to_vec(),
        author_public_key: author.to_vec(),
        created_at: t,
        kind: 42,
        content: content.to_vec(),
    };
    // Buffer out of order, flush through the stream, render the flush:
    // a self-authored event is rendered too, replay does not suppress.
    let mut stream = EventStream::new();
    stream.process_frame(Frame::Event(mk(500, b"aa", b"late")), None);
    stream.process_frame(Frame::Event(mk(100, b"bb", b"early")), None);
    stream.process_frame(Frame::Event(mk(300, b"cc", b"mid")), None);
    let flushed = match stream.process_frame(Frame::EndOfStoredEvents, None) {
        StreamAction::FlushHistory(h) => h,
        _ => panic!("the marker must flush the buffer"),
    };
    let lines = handler.print_history(flushed, &vec![1, 2, 3]);
    assert_eq!(lines.len(), 3);
    assert!(lines[0].ends_with(": early"));
    assert!(lines[1].ends_with(": mid"));
    assert!(lines[2].ends_with(": late"));
}

#[test]
fn chat_dispatch_suppresses_only_channel_self_echo() {
    let local = CREATOR_HEX.as_bytes().to_vec();
    let mut chat = ChatType::PublicChannel(channel());
    let mut stream = EventStream::new();
    stream.process_frame(Frame::EndOfStoredEvents, None);
    let own = RelayEvent {
        id: b"00".to_vec(),
        author_public_key: local.clone(),
        created_at: 1,
        kind: 42,
        content: b"mine".to_vec(),
    };
    let a = chat.handle_frame(&mut stream, Frame::Event(own), &local);
    assert!(matches!(a, StreamAction::DoNothing));
}

#[test]
fn metadata_fields_are_read_from_content() {
    let meta = nostrachat::session::read_metadata_fields(
        &br#"{"name":"lobby","about":"a place"}"#.to_vec(),
    );
    assert_eq!(meta.name, Some("lobby".to_string()));
    assert_eq!(meta.about, Some("a place".to_string()));
    let empty = nostrachat::session::read_metadata_fields(&b"not json".to_vec());
    assert_eq!(empty.name, None);
    assert_eq!(empty.about, None);
}

#[test]
fn generated_secret_keys_are_usable() {
    let peer = hex_decode(&ROOT_ID_HEX.as_bytes().to_vec()).unwrap();
    let key = nostrachat::session::generate_secret_key().unwrap();
    assert_eq!(key.len(), 32);
    assert!(RatchetProfile::new(key, peer).is_some());
}

#[test]
fn chat_dispatch_encodes_private_message_with_fresh_key() {
    let mut chat = ChatType::PrivateChat(private_chat());
    let chain0 = private_chat().ratchet_profile.chain_key;
    let msg = chat.message_from(&b"hi".to_vec(), &vec![0x01; 32]).unwrap();
    let v: serde_json::Value = serde_json::from_str(&msg).unwrap();
    assert_eq!(v[1]["kind"], 420);
    match chat {
        ChatType::PrivateChat(p) => {
            assert_ne!(p.ratchet_profile.chain_key, chain0);
            assert_ne!(p.ratchet_profile.ephemeral_keys.secret_key, vec![0x01; 32]);
        },
        _ => panic!("the session kind must not change"),
    }
}
