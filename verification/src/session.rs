//! The two chat session kinds and their protocol behavior.
//!
//! A session is either an open channel or a pairwise encrypted
//! conversation. Either kind builds its subscribe frame, names itself,
//! encodes outgoing messages, and drives the replay-then-live stream on
//! inbound frames; the private kind ratchets its key schedule once per
//! message in either direction.
use vstd::prelude::*;
use vstd::string::StringSliceAdditionalSpecFns;

use crate::codec::keystreamed;
use crate::colors::utf8_text;
use crate::colors::utf8_text_of;
use crate::event::{ChannelMetadata, RelayEvent};
use crate::filter::{channel_filter, private_filter, build_req_frame, decimal_digits,
    sub_id_text, SubscriptionIdGen, CHANNEL_MESSAGE_KIND, PRIVATE_MESSAGE_KIND};
use crate::hexcode::{bytes_of_hex, hex_decode, hex_text_valid};
use crate::ratchet::{expand_of, extract_of, public_key_valid, public_key_ok, secret_key_ok,
    shared_secret_of, RatchetProfile};
use crate::stream::{stream_step, EventStream, Frame, StreamAction};

verus! {

/// The bech32 form of an event identifier given by its hexadecimal text.
pub uninterp spec fn bech32_event_id_of(hex: Seq<u8>) -> Seq<char>;

/// The bech32 form of a public key given by its hexadecimal text.
pub uninterp spec fn bech32_public_key_of(hex: Seq<u8>) -> Seq<char>;

/// The calendar text of a unix-seconds timestamp.
pub uninterp spec fn datetime_text_of(ts: u64) -> Seq<char>;

/// The largest timestamp the session summary renders as a calendar date:
/// the last second of year 9999, well inside the calendar library's
/// documented range.
pub const MAX_DISPLAY_TIMESTAMP: u64 = 253402300799;

/// Relies on nostr's EventId::from_hex and ToBech32: parsing succeeds on
/// 64 hexadecimal digits, and the bech32 text is a function of them alone
/// (encoding 32 bytes cannot fail).
#[verifier::external_body]
fn bech32_event_id(hex: &Vec<u8>) -> (r: Option<String>)
    ensures
        hex_text_valid(hex@) && hex@.len() == 64 ==> r is Some,
        r matches Some(s) ==> s@ == bech32_event_id_of(hex@),
{
    let text = core::str::from_utf8(hex).ok()?;
    let id = nostr::event::EventId::from_hex(text).ok()?;
    Some(nostr::nips::nip19::ToBech32::to_bech32(&id).unwrap())
}

/// Relies on nostr's PublicKey::from_hex and ToBech32: parsing succeeds
/// on 64 hexadecimal digits (the key is carried as bytes, with no curve
/// check), and the bech32 text is a function of them alone.
#[verifier::external_body]
fn bech32_public_key(hex: &Vec<u8>) -> (r: Option<String>)
    ensures
        hex_text_valid(hex@) && hex@.len() == 64 ==> r is Some,
        r matches Some(s) ==> s@ == bech32_public_key_of(hex@),
{
    let text = core::str::from_utf8(hex).ok()?;
    let pk = nostr::key::PublicKey::from_hex(text).ok()?;
    Some(nostr::nips::nip19::ToBech32::to_bech32(&pk).unwrap())
}

/// Relies on chrono's DateTime::from_timestamp: it succeeds on every
/// timestamp up to the display bound (chrono documents support far past
/// year 9999), and the text is a function of the timestamp alone (UTC).
#[verifier::external_body]
fn datetime_text(ts: u64) -> (r: Option<String>)
    ensures
        ts <= MAX_DISPLAY_TIMESTAMP ==> r is Some,
        r matches Some(s) ==> s@ == datetime_text_of(ts),
{
    let secs: i64 = i64::try_from(ts).ok()?;
    let dt = chrono::DateTime::<chrono::Utc>::from_timestamp(secs, 0)?;
    Some(dt.naive_utc().to_string())
}

/// Relies on rand's thread-local generator and secp256k1's
/// SecretKey::from_slice: a freshly drawn 32-byte secret key, returned
/// only when the draw is a well-formed key. The draw is random, so
/// nothing else is assumed.
#[verifier::external_body]
pub fn generate_secret_key() -> (r: Option<Vec<u8>>)
    ensures
        r matches Some(k) ==> secret_key_ok(k@) && k@.len() == 32,
{
    let bytes: [u8; 32] = rand::Rng::gen(&mut rand::thread_rng());
    let key = secp256k1::SecretKey::from_slice(&bytes).ok()?;
    Some(key.secret_bytes().to_vec())
}

/// Relies on nostr's EventBuilder, Keys and ClientMessage: builds, signs
/// and serializes a channel message referencing the root event with the
/// root marker. Signing is randomized and stamps the current time, so
/// nothing is assumed of the text.
#[verifier::external_body]
fn sign_channel_message(root_id_hex: &Vec<u8>, content: &str, secret_key: &Vec<u8>) -> (r: Option<
    String,
>) {
    let sk = nostr::key::SecretKey::from_slice(secret_key).ok()?;
    let keys = nostr::key::Keys::new(sk);
    let id = nostr::event::EventId::from_hex(core::str::from_utf8(root_id_hex).ok()?).ok()?;
    let root = nostr::nips::nip10::Nip10Tag::Event {
        id,
        relay_hint: None,
        marker: Some(nostr::nips::nip10::Marker::Root),
        public_key: None,
    };
    let builder = nostr::event::EventBuilder::new(nostr::event::Kind::Custom(42), content).tag(root);
    let event = nostr::event::FinalizeEvent::finalize(builder, &keys).ok()?;
    nostr::message::ClientMessage::event(event).try_as_json().ok()
}

/// Relies on nostr's EventBuilder, Keys and ClientMessage: builds, signs
/// and serializes a private message tagged with the recipient's key,
/// under the fresh ephemeral secret key. Signing is randomized and
/// stamps the current time, so nothing is assumed of the text.
#[verifier::external_body]
fn sign_private_message(recipient: &Vec<u8>, content: &str, ephemeral_key: &Vec<u8>) -> (r: Option<
    String,
>) {
    let sk = nostr::key::SecretKey::from_slice(ephemeral_key).ok()?;
    let keys = nostr::key::Keys::new(sk);
    let pk = nostr::key::PublicKey::from_slice(recipient).ok()?;
    let builder = nostr::event::EventBuilder::new(nostr::event::Kind::Custom(420), content).tag(
        nostr::event::Tag::public_key(pk),
    );
    let event = nostr::event::FinalizeEvent::finalize(builder, &keys).ok()?;
    nostr::message::ClientMessage::event(event).try_as_json().ok()
}

/// The subscribe frame text of a channel session: the channel-message
/// kind, restricted to events referencing the root event.
pub open spec fn channel_req_json(sub: Seq<u8>, root_id: Seq<u8>) -> Seq<u8> {
    ("[\"REQ\",\"").spec_bytes() + sub + ("\",").spec_bytes() + ("{\"kinds\":[").spec_bytes()
        + decimal_digits(CHANNEL_MESSAGE_KIND) + ("]").spec_bytes() + (",\"#e\":[").spec_bytes() + (
    "\"").spec_bytes() + root_id + ("\"").spec_bytes() + ("]").spec_bytes() + ("}").spec_bytes() + (
    "]").spec_bytes()
}

/// The subscribe frame text of a private session: the private-message
/// kind alone.
pub open spec fn private_req_json(sub: Seq<u8>) -> Seq<u8> {
    ("[\"REQ\",\"").spec_bytes() + sub + ("\",").spec_bytes() + ("{\"kinds\":[").spec_bytes()
        + decimal_digits(PRIVATE_MESSAGE_KIND) + ("]").spec_bytes() + ("}").spec_bytes() + (
    "]").spec_bytes()
}

/// An open multi-party channel, identified by its root event.
#[derive(Clone)]
pub struct PublicChannel {
    /// The channel-creation event; its identifier is the channel's
    /// identity.
    pub root_event: RelayEvent,
    /// The channel's metadata, parsed from the root event's content.
    pub metadata: ChannelMetadata,
}

impl PublicChannel {
    /// The identifier and author key of the root event are 64 digits of
    /// hexadecimal text, and its timestamp renders as a calendar date:
    /// established once when the channel list is built, as identity
    /// material is validated at startup.
    pub open spec fn wf(self) -> bool {
        &&& hex_text_valid(self.root_event.id@)
        &&& self.root_event.id@.len() == 64
        &&& hex_text_valid(self.root_event.author_public_key@)
        &&& self.root_event.author_public_key@.len() == 64
        &&& self.root_event.created_at <= MAX_DISPLAY_TIMESTAMP
    }

    /// Builds a channel from its root event and metadata; rejects a root
    /// event whose identity material is not well formed.
    pub fn new(root_event: RelayEvent, metadata: ChannelMetadata) -> (r: Option<PublicChannel>)
        ensures
            r matches Some(c) ==> c.wf() && c.root_event.id@ == root_event.id@
                && c.root_event.author_public_key@ == root_event.author_public_key@
                && c.root_event.created_at == root_event.created_at && c.root_event.content@
                == root_event.content@ && c.root_event.kind == root_event.kind && c.metadata
                == metadata,
            r is None ==> !(hex_text_valid(root_event.id@) && root_event.id@.len() == 64
                && hex_text_valid(root_event.author_public_key@)
                && root_event.author_public_key@.len() == 64 && root_event.created_at
                <= MAX_DISPLAY_TIMESTAMP),
    {
        if root_event.id.len() != 64 || root_event.author_public_key.len() != 64
            || root_event.created_at > MAX_DISPLAY_TIMESTAMP {
            return None;
        }
        if crate::hexcode::hex_decode(&root_event.id).is_none() {
            return None;
        }
        if crate::hexcode::hex_decode(&root_event.author_public_key).is_none() {
            return None;
        }
        Some(PublicChannel { root_event, metadata })
    }

    /// Builds this channel's subscribe frame under a fresh subscription
    /// identifier.
    pub fn build_request_message(&self, ids: &mut SubscriptionIdGen) -> (r: Vec<u8>)
        requires
            old(ids).counter < u64::MAX,
        ensures
            final(ids).counter == old(ids).counter + 1,
            r@ == channel_req_json(sub_id_text(old(ids).counter), self.root_event.id@),
    {
        let sub = ids.fresh();
        let f = channel_filter(&self.root_event);
        let r = build_req_frame(&sub, &f);
        proof {
            assert(r@ =~= channel_req_json(sub_id_text(old(ids).counter), self.root_event.id@));
        }
        r
    }

    /// The channel's display name: its metadata name when present, else
    /// the root event's identifier text.
    pub fn get_name(&self) -> (r: String)
        ensures
            match self.metadata.name {
                Some(n) => r@ == n@,
                None => r@ == utf8_text_of(self.root_event.id@),
            },
    {
        match &self.metadata.name {
            Some(n) => n.clone(),
            None => utf8_text(&self.root_event.id),
        }
    }

    /// Encodes one outgoing channel message: the text is wrapped as a
    /// signed event referencing the root event and serialized as a
    /// publish frame. Signing is randomized, so only the attempt is
    /// stated.
    pub fn message_from(&self, input: &str, secret_key: &Vec<u8>) -> Option<String> {
        sign_channel_message(&self.root_event.id, input, secret_key)
    }
}

/// A pairwise encrypted conversation with a forward-ratcheting key
/// schedule.
#[derive(Clone)]
pub struct PrivateChat {
    /// The conversation's display name.
    pub name: String,
    /// The peer's x-only public key, 32 raw bytes.
    pub recipient_public_key: Vec<u8>,
    /// The local identity's secret key, 32 raw bytes.
    pub secret_key: Vec<u8>,
    /// The conversation's key schedule.
    pub ratchet_profile: RatchetProfile,
}

/// Whether an inbound author key is acceptable as the new ephemeral peer
/// key: 64 digits of hexadecimal text denoting a well-formed x-only
/// public key.
pub open spec fn peer_key_acceptable(pk_hex: Seq<u8>) -> bool {
    hex_text_valid(pk_hex) && pk_hex.len() == 64 && public_key_ok(bytes_of_hex(pk_hex))
}

/// The plaintext of an inbound private event under a session's chain key
/// and local ephemeral secret, after the peer key is taken from the
/// event's author.
pub open spec fn decoded_content(e: RelayEvent, chain: Seq<u8>, sk: Seq<u8>) -> Seq<u8> {
    keystreamed(
        bytes_of_hex(e.content@),
        expand_of(extract_of(chain), shared_secret_of(sk, bytes_of_hex(e.author_public_key@))),
    )
}

impl PrivateChat {
    /// The ratchet is well formed.
    pub open spec fn wf(self) -> bool {
        self.ratchet_profile.wf()
    }

    /// Builds this conversation's subscribe frame under a fresh
    /// subscription identifier.
    pub fn build_request_message(&self, ids: &mut SubscriptionIdGen) -> (r: Vec<u8>)
        requires
            old(ids).counter < u64::MAX,
        ensures
            final(ids).counter == old(ids).counter + 1,
            r@ == private_req_json(sub_id_text(old(ids).counter)),
    {
        let sub = ids.fresh();
        let f = private_filter();
        let r = build_req_frame(&sub, &f);
        proof {
            assert(r@ =~= private_req_json(sub_id_text(old(ids).counter)));
        }
        r
    }

    /// The conversation's display name.
    pub fn get_name(&self) -> (r: String)
        ensures
            r@ == self.name@,
    {
        self.name.clone()
    }

    /// Encodes one outgoing private message under an injected fresh
    /// ephemeral secret key: the key is stored as the new local ephemeral
    /// key, the ratchet advances exactly once, the text is transformed
    /// under the fresh per-message key material, and the result is signed
    /// under the ephemeral key — every outgoing message is authored under
    /// a distinct ephemeral identity. Signing is randomized, so only the
    /// state evolution is stated.
    pub fn message_from(&mut self, input: &Vec<u8>, fresh_secret_key: Vec<u8>) -> (r: Option<
        String,
    >)
        requires
            old(self).wf(),
            secret_key_ok(fresh_secret_key@),
        ensures
            final(self).wf(),
            final(self).name@ == old(self).name@,
            final(self).recipient_public_key@ == old(self).recipient_public_key@,
            final(self).secret_key@ == old(self).secret_key@,
            final(self).ratchet_profile.ephemeral_keys.secret_key@ == fresh_secret_key@,
            final(self).ratchet_profile.ephemeral_keys.recipient_public_key@ == old(
                self,
            ).ratchet_profile.ephemeral_keys.recipient_public_key@,
            final(self).ratchet_profile.chain_key@ == extract_of(
                old(self).ratchet_profile.chain_key@,
            ),
    {
        self.ratchet_profile.ephemeral_keys.secret_key = fresh_secret_key;
        let wire = self.ratchet_profile.encrypt_message(input);
        let recipient = self.ratchet_profile.ephemeral_keys.recipient_public_key.clone();
        let content = utf8_text(&wire);
        sign_private_message(&recipient, content.as_str(), &self.ratchet_profile.ephemeral_keys.secret_key)
    }

    /// Consumes one inbound frame of a private conversation.
    ///
    /// On an event, the peer's ephemeral public key is first taken from
    /// the event's author; an author key that is not a well-formed key is
    /// dropped as malformed, with nothing touched. Otherwise the ratchet
    /// advances exactly once, the content is decoded under the fresh key
    /// material, and the event — its content replaced by the plaintext,
    /// identity and author untouched — drives the stream with no self
    /// suppression. Content that is not well-formed wire text is dropped,
    /// the ratchet having advanced. Every other frame drives the stream
    /// directly and leaves the conversation untouched.
    pub fn handle_frame(&mut self, stream: &mut EventStream, frame: Frame) -> (a: StreamAction)
        requires
            old(self).wf(),
        ensures
            final(self).wf(),
            final(self).name@ == old(self).name@,
            final(self).recipient_public_key@ == old(self).recipient_public_key@,
            final(self).secret_key@ == old(self).secret_key@,
            match frame {
                Frame::Event(e) => if !peer_key_acceptable(e.author_public_key@) {
                    &&& *final(self) == *old(self)
                    &&& *final(stream) == *old(stream)
                    &&& a is DropMalformed
                } else {
                    &&& final(self).ratchet_profile.ephemeral_keys.recipient_public_key@
                        == bytes_of_hex(e.author_public_key@)
                    &&& final(self).ratchet_profile.ephemeral_keys.secret_key@ == old(
                        self,
                    ).ratchet_profile.ephemeral_keys.secret_key@
                    &&& final(self).ratchet_profile.chain_key@ == extract_of(
                        old(self).ratchet_profile.chain_key@,
                    )
                    &&& if hex_text_valid(e.content@) {
                        exists|shown: RelayEvent|
                            {
                                &&& shown.id@ == e.id@
                                &&& shown.author_public_key@ == e.author_public_key@
                                &&& shown.created_at == e.created_at
                                &&& shown.kind == e.kind
                                &&& shown.content@ == decoded_content(
                                    e,
                                    old(self).ratchet_profile.chain_key@,
                                    old(self).ratchet_profile.ephemeral_keys.secret_key@,
                                )
                                &&& #[trigger] stream_step(
                                    *old(stream),
                                    *final(stream),
                                    Frame::Event(shown),
                                    None,
                                    a,
                                )
                            }
                    } else {
                        &&& *final(stream) == *old(stream)
                        &&& a is DropMalformed
                    }
                },
                _ => {
                    &&& *final(self) == *old(self)
                    &&& stream_step(*old(stream), *final(stream), frame, None, a)
                },
            },
    {
        match frame {
            Frame::Event(e) => {
                let raw = match hex_decode(&e.author_public_key) {
                    Some(b) => b,
                    None => {
                        return StreamAction::DropMalformed;
                    },
                };
                if e.author_public_key.len() != 64 {
                    return StreamAction::DropMalformed;
                }
                if !public_key_valid(&raw) {
                    return StreamAction::DropMalformed;
                }
                self.ratchet_profile.ephemeral_keys.recipient_public_key = raw;
                let plaintext = match self.ratchet_profile.decrypt_message(&e.content) {
                    Some(p) => p,
                    None => {
                        return StreamAction::DropMalformed;
                    },
                };
                let shown = RelayEvent {
                    id: e.id,
                    author_public_key: e.author_public_key,
                    created_at: e.created_at,
                    kind: e.kind,
                    content: plaintext,
                };
                let ghost shown_spec = shown;
                let a = stream.process_frame(Frame::Event(shown), None);
                proof {
                    assert(stream_step(
                        *old(stream),
                        *final(stream),
                        Frame::Event(shown_spec),
                        None,
                        a,
                    ));
                }
                a
            },
            _ => stream.process_frame(frame, None),
        }
    }
}


/// Relies on serde_json::from_slice and serde_json::Value's accessors to
/// pick the optional name and about fields out of a channel-creation
/// event's content; absent or unreadable fields are simply absent.
#[verifier::external_body]
pub fn read_metadata_fields(content: &Vec<u8>) -> (r: ChannelMetadata)
{
    let parsed: Option<serde_json::Value> = serde_json::from_slice(content).ok();
    let v = parsed.as_ref();
    ChannelMetadata {
        name: v.and_then(|x| x.get("name")).and_then(|x| x.as_str()).map(|s| s.to_string()),
        about: v.and_then(|x| x.get("about")).and_then(|x| x.as_str()).map(|s| s.to_string()),
    }
}

/// The session summary of a channel: relay, name, identifier in bech32
/// and hexadecimal, description, creator and creation time, one line
/// each; absent metadata renders as a placeholder, never an error.
pub open spec fn channel_info_text(c: PublicChannel, relay: Seq<char>) -> Seq<char> {
    ("Relay: ")@ + relay + ("\n")@ + ("Name: ")@ + (match c.metadata.name {
        Some(n) => n@,
        None => ("No name")@,
    }) + ("\n")@ + ("Event ID in Bech32: ")@ + bech32_event_id_of(c.root_event.id@) + ("\n")@ + (
    "Event ID in Hex: ")@ + utf8_text_of(c.root_event.id@) + ("\n")@ + ("About: ")@ + (
    match c.metadata.about {
        Some(a) => a@,
        None => ("No about")@,
    }) + ("\n")@ + ("Creator: ")@ + bech32_public_key_of(c.root_event.author_public_key@) + (
    "\n")@ + ("Created at: ")@ + datetime_text_of(c.root_event.created_at)
}

impl PublicChannel {
    /// The channel's session summary, as `channel_info_text` lays it out.
    pub fn get_info_table(&self, relay: &str) -> (r: String)
        requires
            self.wf(),
        ensures
            r@ == channel_info_text(*self, relay@),
    {
        let mut out: String = String::from_str("Relay: ");
        out.append(relay);
        out.append("\n");
        out.append("Name: ");
        match &self.metadata.name {
            Some(n) => out.append(n.as_str()),
            None => out.append("No name"),
        }
        out.append("\n");
        out.append("Event ID in Bech32: ");
        let id_bech32 = match bech32_event_id(&self.root_event.id) {
            Some(s) => s,
            None => {
                proof {
                    assert(false);
                }
                vstd::pervasive::unreached()
            },
        };
        out.append(id_bech32.as_str());
        out.append("\n");
        out.append("Event ID in Hex: ");
        out.append(utf8_text(&self.root_event.id).as_str());
        out.append("\n");
        out.append("About: ");
        match &self.metadata.about {
            Some(a) => out.append(a.as_str()),
            None => out.append("No about"),
        }
        out.append("\n");
        out.append("Creator: ");
        let creator = match bech32_public_key(&self.root_event.author_public_key) {
            Some(s) => s,
            None => {
                proof {
                    assert(false);
                }
                vstd::pervasive::unreached()
            },
        };
        out.append(creator.as_str());
        out.append("\n");
        out.append("Created at: ");
        let created = match datetime_text(self.root_event.created_at) {
            Some(s) => s,
            None => {
                proof {
                    assert(false);
                }
                vstd::pervasive::unreached()
            },
        };
        out.append(created.as_str());
        proof {
            assert(out@ =~= channel_info_text(*self, relay@));
        }
        out
    }
}

/// One chat session of either kind, dispatched as a closed tagged union.
#[derive(Clone)]
pub enum ChatType {
    PublicChannel(PublicChannel),
    PrivateChat(PrivateChat),
}

impl ChatType {
    /// The session's own well-formedness.
    pub open spec fn wf(self) -> bool {
        match self {
            ChatType::PublicChannel(c) => c.wf(),
            ChatType::PrivateChat(p) => p.wf(),
        }
    }

    /// Builds the session's subscribe frame under a fresh subscription
    /// identifier: the channel filter for a channel, the private filter
    /// for a private conversation.
    pub fn build_request_message(&self, ids: &mut SubscriptionIdGen) -> (r: Vec<u8>)
        requires
            old(ids).counter < u64::MAX,
        ensures
            final(ids).counter == old(ids).counter + 1,
            match *self {
                ChatType::PublicChannel(c) => r@ == channel_req_json(
                    sub_id_text(old(ids).counter),
                    c.root_event.id@,
                ),
                ChatType::PrivateChat(p) => r@ == private_req_json(sub_id_text(old(ids).counter)),
            },
    {
        match self {
            ChatType::PublicChannel(c) => c.build_request_message(ids),
            ChatType::PrivateChat(p) => p.build_request_message(ids),
        }
    }

    /// The session's display name.
    pub fn get_name(&self) -> (r: String)
        ensures
            match *self {
                ChatType::PublicChannel(c) => match c.metadata.name {
                    Some(n) => r@ == n@,
                    None => r@ == utf8_text_of(c.root_event.id@),
                },
                ChatType::PrivateChat(p) => r@ == p.name@,
            },
    {
        match self {
            ChatType::PublicChannel(c) => c.get_name(),
            ChatType::PrivateChat(p) => p.get_name(),
        }
    }

    /// The session summary: a channel reports its details, a private
    /// conversation reports that none is implemented yet.
    pub fn get_info_table(&self, relay: &str) -> (r: String)
        requires
            self.wf(),
        ensures
            match *self {
                ChatType::PublicChannel(c) => r@ == channel_info_text(c, relay@),
                ChatType::PrivateChat(p) => r@ == ("Coming soon!")@,
            },
    {
        match self {
            ChatType::PublicChannel(c) => c.get_info_table(relay),
            ChatType::PrivateChat(p) => String::from_str("Coming soon!"),
        }
    }

    /// Encodes one outgoing message. A channel signs the text with the
    /// local identity's key and is itself unchanged. A private
    /// conversation draws a fresh ephemeral key — failing that, nothing
    /// happens — stores it, advances the ratchet once and signs under the
    /// fresh key.
    pub fn message_from(&mut self, input: &Vec<u8>, secret_key: &Vec<u8>) -> (r: Option<String>)
        requires
            old(self).wf(),
        ensures
            final(self).wf(),
            *old(self) matches ChatType::PublicChannel(c) ==> *final(self) == *old(self),
            *old(self) matches ChatType::PrivateChat(p0) ==> *final(self) matches
                ChatType::PrivateChat(p1) && p1.name@ == p0.name@ && p1.recipient_public_key@
                == p0.recipient_public_key@ && p1.secret_key@ == p0.secret_key@
                && (p1.ratchet_profile.chain_key@ == extract_of(p0.ratchet_profile.chain_key@)
                || *final(self) == *old(self)),
    {
        match self {
            ChatType::PublicChannel(c) => {
                let text = utf8_text(input);
                c.message_from(text.as_str(), secret_key)
            },
            ChatType::PrivateChat(p) => {
                let fresh = match generate_secret_key() {
                    Some(k) => k,
                    None => {
                        return None;
                    },
                };
                p.message_from(input, fresh)
            },
        }
    }

    /// Consumes one inbound frame. A channel drives the stream directly,
    /// suppressing live events authored by the local identity; a private
    /// conversation updates its peer key, ratchets and decodes as
    /// `PrivateChat::handle_frame` states, with no suppression.
    pub fn handle_frame(
        &mut self,
        stream: &mut EventStream,
        frame: Frame,
        local_author: &Vec<u8>,
    ) -> (a: StreamAction)
        requires
            old(self).wf(),
        ensures
            final(self).wf(),
            *old(self) matches ChatType::PublicChannel(c) ==> *final(self) == *old(self)
                && stream_step(*old(stream), *final(stream), frame, Some(local_author@), a),
            *old(self) matches ChatType::PrivateChat(p0) ==> *final(self) matches
                ChatType::PrivateChat(p1) && p1.name@ == p0.name@ && (!(frame is Event)
                ==> p1 == p0 && stream_step(*old(stream), *final(stream), frame, None, a)) && (
            frame matches Frame::Event(e) ==> if peer_key_acceptable(e.author_public_key@) {
                &&& p1.ratchet_profile.chain_key@ == extract_of(p0.ratchet_profile.chain_key@)
                &&& p1.ratchet_profile.ephemeral_keys.recipient_public_key@ == bytes_of_hex(
                    e.author_public_key@,
                )
                &&& p1.ratchet_profile.ephemeral_keys.secret_key@
                    == p0.ratchet_profile.ephemeral_keys.secret_key@
                &&& if hex_text_valid(e.content@) {
                    exists|shown: RelayEvent|
                        {
                            &&& shown.id@ == e.id@
                            &&& shown.author_public_key@ == e.author_public_key@
                            &&& shown.created_at == e.created_at
                            &&& shown.kind == e.kind
                            &&& shown.content@ == decoded_content(
                                e,
                                p0.ratchet_profile.chain_key@,
                                p0.ratchet_profile.ephemeral_keys.secret_key@,
                            )
                            &&& #[trigger] stream_step(
                                *old(stream),
                                *final(stream),
                                Frame::Event(shown),
                                None,
                                a,
                            )
                        }
                } else {
                    &&& *final(stream) == *old(stream)
                    &&& a is DropMalformed
                }
            } else {
                p1 == p0 && *final(stream) == *old(stream) && a is DropMalformed
            }),
    {
        match self {
            ChatType::PublicChannel(c) => stream.process_frame(frame, Some(local_author)),
            ChatType::PrivateChat(p) => p.handle_frame(stream, frame),
        }
    }
}

} // verus!
