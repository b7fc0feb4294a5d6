//! Inbound frame classification and the replay-then-live state machine.
//!
//! A session's stream starts in history replay: events are buffered, not
//! displayed. The end-of-stored-events marker flushes the buffer in
//! display order and moves the stream to the live phase, where each event
//! is displayed at once. Unknown labels are warned about and skipped;
//! malformed frames are dropped; neither ever stops the stream.
use vstd::prelude::*;

use crate::event::RelayEvent;
use crate::sorting::{history_order, sort_history};

verus! {

/// A phase of an event stream: history replay first, then live delivery.
#[derive(Clone, Copy, PartialEq, Eq, Structural)]
pub enum Phase {
    ReplayingHistory,
    Live,
}

/// The fields picked out of one inbound JSON frame, before any decision
/// is made on them.
pub struct RawFrame {
    /// The frame's first element: its label.
    pub label: Option<String>,
    /// The frame's second element, when it is text: a notice's message or
    /// a subscription identifier.
    pub text: Option<String>,
    /// The embedded event's identifier, as hexadecimal text bytes.
    pub id: Option<Vec<u8>>,
    /// The embedded event's author public key, as hexadecimal text bytes.
    pub pubkey: Option<Vec<u8>>,
    /// The embedded event's creation time, in unix seconds.
    pub created_at: Option<u64>,
    /// The embedded event's integer kind tag.
    pub kind: Option<u64>,
    /// The embedded event's content bytes.
    pub content: Option<Vec<u8>>,
}

/// One classified inbound frame.
pub enum Frame {
    /// An event addressed to the subscription.
    Event(RelayEvent),
    /// The end-of-stored-events marker.
    EndOfStoredEvents,
    /// A relay diagnostic to surface to the user.
    Notice(String),
    /// A receipt for a published event; ignored.
    OkReceipt,
    /// A frame with an unrecognized label, to warn about and skip.
    Unknown(String),
    /// A frame without the structure its label demands, to drop.
    Malformed,
}

/// The raw fields that one frame's JSON text parses to: the result of
/// reading the tuple's first two elements and the embedded event
/// object's fields, a function of the text alone.
pub uninterp spec fn raw_fields_of(text: Seq<char>) -> RawFrame;

/// Relies on serde_json::from_str and serde_json::Value's indexing (an
/// absent element or field indexes to null): picks the raw fields out of
/// one frame's JSON text. Every decision on them is made by `classify`.
#[verifier::external_body]
fn read_frame_fields(text: &str) -> (r: RawFrame)
    ensures
        r == raw_fields_of(text@),
{
    let v: serde_json::Value = serde_json::from_str(text).unwrap_or(serde_json::Value::Null);
    RawFrame {
        label: v[0].as_str().map(|s| s.to_string()),
        text: v[1].as_str().map(|s| s.to_string()),
        id: v[2]["id"].as_str().map(|s| s.as_bytes().to_vec()),
        pubkey: v[2]["pubkey"].as_str().map(|s| s.as_bytes().to_vec()),
        created_at: v[2]["created_at"].as_u64(),
        kind: v[2]["kind"].as_u64(),
        content: v[2]["content"].as_str().map(|s| s.as_bytes().to_vec()),
    }
}

/// The frame a set of raw fields denotes: an event label demands every
/// event field; a notice demands its message; the two bare markers need
/// nothing further; every other label is unknown.
pub open spec fn classified(raw: RawFrame) -> Frame {
    if raw.label is None {
        Frame::Malformed
    } else {
        let label = raw.label->Some_0;
        if label@ == "EVENT"@ {
            if raw.id is Some && raw.pubkey is Some && raw.created_at is Some && raw.kind is Some
                && raw.content is Some {
                Frame::Event(
                    RelayEvent {
                        id: raw.id->Some_0,
                        author_public_key: raw.pubkey->Some_0,
                        created_at: raw.created_at->Some_0,
                        kind: raw.kind->Some_0,
                        content: raw.content->Some_0,
                    },
                )
            } else {
                Frame::Malformed
            }
        } else if label@ == "EOSE"@ {
            Frame::EndOfStoredEvents
        } else if label@ == "NOTICE"@ {
            if raw.text is Some {
                Frame::Notice(raw.text->Some_0)
            } else {
                Frame::Malformed
            }
        } else if label@ == "OK"@ {
            Frame::OkReceipt
        } else {
            Frame::Unknown(label)
        }
    }
}

/// Classifies a set of raw frame fields.
pub fn classify(raw: RawFrame) -> (f: Frame)
    ensures
        f == classified(raw),
{
    let label = match raw.label {
        Some(l) => l,
        None => {
            return Frame::Malformed;
        },
    };
    let event_label: String = "EVENT".to_owned();
    let eose_label: String = "EOSE".to_owned();
    let notice_label: String = "NOTICE".to_owned();
    let ok_label: String = "OK".to_owned();
    if label == event_label {
        match (raw.id, raw.pubkey, raw.created_at, raw.kind, raw.content) {
            (Some(id), Some(pubkey), Some(created_at), Some(kind), Some(content)) => Frame::Event(
                RelayEvent { id, author_public_key: pubkey, created_at, kind, content },
            ),
            _ => Frame::Malformed,
        }
    } else if label == eose_label {
        Frame::EndOfStoredEvents
    } else if label == notice_label {
        match raw.text {
            Some(t) => Frame::Notice(t),
            None => Frame::Malformed,
        }
    } else if label == ok_label {
        Frame::OkReceipt
    } else {
        Frame::Unknown(label)
    }
}

/// Reads one frame's JSON text into its classified form. The raw fields
/// come from the trusted JSON reader under their name; everything
/// decided on them is verified in `classify`.
pub fn decode_frame_text(text: &str) -> (f: Frame)
    ensures
        f == classified(raw_fields_of(text@)),
{
    classify(read_frame_fields(text))
}

/// What the consumer of one frame should do next.
pub enum StreamAction {
    /// Nothing to show.
    DoNothing,
    /// Display these buffered events, in this order.
    FlushHistory(Vec<RelayEvent>),
    /// Display this one event now.
    DisplayLive(RelayEvent),
    /// Surface a relay diagnostic.
    ShowNotice(String),
    /// Warn about an unrecognized frame label.
    WarnUnknown(String),
    /// Drop a malformed frame with a diagnostic.
    DropMalformed,
}

/// The phase after consuming one frame: the end-of-stored-events marker
/// ends history replay; nothing else ever changes the phase, and the
/// live phase is never left.
pub open spec fn next_phase(p: Phase, f: Frame) -> Phase {
    if p is ReplayingHistory && f is EndOfStoredEvents {
        Phase::Live
    } else {
        p
    }
}

/// How one frame carries a stream from one state to the next, and what
/// the consumer is told to do: the whole observable behavior of
/// `process_frame`.
pub open spec fn stream_step(
    pre: EventStream,
    post: EventStream,
    f: Frame,
    suppress: Option<Seq<u8>>,
    a: StreamAction,
) -> bool {
    &&& post.phase == next_phase(pre.phase, f)
    &&& match f {
        Frame::Event(e) => if pre.phase is ReplayingHistory {
            &&& post.buffer@ == pre.buffer@.push(e)
            &&& a is DoNothing
        } else {
            &&& post.buffer@ == pre.buffer@
            &&& match suppress {
                Some(k) => if e.author_public_key@ == k {
                    a is DoNothing
                } else {
                    a == StreamAction::DisplayLive(e)
                },
                None => a == StreamAction::DisplayLive(e),
            }
        },
        Frame::EndOfStoredEvents => if pre.phase is ReplayingHistory {
            &&& post.buffer@ == Seq::<RelayEvent>::empty()
            &&& a matches StreamAction::FlushHistory(h) && h@ == history_order(pre.buffer@)
        } else {
            &&& post.buffer@ == pre.buffer@
            &&& a is DoNothing
        },
        Frame::Notice(s) => post.buffer@ == pre.buffer@ && a == StreamAction::ShowNotice(s),
        Frame::OkReceipt => post.buffer@ == pre.buffer@ && a is DoNothing,
        Frame::Unknown(l) => post.buffer@ == pre.buffer@ && a == StreamAction::WarnUnknown(l),
        Frame::Malformed => post.buffer@ == pre.buffer@ && a is DropMalformed,
    }
}

/// The replay-then-live state machine of one subscription.
pub struct EventStream {
    /// The current phase.
    pub phase: Phase,
    /// The events buffered during history replay, in arrival order.
    pub buffer: Vec<RelayEvent>,
}

impl EventStream {
    /// A fresh stream: replaying history, nothing buffered.
    pub fn new() -> (r: EventStream)
        ensures
            r.phase is ReplayingHistory,
            r.buffer@ == Seq::<RelayEvent>::empty(),
    {
        EventStream { phase: Phase::ReplayingHistory, buffer: Vec::new() }
    }

    /// Consumes one classified frame.
    ///
    /// During history replay an event is buffered; the marker flushes the
    /// buffer in display order and moves to the live phase. Live events
    /// are displayed at once, in arrival order, except that an event
    /// authored by `suppress` (a channel session's local identity) is
    /// silently dropped. A repeated marker, and every receipt, is a
    /// no-op; notices, unknown labels and malformed frames are surfaced,
    /// warned about and dropped respectively, and never stop the stream.
    pub fn process_frame(&mut self, f: Frame, suppress: Option<&Vec<u8>>) -> (a: StreamAction)
        ensures
            stream_step(
                *old(self),
                *final(self),
                f,
                match suppress {
                    Some(k) => Some(k@),
                    None => None,
                },
                a,
            ),
    {
        match f {
            Frame::Event(e) => {
                match self.phase {
                    Phase::ReplayingHistory => {
                        self.buffer.push(e);
                        StreamAction::DoNothing
                    },
                    Phase::Live => {
                        match suppress {
                            Some(k) => {
                                if bytes_eq(&e.author_public_key, k) {
                                    StreamAction::DoNothing
                                } else {
                                    StreamAction::DisplayLive(e)
                                }
                            },
                            None => StreamAction::DisplayLive(e),
                        }
                    },
                }
            },
            Frame::EndOfStoredEvents => {
                match self.phase {
                    Phase::ReplayingHistory => {
                        self.phase = Phase::Live;
                        let mut buffered: Vec<RelayEvent> = Vec::new();
                        core::mem::swap(&mut buffered, &mut self.buffer);
                        StreamAction::FlushHistory(sort_history(buffered))
                    },
                    Phase::Live => StreamAction::DoNothing,
                }
            },
            Frame::Notice(s) => StreamAction::ShowNotice(s),
            Frame::OkReceipt => StreamAction::DoNothing,
            Frame::Unknown(l) => StreamAction::WarnUnknown(l),
            Frame::Malformed => StreamAction::DropMalformed,
        }
    }
}

/// Whether two byte strings are equal.
pub fn bytes_eq(a: &Vec<u8>, b: &Vec<u8>) -> (r: bool)
    ensures
        r == (a@ == b@),
{
    if a.len() != b.len() {
        proof {
            assert(a@ != b@);
        }
        return false;
    }
    let mut i: usize = 0;
    while i < a.len()
        invariant
            a@.len() == b@.len(),
            i <= a@.len(),
            forall|k: int| 0 <= k < i ==> a@[k] == b@[k],
        decreases a@.len() - i,
    {
        if a[i] != b[i] {
            proof {
                assert(a@ != b@);
            }
            return false;
        }
        i = i + 1;
    }
    proof {
        assert(a@ =~= b@);
    }
    true
}

/// Law: the end-of-stored-events marker moves a stream from history
/// replay to the live phase, and that transition happens exactly once: in
/// the live phase no frame — the marker included — ever changes the phase
/// again.
pub proof fn lemma_eose_transitions_once(f: Frame)
    ensures
        next_phase(Phase::ReplayingHistory, Frame::EndOfStoredEvents) is Live,
        next_phase(Phase::Live, f) is Live,
        !(f is EndOfStoredEvents) ==> next_phase(Phase::ReplayingHistory, f)
            is ReplayingHistory,
{
}

/// Law: an unknown frame label is warned about and skipped, and nothing
/// more: whatever the phase and whether or not a local identity is
/// suppressed, the stream's phase and buffer are untouched, so the next
/// frame is processed as if the unknown one had never come.
pub proof fn lemma_unknown_label_skipped(
    pre: EventStream,
    post: EventStream,
    l: String,
    suppress: Option<Seq<u8>>,
    a: StreamAction,
)
    requires
        stream_step(pre, post, Frame::Unknown(l), suppress, a),
    ensures
        post.phase == pre.phase,
        post.buffer@ == pre.buffer@,
        a == StreamAction::WarnUnknown(l),
{
}

} // verus!
