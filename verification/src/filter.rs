//! Subscription filters and the subscribe frame on the wire.
//!
//! A subscribe frame is the ordered tuple `["REQ", id, filter]` as JSON
//! text. The filter carries the recognized keys `kinds`, `ids`, `#e` and
//! `authors`, every one optional. Subscription identifiers come from a
//! counter and are never reused within a connection.
use vstd::prelude::*;
use vstd::string::StringSliceAdditionalSpecFns;

use crate::event::RelayEvent;

verus! {

/// The integer kind tag of a channel message.
pub const CHANNEL_MESSAGE_KIND: u64 = 42;

/// The integer kind tag of a private message.
pub const PRIVATE_MESSAGE_KIND: u64 = 420;

/// The integer kind tag of a channel-creation event.
pub const CHANNEL_CREATION_KIND: u64 = 40;

/// A subscription filter: which kinds, event identifiers, referenced
/// events and authors a subscription asks for. Absent sets do not
/// restrict. Identifiers and keys are hexadecimal text bytes.
pub struct Filter {
    pub kinds: Option<Vec<u64>>,
    pub ids: Option<Vec<Vec<u8>>>,
    pub event_refs: Option<Vec<Vec<u8>>>,
    pub authors: Option<Vec<Vec<u8>>>,
}

/// The filter of a channel session: exactly the channel-message kind,
/// restricted to events referencing the channel's root event.
pub fn channel_filter(root_event: &RelayEvent) -> (f: Filter)
    ensures
        f.kinds matches Some(ks) && ks@ == seq![CHANNEL_MESSAGE_KIND],
        f.event_refs matches Some(rs) && rs@.len() == 1 && rs@[0]@ == root_event.id@,
        f.ids is None,
        f.authors is None,
{
    let mut kinds: Vec<u64> = Vec::new();
    kinds.push(CHANNEL_MESSAGE_KIND);
    let mut refs: Vec<Vec<u8>> = Vec::new();
    refs.push(root_event.id.clone());
    proof {
        assert(kinds@ =~= seq![CHANNEL_MESSAGE_KIND]);
    }
    Filter { kinds: Some(kinds), ids: None, event_refs: Some(refs), authors: None }
}

/// The filter of a private session: exactly the private-message kind.
/// Author and recipient filtering is left to client-side decoding.
pub fn private_filter() -> (f: Filter)
    ensures
        f.kinds matches Some(ks) && ks@ == seq![PRIVATE_MESSAGE_KIND],
        f.ids is None,
        f.event_refs is None,
        f.authors is None,
{
    let mut kinds: Vec<u64> = Vec::new();
    kinds.push(PRIVATE_MESSAGE_KIND);
    proof {
        assert(kinds@ =~= seq![PRIVATE_MESSAGE_KIND]);
    }
    Filter { kinds: Some(kinds), ids: None, event_refs: None, authors: None }
}

/// The decimal text of an integer, most significant digit first.
pub open spec fn decimal_digits(n: u64) -> Seq<u8>
    decreases n,
{
    if n < 10 {
        seq![(48 + n) as u8]
    } else {
        decimal_digits(n / 10).push((48 + n % 10) as u8)
    }
}

/// Appends the decimal text of an integer.
pub fn push_decimal(out: &mut Vec<u8>, n: u64)
    ensures
        final(out)@ == old(out)@ + decimal_digits(n),
    decreases n,
{
    if n < 10 {
        out.push(48 + n as u8);
        proof {
            assert(out@ =~= old(out)@ + decimal_digits(n));
        }
    } else {
        push_decimal(out, n / 10);
        out.push(48 + (n % 10) as u8);
        proof {
            assert(out@ =~= old(out)@ + decimal_digits(n));
        }
    }
}

/// Appends the bytes of an ASCII literal.
pub fn push_lit(out: &mut Vec<u8>, s: &str)
    ensures
        final(out)@ == old(out)@ + s.spec_bytes(),
{
    let b: &[u8] = s.as_bytes();
    let mut i: usize = 0;
    while i < b.len()
        invariant
            i <= b@.len(),
            b@ == s.spec_bytes(),
            out@ =~= old(out)@ + b@.take(i as int),
        decreases b@.len() - i,
    {
        out.push(b[i]);
        i = i + 1;
        proof {
            assert(out@ =~= old(out)@ + b@.take(i as int));
        }
    }
    proof {
        assert(b@.take(b@.len() as int) =~= b@);
    }
}

/// Appends one byte string.
pub fn push_bytes(out: &mut Vec<u8>, s: &Vec<u8>)
    ensures
        final(out)@ == old(out)@ + s@,
{
    let mut i: usize = 0;
    while i < s.len()
        invariant
            i <= s@.len(),
            out@ =~= old(out)@ + s@.take(i as int),
        decreases s@.len() - i,
    {
        out.push(s[i]);
        i = i + 1;
        proof {
            assert(out@ =~= old(out)@ + s@.take(i as int));
        }
    }
    proof {
        assert(s@.take(s@.len() as int) =~= s@);
    }
}

/// The JSON list text of a sequence of integers: decimal, comma-joined.
pub open spec fn json_int_list(ks: Seq<u64>) -> Seq<u8>
    decreases ks.len(),
{
    if ks.len() == 0 {
        Seq::empty()
    } else if ks.len() == 1 {
        decimal_digits(ks[0])
    } else {
        json_int_list(ks.drop_last()) + (",").spec_bytes() + decimal_digits(ks.last())
    }
}

/// The JSON list text of a sequence of byte strings: quoted, comma-joined.
pub open spec fn json_text_list(xs: Seq<Seq<u8>>) -> Seq<u8>
    decreases xs.len(),
{
    if xs.len() == 0 {
        Seq::empty()
    } else if xs.len() == 1 {
        ("\"").spec_bytes() + xs[0] + ("\"").spec_bytes()
    } else {
        json_text_list(xs.drop_last()) + (",\"").spec_bytes() + xs.last() + ("\"").spec_bytes()
    }
}

/// The `kinds` key's text together with the filter object's opening
/// brace.
pub open spec fn part_kinds(f: Filter) -> Seq<u8>
    recommends
        f.kinds is Some,
{
    ("{\"kinds\":[").spec_bytes() + json_int_list(f.kinds->Some_0@) + ("]").spec_bytes()
}

/// The `ids` key's text, when the set is present.
pub open spec fn part_ids(f: Filter) -> Seq<u8> {
    if f.ids is Some {
        (",\"ids\":[").spec_bytes() + json_text_list(f.ids->Some_0.deep_view()) + ("]").spec_bytes()
    } else {
        Seq::<u8>::empty()
    }
}

/// The `#e` event-reference key's text, when the set is present.
pub open spec fn part_event_refs(f: Filter) -> Seq<u8> {
    if f.event_refs is Some {
        (",\"#e\":[").spec_bytes() + json_text_list(f.event_refs->Some_0.deep_view()) + (
        "]").spec_bytes()
    } else {
        Seq::<u8>::empty()
    }
}

/// The `authors` key's text, when the set is present.
pub open spec fn part_authors(f: Filter) -> Seq<u8> {
    if f.authors is Some {
        (",\"authors\":[").spec_bytes() + json_text_list(f.authors->Some_0.deep_view()) + (
        "]").spec_bytes()
    } else {
        Seq::<u8>::empty()
    }
}

/// The JSON text of a filter. The recognized keys appear in a fixed
/// order, each only when its set is present; hexadecimal contents need no
/// escaping.
pub open spec fn filter_json(f: Filter) -> Seq<u8>
    recommends
        f.kinds is Some,
{
    part_kinds(f) + part_ids(f) + part_event_refs(f) + part_authors(f) + ("}").spec_bytes()
}

/// The text of a whole subscribe frame.
pub open spec fn req_frame_json(sub_id: Seq<u8>, f: Filter) -> Seq<u8> {
    ("[\"REQ\",\"").spec_bytes() + sub_id + ("\",").spec_bytes() + filter_json(f) + ("]").spec_bytes()
}

/// Appends a comma-joined JSON integer list.
fn push_int_list(out: &mut Vec<u8>, ks: &Vec<u64>)
    ensures
        final(out)@ == old(out)@ + json_int_list(ks@),
{
    let mut i: usize = 0;
    while i < ks.len()
        invariant
            i <= ks@.len(),
            out@ =~= old(out)@ + json_int_list(ks@.take(i as int)),
        decreases ks@.len() - i,
    {
        if i > 0 {
            push_lit(out, ",");
        }
        push_decimal(out, ks[i]);
        i = i + 1;
        proof {
            assert(ks@.take(i as int).drop_last() =~= ks@.take(i as int - 1));
            assert(ks@.take(i as int).last() == ks@[i as int - 1]);
            assert(out@ =~= old(out)@ + json_int_list(ks@.take(i as int)));
        }
    }
    proof {
        assert(ks@.take(ks@.len() as int) =~= ks@);
    }
}

/// Appends a comma-joined JSON list of quoted byte strings.
fn push_text_list(out: &mut Vec<u8>, xs: &Vec<Vec<u8>>)
    ensures
        final(out)@ == old(out)@ + json_text_list(xs.deep_view()),
{
    let mut i: usize = 0;
    while i < xs.len()
        invariant
            i <= xs@.len(),
            out@ =~= old(out)@ + json_text_list(xs.deep_view().take(i as int)),
        decreases xs@.len() - i,
    {
        if i > 0 {
            push_lit(out, ",\"");
        } else {
            push_lit(out, "\"");
        }
        push_bytes(out, &xs[i]);
        push_lit(out, "\"");
        i = i + 1;
        proof {
            assert(xs.deep_view().take(i as int).drop_last() =~= xs.deep_view().take(i as int - 1));
            assert(xs.deep_view().take(i as int).last() == xs.deep_view()[i as int - 1]);
            assert(xs.deep_view()[i as int - 1] == xs@[i as int - 1]@);
            assert(out@ =~= old(out)@ + json_text_list(xs.deep_view().take(i as int)));
        }
    }
    proof {
        assert(xs.deep_view().take(xs.deep_view().len() as int) =~= xs.deep_view());
    }
}

/// Builds the JSON text of a filter.
#[verifier::rlimit(60)]
fn build_filter_json(f: &Filter) -> (r: Vec<u8>)
    requires
        f.kinds is Some,
    ensures
        r@ == filter_json(*f),
{
    let mut out: Vec<u8> = Vec::new();
    push_lit(&mut out, "{\"kinds\":[");
    match &f.kinds {
        Some(ks) => push_int_list(&mut out, ks),
        None => {},
    }
    push_lit(&mut out, "]");
    proof {
        assert(out@ =~= part_kinds(*f));
    }
    match &f.ids {
        Some(ids) => {
            push_lit(&mut out, ",\"ids\":[");
            push_text_list(&mut out, ids);
            push_lit(&mut out, "]");
        },
        None => {},
    }
    proof {
        assert(out@ =~= part_kinds(*f) + part_ids(*f));
    }
    match &f.event_refs {
        Some(rs) => {
            push_lit(&mut out, ",\"#e\":[");
            push_text_list(&mut out, rs);
            push_lit(&mut out, "]");
        },
        None => {},
    }
    proof {
        assert(out@ =~= part_kinds(*f) + part_ids(*f) + part_event_refs(*f));
    }
    match &f.authors {
        Some(aus) => {
            push_lit(&mut out, ",\"authors\":[");
            push_text_list(&mut out, aus);
            push_lit(&mut out, "]");
        },
        None => {},
    }
    push_lit(&mut out, "}");
    proof {
        assert(out@ =~= filter_json(*f));
    }
    out
}

/// Builds the text of the subscribe frame for a filter under a given
/// subscription identifier.
pub fn build_req_frame(sub_id: &Vec<u8>, f: &Filter) -> (r: Vec<u8>)
    requires
        f.kinds is Some,
    ensures
        r@ == req_frame_json(sub_id@, *f),
{
    let mut out: Vec<u8> = Vec::new();
    push_lit(&mut out, "[\"REQ\",\"");
    push_bytes(&mut out, sub_id);
    push_lit(&mut out, "\",");
    let filter_part = build_filter_json(f);
    push_bytes(&mut out, &filter_part);
    push_lit(&mut out, "]");
    proof {
        assert(out@ =~= req_frame_json(sub_id@, *f));
    }
    out
}

/// The text of the subscription identifier a counter value yields.
pub open spec fn sub_id_text(n: u64) -> Seq<u8> {
    ("sub-").spec_bytes() + decimal_digits(n)
}

/// A source of session-unique subscription identifiers: a counter whose
/// every draw is fresh, so an identifier is never reused within a
/// connection.
pub struct SubscriptionIdGen {
    /// The value the next identifier is drawn from; every lower value is
    /// already spent.
    pub counter: u64,
}

impl SubscriptionIdGen {
    /// A fresh source, starting from zero.
    pub fn new() -> (r: SubscriptionIdGen)
        ensures
            r.counter == 0,
    {
        SubscriptionIdGen { counter: 0 }
    }

    /// Draws the next identifier: the text of the current counter value,
    /// which is then spent for good.
    pub fn fresh(&mut self) -> (r: Vec<u8>)
        requires
            old(self).counter < u64::MAX,
        ensures
            r@ == sub_id_text(old(self).counter),
            final(self).counter == old(self).counter + 1,
    {
        let mut out: Vec<u8> = Vec::new();
        push_lit(&mut out, "sub-");
        push_decimal(&mut out, self.counter);
        self.counter = self.counter + 1;
        out
    }
}

/// The decimal text of distinct integers differs.
proof fn lemma_decimal_injective(a: u64, b: u64)
    requires
        a != b,
    ensures
        decimal_digits(a) != decimal_digits(b),
    decreases a + b,
{
    if a < 10 && b < 10 {
        assert(decimal_digits(a)[0] != decimal_digits(b)[0]);
    } else if a < 10 {
        assert(decimal_digits(b).len() == decimal_digits(b / 10).len() + 1);
        lemma_decimal_length_grows(b);
        assert(decimal_digits(a).len() == 1);
    } else if b < 10 {
        lemma_decimal_length_grows(a);
        assert(decimal_digits(b).len() == 1);
    } else {
        if a / 10 == b / 10 {
            assert(a % 10 != b % 10) by {
                vstd::arithmetic::div_mod::lemma_fundamental_div_mod(a as int, 10);
                vstd::arithmetic::div_mod::lemma_fundamental_div_mod(b as int, 10);
            }
            assert(decimal_digits(a).last() != decimal_digits(b).last());
        } else {
            lemma_decimal_injective(a / 10, b / 10);
            if decimal_digits(a).len() == decimal_digits(b).len() {
                assert(decimal_digits(a).drop_last() =~= decimal_digits(a / 10));
                assert(decimal_digits(b).drop_last() =~= decimal_digits(b / 10));
                if decimal_digits(a) == decimal_digits(b) {
                    assert(decimal_digits(a).drop_last() =~= decimal_digits(b).drop_last());
                    assert(false);
                }
            }
        }
    }
}

/// The decimal text of an integer is never empty.
proof fn lemma_decimal_nonempty(n: u64)
    ensures
        decimal_digits(n).len() >= 1,
    decreases n,
{
    if n >= 10 {
        lemma_decimal_nonempty(n / 10);
    }
}

/// The decimal text of an integer of two or more digits is longer than
/// one digit.
proof fn lemma_decimal_length_grows(n: u64)
    requires
        n >= 10,
    ensures
        decimal_digits(n).len() >= 2,
{
    lemma_decimal_nonempty(n / 10);
}

/// Law: subscription identifiers are never reused — the identifiers drawn
/// from two distinct counter values differ.
pub proof fn lemma_sub_ids_unique(a: u64, b: u64)
    requires
        a != b,
    ensures
        sub_id_text(a) != sub_id_text(b),
{
    lemma_decimal_injective(a, b);
    if sub_id_text(a) == sub_id_text(b) {
        let pre = ("sub-").spec_bytes();
        assert(sub_id_text(a).skip(pre.len() as int) =~= decimal_digits(a));
        assert(sub_id_text(b).skip(pre.len() as int) =~= decimal_digits(b));
        assert(false);
    }
}

} // verus!
