//! Stable per-author coloring and message formatting.
//!
//! Every author identity is lazily assigned one color from the fixed
//! eight-entry palette on first sighting; the assignment then never
//! changes for the rest of the session. The draw itself is injected by
//! the caller, so the assignment logic is deterministic and testable.
use vstd::prelude::*;

use crate::event::RelayEvent;
use crate::stream::bytes_eq;

verus! {

/// The number of colors in the palette; valid indices are 1 up to and
/// including this.
pub const PALETTE_SIZE: u8 = 8;

/// The deterministic text that a byte string displays as.
pub uninterp spec fn utf8_text_of(b: Seq<u8>) -> Seq<char>;

/// Relies on String::from_utf8_lossy: the displayed text is a function of
/// the bytes alone, and valid text is carried through unchanged.
#[verifier::external_body]
pub(crate) fn utf8_text(b: &Vec<u8>) -> (r: String)
    ensures
        r@ == utf8_text_of(b@),
{
    String::from_utf8_lossy(b).into_owned()
}

/// Relies on rand's thread-local generator: a palette draw. The draw is
/// random, so only its range is assumed.
pub fn draw_palette_index() -> (r: u8)
    ensures
        1 <= r && r <= PALETTE_SIZE,
{
    draw_from_thread_rng()
}

/// Relies on rand's gen_range: the result lies in the half-open range it
/// is given.
#[verifier::external_body]
fn draw_from_thread_rng() -> (r: u8)
    ensures
        1 <= r && r < PALETTE_SIZE,
{
    rand::Rng::gen_range(&mut rand::thread_rng(), 1..8)
}

/// Relies on colored's Colorize::green; the styling depends on the
/// terminal environment, so nothing is assumed of the result.
#[verifier::external_body]
fn style_green(s: &str) -> String {
    colored::Colorize::green(s).to_string()
}

/// Relies on colored's Colorize::red; as for the green styling.
#[verifier::external_body]
fn style_red(s: &str) -> String {
    colored::Colorize::red(s).to_string()
}

/// Relies on colored's Colorize::blue; as for the green styling.
#[verifier::external_body]
fn style_blue(s: &str) -> String {
    colored::Colorize::blue(s).to_string()
}

/// Relies on colored's Colorize::yellow; as for the green styling.
#[verifier::external_body]
fn style_yellow(s: &str) -> String {
    colored::Colorize::yellow(s).to_string()
}

/// Relies on colored's Colorize::cyan; as for the green styling.
#[verifier::external_body]
fn style_cyan(s: &str) -> String {
    colored::Colorize::cyan(s).to_string()
}

/// Relies on colored's Colorize::black; as for the green styling.
#[verifier::external_body]
fn style_black(s: &str) -> String {
    colored::Colorize::black(s).to_string()
}

/// Relies on colored's Colorize::white; as for the green styling.
#[verifier::external_body]
fn style_white(s: &str) -> String {
    colored::Colorize::white(s).to_string()
}

/// Relies on colored's Colorize::purple; as for the green styling.
#[verifier::external_body]
fn style_purple(s: &str) -> String {
    colored::Colorize::purple(s).to_string()
}

/// The color assigned to an author, if any: the first entry under that
/// key.
pub open spec fn color_lookup(entries: Seq<(Vec<u8>, u8)>, a: Seq<u8>) -> Option<u8>
    decreases entries.len(),
{
    if entries.len() == 0 {
        None
    } else if entries[0].0@ == a {
        Some(entries[0].1)
    } else {
        color_lookup(entries.drop_first(), a)
    }
}

/// Every assigned color lies in the palette.
pub open spec fn palette_entries(entries: Seq<(Vec<u8>, u8)>) -> bool {
    forall|k: int| 0 <= k < entries.len() ==> 1 <= (#[trigger] entries[k]).1
        && entries[k].1 <= PALETTE_SIZE
}

/// What a rendered line shows: some styled author prefix, then `": "`,
/// then the displayed text of the content bytes. The prefix is the
/// author's short form under terminal styling, which depends on the
/// environment, so it stays existential.
pub open spec fn line_shows(line: Seq<char>, content: Seq<u8>) -> bool {
    exists|prefix: Seq<char>| line == prefix + (": ")@ + utf8_text_of(content)
}

/// How rendering one author carries the color assignments from one state
/// to the next: an already assigned author changes nothing; a new author
/// appends exactly one entry, colored by the injected draw, so every
/// other author's assignment is untouched.
pub open spec fn colors_recorded(
    pre: Seq<(Vec<u8>, u8)>,
    post: Seq<(Vec<u8>, u8)>,
    author: Seq<u8>,
    draw: u8,
) -> bool {
    match color_lookup(pre, author) {
        Some(_) => post == pre,
        None => {
            &&& post.len() == pre.len() + 1
            &&& post.last().0@ == author
            &&& post.last().1 == draw
            &&& post.drop_last() == pre
        },
    }
}

/// Keeps the per-author color assignments of one session, together with
/// the local identity whose live events a channel session suppresses.
pub struct PrintingHandler {
    /// The assignments made so far, in assignment order.
    pub pubkeys_to_colors: Vec<(Vec<u8>, u8)>,
    /// The local identity's public key, as hexadecimal text bytes.
    pub public_key: Vec<u8>,
}

impl PrintingHandler {
    /// Every stored color lies in the palette.
    pub open spec fn wf(self) -> bool {
        palette_entries(self.pubkeys_to_colors@)
    }

    /// A fresh handler for a local identity: no assignments yet.
    pub fn new(public_key: Vec<u8>) -> (r: PrintingHandler)
        ensures
            r.wf(),
            r.pubkeys_to_colors@.len() == 0,
            r.public_key == public_key,
    {
        PrintingHandler { pubkeys_to_colors: Vec::new(), public_key }
    }

    /// Styles text in the palette color of the given index.
    pub fn get_corresponding_color(&self, input: &str, number: u8) -> String
        requires
            1 <= number && number <= PALETTE_SIZE,
    {
        if number == 1 {
            style_green(input)
        } else if number == 2 {
            style_red(input)
        } else if number == 3 {
            style_blue(input)
        } else if number == 4 {
            style_yellow(input)
        } else if number == 5 {
            style_cyan(input)
        } else if number == 6 {
            style_black(input)
        } else if number == 7 {
            style_white(input)
        } else {
            style_purple(input)
        }
    }

    /// The color of an author: the one already assigned if there is one,
    /// else the injected draw, which is recorded and stays the author's
    /// color from then on.
    pub fn color_for(&mut self, author: &Vec<u8>, draw: u8) -> (c: u8)
        requires
            old(self).wf(),
            1 <= draw && draw <= PALETTE_SIZE,
        ensures
            final(self).wf(),
            final(self).public_key == old(self).public_key,
            1 <= c && c <= PALETTE_SIZE,
            color_lookup(final(self).pubkeys_to_colors@, author@) == Some(c),
            match color_lookup(old(self).pubkeys_to_colors@, author@) {
                Some(c0) => {
                    &&& c == c0
                    &&& final(self).pubkeys_to_colors@ == old(self).pubkeys_to_colors@
                },
                None => {
                    &&& c == draw
                    &&& final(self).pubkeys_to_colors@.len() == old(self).pubkeys_to_colors@.len()
                        + 1
                    &&& final(self).pubkeys_to_colors@.last().0@ == author@
                    &&& final(self).pubkeys_to_colors@.last().1 == draw
                    &&& final(self).pubkeys_to_colors@.drop_last() == old(self).pubkeys_to_colors@
                },
            },
    {
        let n = self.pubkeys_to_colors.len();
        let mut i: usize = 0;
        while i < n
            invariant
                *self == *old(self),
                old(self).wf(),
                n == self.pubkeys_to_colors@.len(),
                i <= n,
                forall|k: int| 0 <= k < i ==> (#[trigger] self.pubkeys_to_colors@[k]).0@
                    != author@,
            decreases n - i,
        {
            if bytes_eq(&self.pubkeys_to_colors[i].0, author) {
                let c = self.pubkeys_to_colors[i].1;
                proof {
                    lemma_color_lookup_skip(self.pubkeys_to_colors@, author@, i as int);
                    assert(self.wf());
                }
                return c;
            }
            i = i + 1;
        }
        proof {
            lemma_color_lookup_skip(self.pubkeys_to_colors@, author@, n as int);
        }
        self.pubkeys_to_colors.push((author.clone(), draw));
        proof {
            lemma_color_lookup_skip(self.pubkeys_to_colors@, author@, n as int);
            assert(self.pubkeys_to_colors@.drop_last() =~= old(self).pubkeys_to_colors@);
        }
        draw
    }

    /// Formats one event for display: the author's shortened identity,
    /// styled in the author's stable color, then `": "`, then the
    /// content's text. An already assigned author's color map is left
    /// unchanged; a new author gets exactly one entry under the injected
    /// draw, other authors untouched.
    pub fn print_formatted_message(&mut self, content: &Vec<u8>, author: &Vec<u8>, draw: u8) -> (r:
        String)
        requires
            old(self).wf(),
            1 <= draw && draw <= PALETTE_SIZE,
        ensures
            final(self).wf(),
            final(self).public_key == old(self).public_key,
            color_lookup(final(self).pubkeys_to_colors@, author@) is Some,
            colors_recorded(
                old(self).pubkeys_to_colors@,
                final(self).pubkeys_to_colors@,
                author@,
                draw,
            ),
            line_shows(r@, content@),
    {
        let color = self.color_for(author, draw);
        let mut short: Vec<u8> = Vec::new();
        let mut i: usize = 0;
        while i < 8 && i < author.len()
            invariant
                i <= 8,
            decreases 8 - i,
        {
            short.push(author[i]);
            i = i + 1;
        }
        let styled = self.get_corresponding_color(utf8_text(&short).as_str(), color);
        let line = styled.concat(": ").concat(utf8_text(content).as_str());
        proof {
            assert(line@ == styled@ + (": ")@ + utf8_text_of(content@));
            assert(line_shows(line@, content@));
        }
        line
    }

    /// Renders flushed history events, one line per event in the given
    /// order — the stream's flush already supplies the display order
    /// (ascending by creation time, arrival order kept among equal
    /// timestamps), and the local identity is not suppressed during
    /// history replay. Each line shows its event's content after the
    /// styled author prefix; every rendered author ends with an assigned
    /// color. One injected draw is consumed per line.
    pub fn print_history(&mut self, history: Vec<RelayEvent>, draws: &Vec<u8>) -> (r: Vec<String>)
        requires
            old(self).wf(),
            draws@.len() == history@.len(),
            forall|k: int| 0 <= k < draws@.len() ==> 1 <= #[trigger] draws@[k] && draws@[k]
                <= PALETTE_SIZE,
        ensures
            final(self).wf(),
            final(self).public_key == old(self).public_key,
            r@.len() == history@.len(),
            forall|k: int| 0 <= k < r@.len() ==> line_shows(
                #[trigger] r@[k]@,
                history@[k].content@,
            ),
            forall|k: int| 0 <= k < history@.len() ==> color_lookup(
                final(self).pubkeys_to_colors@,
                (#[trigger] history@[k]).author_public_key@,
            ) is Some,
    {
        let mut lines: Vec<String> = Vec::new();
        let mut i: usize = 0;
        while i < history.len()
            invariant
                self.wf(),
                self.public_key == old(self).public_key,
                history@.len() == draws@.len(),
                forall|k: int| 0 <= k < draws@.len() ==> 1 <= #[trigger] draws@[k] && draws@[k]
                    <= PALETTE_SIZE,
                i <= history@.len(),
                lines@.len() == i,
                forall|k: int| 0 <= k < i ==> line_shows(
                    #[trigger] lines@[k]@,
                    history@[k].content@,
                ),
                forall|k: int| 0 <= k < i ==> color_lookup(
                    self.pubkeys_to_colors@,
                    (#[trigger] history@[k]).author_public_key@,
                ) is Some,
            decreases history@.len() - i,
        {
            let ghost pre = self.pubkeys_to_colors@;
            let line = self.print_formatted_message(
                &history[i].content,
                &history[i].author_public_key,
                draws[i],
            );
            proof {
                assert forall|k: int| 0 <= k < i implies color_lookup(
                    self.pubkeys_to_colors@,
                    (#[trigger] history@[k]).author_public_key@,
                ) is Some by {
                    lemma_colors_recorded_preserve(
                        pre,
                        self.pubkeys_to_colors@,
                        history@[i as int].author_public_key@,
                        draws@[i as int],
                        history@[k].author_public_key@,
                    );
                }
            }
            lines.push(line);
            i = i + 1;
        }
        lines
    }

    /// Renders one live event, suppressing the local identity's own
    /// events: an event authored by the handler's local key yields no
    /// line; any other author's line shows the event's content after the
    /// styled author prefix, under that author's stable color — an
    /// already assigned author's color map is unchanged, a new author
    /// gets exactly one entry under the injected draw.
    pub fn print_message(&mut self, event: &RelayEvent, draw: u8) -> (r: Option<String>)
        requires
            old(self).wf(),
            1 <= draw && draw <= PALETTE_SIZE,
        ensures
            final(self).wf(),
            final(self).public_key == old(self).public_key,
            (r is Some) == (event.author_public_key@ != old(self).public_key@),
            event.author_public_key@ == old(self).public_key@ ==> *final(self) == *old(self),
            event.author_public_key@ != old(self).public_key@ ==> color_lookup(
                final(self).pubkeys_to_colors@,
                event.author_public_key@,
            ) is Some && colors_recorded(
                old(self).pubkeys_to_colors@,
                final(self).pubkeys_to_colors@,
                event.author_public_key@,
                draw,
            ),
            r matches Some(line) ==> line_shows(line@, event.content@),
    {
        let own = bytes_eq(&event.author_public_key, &self.public_key);
        if own {
            None
        } else {
            Some(self.print_formatted_message(&event.content, &event.author_public_key, draw))
        }
    }
}

/// When no entry among the first `i` carries a key, the lookup result is
/// decided by the entries from `i` on.
proof fn lemma_color_lookup_skip(entries: Seq<(Vec<u8>, u8)>, a: Seq<u8>, i: int)
    requires
        0 <= i <= entries.len(),
        forall|k: int| 0 <= k < i ==> (#[trigger] entries[k]).0@ != a,
    ensures
        color_lookup(entries, a) == color_lookup(entries.skip(i), a),
    decreases i,
{
    if i > 0 {
        lemma_color_lookup_skip(entries, a, i - 1);
        assert(entries.skip(i - 1).drop_first() =~= entries.skip(i));
        assert(entries.skip(i - 1)[0] == entries[i - 1]);
    } else {
        assert(entries.skip(0) =~= entries);
    }
}

/// A lookup that succeeds on palette-kept entries yields a palette color.
proof fn lemma_color_lookup_palette(entries: Seq<(Vec<u8>, u8)>, a: Seq<u8>)
    requires
        palette_entries(entries),
    ensures
        color_lookup(entries, a) matches Some(c) ==> 1 <= c && c <= PALETTE_SIZE,
    decreases entries.len(),
{
    if entries.len() > 0 {
        assert(palette_entries(entries.drop_first()));
        lemma_color_lookup_palette(entries.drop_first(), a);
    }
}

/// Recording a new author's color leaves every other author's lookup
/// unchanged.
proof fn lemma_color_lookup_other(entries: Seq<(Vec<u8>, u8)>, entry: (Vec<u8>, u8), b: Seq<u8>)
    requires
        entry.0@ != b,
    ensures
        color_lookup(entries.push(entry), b) == color_lookup(entries, b),
    decreases entries.len(),
{
    let p = entries.push(entry);
    if entries.len() == 0 {
        assert(p.len() == 1);
        assert(p[0] == entry);
        assert(p.drop_first() =~= Seq::<(Vec<u8>, u8)>::empty());
        assert(color_lookup(p, b) == color_lookup(p.drop_first(), b));
        assert(color_lookup(p, b) is None);
    } else {
        assert(p[0] == entries[0]);
        if entries[0].0@ == b {
            assert(color_lookup(p, b) == Some(entries[0].1));
            assert(color_lookup(entries, b) == Some(entries[0].1));
        } else {
            lemma_color_lookup_other(entries.drop_first(), entry, b);
            assert(p.drop_first() =~= entries.drop_first().push(entry));
            assert(color_lookup(p, b) == color_lookup(p.drop_first(), b));
            assert(color_lookup(entries, b) == color_lookup(entries.drop_first(), b));
        }
    }
}

/// Recording one author's color never loses another author's
/// assignment.
proof fn lemma_colors_recorded_preserve(
    pre: Seq<(Vec<u8>, u8)>,
    post: Seq<(Vec<u8>, u8)>,
    author: Seq<u8>,
    draw: u8,
    b: Seq<u8>,
)
    requires
        colors_recorded(pre, post, author, draw),
        color_lookup(pre, b) is Some,
    ensures
        color_lookup(post, b) is Some,
{
    match color_lookup(pre, author) {
        Some(_) => {},
        None => {
            assert(post =~= pre.push(post.last()));
            if b == author {
                assert(false);
            } else {
                lemma_color_lookup_other(pre, post.last(), b);
            }
        },
    }
}

/// Law: each distinct author identity keeps exactly one color for the
/// session. A color once assigned lies in the palette whatever the
/// identity's content, an assigned author's lookup never changes when
/// another author is recorded, and a repeated draw for an assigned
/// author returns the recorded color.
pub proof fn lemma_color_assignment_stable(
    entries: Seq<(Vec<u8>, u8)>,
    entry: (Vec<u8>, u8),
    a: Seq<u8>,
    b: Seq<u8>,
)
    requires
        palette_entries(entries),
        entry.0@ != b,
    ensures
        color_lookup(entries, a) matches Some(c) ==> 1 <= c && c <= PALETTE_SIZE,
        color_lookup(entries.push(entry), b) == color_lookup(entries, b),
{
    lemma_color_lookup_palette(entries, a);
    lemma_color_lookup_other(entries, entry, b);
}

} // verus!
