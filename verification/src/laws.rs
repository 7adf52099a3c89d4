//! What holds of every chain.
//!
//! The lemmas speak of chains through the predicates that the operations
//! promise: `links` for what [`ErrorLink_::link`] returns, `continues_as` for
//! [`ErrorLink_::replace`], `starts_from` for [`ErrorLinkable::as_link`],
//! `renders_with` and `renders_as` for the rendered form.
//!
//! [`ErrorLinkable::as_link`]: crate::ErrorLinkable::as_link

use crate::error_link_::{frame_label, ErrorLink_, NextLink};
use crate::render::{
    frame_line, frame_lines, lemma_frame_lines_one, lemma_frame_lines_push, rendering,
    snapshot_label,
};
use crate::snapshot::reads_as;
use crate::text::{decimal, texts_as, Textual};
use vstd::prelude::*;

verus! {

/// The line of the frame at position 0 or 1, written out.
proof fn lemma_first_lines(text: Seq<char>)
    ensures
        frame_line(frame_label(), 0, text) == "Frame 0: "@ + text + "\n"@,
        frame_line(frame_label(), 1, text) == "Frame 1: "@ + text + "\n"@,
        snapshot_label(0) == "Approximate backtrace of link no. 0:\n"@,
        snapshot_label(1) == "Approximate backtrace of link no. 1:\n"@,
{
    reveal_strlit("Frame ");
    reveal_strlit(": ");
    reveal_strlit("Frame 0: ");
    reveal_strlit("Frame 1: ");
    reveal_strlit("Approximate backtrace of link no. ");
    reveal_strlit(":\n");
    reveal_strlit("Approximate backtrace of link no. 0:\n");
    reveal_strlit("Approximate backtrace of link no. 1:\n");
    assert(decimal(0) =~= seq!['0']);
    assert(decimal(1) =~= seq!['1']);
    assert(frame_line(frame_label(), 0, text) =~= "Frame 0: "@ + text + "\n"@);
    assert(frame_line(frame_label(), 1, text) =~= "Frame 1: "@ + text + "\n"@);
    assert(snapshot_label(0) =~= "Approximate backtrace of link no. 0:\n"@);
    assert(snapshot_label(1) =~= "Approximate backtrace of link no. 1:\n"@);
}

/// A chain whose head is text renders as its frames say: one line for each of
/// them, head first, and one snapshot block after the last.
pub proof fn lemma_text_chain_renders(
    chain: ErrorLink_<String>,
    out: Seq<char>,
    snapshot_text: Seq<char>,
)
    requires
        chain.renders_with(out, snapshot_text),
    ensures
        chain.frames().len() == chain.depth(),
        out == rendering(frame_label(), chain.frames(), snapshot_text),
{
    let head = choose|head: String| #[trigger]
        texts_as(&chain.0, head) && out == rendering(
            frame_label(),
            seq![head@] + chain.1.texts(),
            snapshot_text,
        );
    assert(head@ == chain.0@);
}

/// Linking onto a new chain. For all texts `a` and `b`: the chain started
/// with `a`, with `b` linked before it, renders as the line `Frame 0: b`, the
/// line `Frame 1: a`, and one snapshot block, labelled 1.
pub proof fn lemma_link_onto_new_renders(
    base: ErrorLink_<String>,
    top: ErrorLink_<String>,
    out: Seq<char>,
    snapshot_text: Seq<char>,
)
    requires
        base.1 is Terminal,
        top.links(&base),
        top.renders_with(out, snapshot_text),
    ensures
        top.depth() == 2,
        top.snapshot() == base.snapshot(),
        out == "Frame 0: "@ + top.0@ + "\n"@ + "Frame 1: "@ + base.0@ + "\n"@
            + "Approximate backtrace of link no. 1:\n"@ + snapshot_text,
{
    let head = choose|head: String| #[trigger]
        texts_as(&top.0, head) && out == rendering(
            frame_label(),
            seq![head@] + top.1.texts(),
            snapshot_text,
        );
    let next = top.1->Linked_0;
    assert(next.1.texts() =~= Seq::<Seq<char>>::empty());
    let texts = seq![head@] + top.1.texts();
    assert(texts =~= seq![top.0@].push(base.0@));
    lemma_frame_lines_push(frame_label(), seq![top.0@], base.0@);
    lemma_frame_lines_one(frame_label(), top.0@);
    lemma_first_lines(top.0@);
    lemma_first_lines(base.0@);
    assert(out =~= "Frame 0: "@ + top.0@ + "\n"@ + "Frame 1: "@ + base.0@ + "\n"@
        + "Approximate backtrace of link no. 1:\n"@ + snapshot_text);
}

/// Linking keeps what a chain was built on: if `under` extends `origin`, so
/// does a chain that links `under`. A replacement keeps the continuation as
/// it is.
pub proof fn lemma_link_extends<Under: Textual, Payload: Textual>(
    origin: NextLink,
    under: ErrorLink_<Under>,
    chain: ErrorLink_<Payload>,
)
    requires
        under.1.extends(&origin),
        chain.links(&under) || chain.continues_as(&under),
    ensures
        chain.1.extends(&origin),
{
}

/// What extends a continuation ends in the same snapshot, and holds no fewer
/// frames.
pub proof fn lemma_extends_keeps_snapshot(trail: NextLink, origin: NextLink)
    requires
        trail.extends(&origin),
    ensures
        trail.snapshot() == origin.snapshot(),
        trail.texts().len() >= origin.texts().len(),
    decreases trail,
{
    if trail != origin {
        let next = trail->Linked_0;
        lemma_extends_keeps_snapshot(next.1, origin);
    }
}

/// Exactly one snapshot. A chain built on `origin` by any number of links and
/// replacements ends in the snapshot of `origin`; what it renders as is its
/// frame lines followed by one snapshot block, which is labelled with the
/// position of its last frame and holds a text form of that snapshot.
pub proof fn lemma_one_snapshot<Origin: Textual, Payload: Textual>(
    origin: ErrorLink_<Origin>,
    chain: ErrorLink_<Payload>,
    out: Seq<char>,
)
    requires
        chain.1.extends(&origin.1),
        chain.renders_as(out),
    ensures
        chain.snapshot() == origin.snapshot(),
        chain.depth() >= origin.depth(),
        exists|head: String, snapshot_text: String|
            #![trigger texts_as(&chain.0, head), reads_as(origin.snapshot(), snapshot_text)]
            texts_as(&chain.0, head) && reads_as(origin.snapshot(), snapshot_text) && out
                == frame_lines(frame_label(), seq![head@] + chain.1.texts()) + snapshot_label(
                (chain.depth() - 1) as nat,
            ) + snapshot_text@,
{
    lemma_extends_keeps_snapshot(chain.1, origin.1);
    let snapshot_text = choose|snapshot_text: String| #[trigger]
        reads_as(chain.snapshot(), snapshot_text) && chain.renders_with(out, snapshot_text@);
    let head = choose|head: String| #[trigger]
        texts_as(&chain.0, head) && out == rendering(
            frame_label(),
            seq![head@] + chain.1.texts(),
            snapshot_text@,
        );
    assert(texts_as(&chain.0, head) && reads_as(origin.snapshot(), snapshot_text) && out
        == frame_lines(frame_label(), seq![head@] + chain.1.texts()) + snapshot_label(
        (chain.depth() - 1) as nat,
    ) + snapshot_text@);
}

/// The depth law: a link adds exactly one frame, a replacement none.
pub proof fn lemma_depth_law<Under: Textual, Linked: Textual, Replaced: Textual>(
    under: ErrorLink_<Under>,
    linked: ErrorLink_<Linked>,
    replaced: ErrorLink_<Replaced>,
)
    requires
        linked.links(&under),
        replaced.continues_as(&under),
    ensures
        linked.depth() == under.depth() + 1,
        replaced.depth() == under.depth(),
{
}

/// Round trip. A chain just started from a value has one frame, which holds
/// a text form of the value, and renders as the line `Frame 0:` with that
/// text and one snapshot block, labelled 0.
pub proof fn lemma_as_link_renders<Value: Textual>(
    value: Value,
    chain: ErrorLink_<String>,
    out: Seq<char>,
    snapshot_text: Seq<char>,
)
    requires
        chain.starts_from(&value),
        chain.renders_with(out, snapshot_text),
    ensures
        chain.depth() == 1,
        texts_as(&value, chain.0),
        out == "Frame 0: "@ + chain.0@ + "\n"@ + "Approximate backtrace of link no. 0:\n"@
            + snapshot_text,
{
    let head = choose|head: String| #[trigger]
        texts_as(&chain.0, head) && out == rendering(
            frame_label(),
            seq![head@] + chain.1.texts(),
            snapshot_text,
        );
    assert(seq![head@] + chain.1.texts() =~= seq![chain.0@]);
    lemma_frame_lines_one(frame_label(), chain.0@);
    lemma_first_lines(chain.0@);
    assert(out =~= "Frame 0: "@ + chain.0@ + "\n"@ + "Approximate backtrace of link no. 0:\n"@
        + snapshot_text);
}

} // verus!
