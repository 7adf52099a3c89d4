//! The rendered form of a chain.
//!
//! A chain is written out as one line per frame, head first, each line
//! numbered by the frame's position, followed by a single block for the
//! stack snapshot, labelled with the position of the last frame.

use crate::text::{decimal, decimal_text};
use vstd::prelude::*;
use vstd::string::StringExecFns;

verus! {

/// The views of a sequence of strings.
pub open spec fn views(texts: Seq<String>) -> Seq<Seq<char>> {
    texts.map_values(|s: String| s@)
}

/// The line of one frame: label, position, a colon and a space, the frame's
/// text, and a line feed.
pub open spec fn frame_line(label: Seq<char>, index: nat, text: Seq<char>) -> Seq<char> {
    label + decimal(index) + ": "@ + text + "\n"@
}

/// The lines of the frames `texts`, in order, each numbered by its position.
pub open spec fn frame_lines(label: Seq<char>, texts: Seq<Seq<char>>) -> Seq<char>
    decreases texts.len(),
{
    if texts.len() == 0 {
        Seq::empty()
    } else {
        frame_lines(label, texts.drop_last()) + frame_line(
            label,
            (texts.len() - 1) as nat,
            texts.last(),
        )
    }
}

/// The line that introduces the snapshot of a chain whose last frame has
/// position `index`.
pub open spec fn snapshot_label(index: nat) -> Seq<char> {
    "Approximate backtrace of link no. "@ + decimal(index) + ":\n"@
}

/// The rendered form of a chain with frames `texts` (at least one) whose
/// snapshot reads `snapshot_text`.
pub open spec fn rendering(
    label: Seq<char>,
    texts: Seq<Seq<char>>,
    snapshot_text: Seq<char>,
) -> Seq<char> {
    frame_lines(label, texts) + snapshot_label((texts.len() - 1) as nat) + snapshot_text
}

/// The lines of a single frame are the line of position 0.
pub proof fn lemma_frame_lines_one(label: Seq<char>, text: Seq<char>)
    ensures
        frame_lines(label, seq![text]) == frame_line(label, 0, text),
{
    let texts = seq![text];
    assert(texts.drop_last() =~= Seq::<Seq<char>>::empty());
    assert(frame_lines(label, texts.drop_last()) =~= Seq::<char>::empty());
    assert(frame_lines(label, texts) =~= frame_line(label, 0, text));
}

/// A frame added at the end adds its line, numbered by its position, at the
/// end.
pub proof fn lemma_frame_lines_push(label: Seq<char>, texts: Seq<Seq<char>>, text: Seq<char>)
    ensures
        frame_lines(label, texts.push(text)) == frame_lines(label, texts) + frame_line(
            label,
            texts.len(),
            text,
        ),
{
    assert(texts.push(text).drop_last() =~= texts);
}

/// Appends the line of the frame at position `index`.
fn append_frame_line(out: &mut String, label: &str, index: usize, text: &str)
    ensures
        final(out)@ == old(out)@ + frame_line(label@, index as nat, text@),
{
    let position = decimal_text(index as u128);
    out.append(label);
    out.append(position.as_str());
    out.append(": ");
    out.append(text);
    out.append("\n");
    assert(out@ =~= old(out)@ + frame_line(label@, index as nat, text@));
}

/// Renders a chain from the texts of its frames, `head` first and then
/// `rest` in order, and from the text of its snapshot: one line for each
/// frame, then the snapshot block, labelled with the position of the last
/// frame.
pub fn render_frames(label: &str, head: &str, rest: &Vec<String>, snapshot_text: &str) -> (out:
    String)
    ensures
        out@ == rendering(label@, seq![head@] + views(rest@), snapshot_text@),
{
    let ghost texts = seq![head@] + views(rest@);
    let mut out = String::new();
    append_frame_line(&mut out, label, 0, head);
    proof {
        lemma_frame_lines_one(label@, head@);
        assert(seq![head@] + views(rest@).take(0) =~= seq![head@]);
    }
    let mut i: usize = 0;
    while i < rest.len()
        invariant
            i <= rest.len(),
            out@ == frame_lines(label@, seq![head@] + views(rest@).take(i as int)),
        decreases rest.len() - i,
    {
        proof {
            let done = seq![head@] + views(rest@).take(i as int);
            lemma_frame_lines_push(label@, done, rest@[i as int]@);
            assert(done.push(rest@[i as int]@) =~= seq![head@] + views(rest@).take(i + 1));
        }
        append_frame_line(&mut out, label, i + 1, rest[i].as_str());
        i += 1;
    }
    assert(seq![head@] + views(rest@).take(i as int) =~= texts);
    let last = decimal_text(rest.len() as u128);
    out.append("Approximate backtrace of link no. ");
    out.append(last.as_str());
    out.append(":\n");
    out.append(snapshot_text);
    assert(out@ =~= rendering(label@, texts, snapshot_text@));
    out
}

} // verus!
