//! The error link chain.
//!
//! A chain is a head frame followed by what the frame continues into: either
//! the end of the chain, which holds the stack snapshot captured when the
//! chain was started, or an earlier frame whose payload has been turned into
//! text. Only the head keeps its payload in its own type.

use crate::convert::converts_to;
use crate::render::{render_frames, rendering, views};
use crate::snapshot::reads_as;
use crate::text::{texts_as, Textual};
use std::backtrace::Backtrace;
use vstd::prelude::*;

verus! {

/// What a frame continues into.
#[derive(Debug)]
pub enum NextLink {
    /// The chain ends here, with the snapshot captured when it was started.
    Terminal(Backtrace),
    /// An earlier frame follows. Its payload is text.
    Linked(Box<ErrorLink_<String>>),
}

/// A frame at the head of a chain: its payload, and what it continues into.
#[derive(Debug)]
pub struct ErrorLink_<Payload: Textual>(pub Payload, pub NextLink);

/// The label that starts the line of a frame.
pub open spec fn frame_label() -> Seq<char> {
    "Frame "@
}

/// Renders a chain from the texts of its frames, `head` first and then
/// `rest` in order, and from the text of its snapshot.
pub fn render_texts(head: &str, rest: &Vec<String>, snapshot_text: &str) -> (out: String)
    ensures
        out@ == rendering(frame_label(), seq![head@] + views(rest@), snapshot_text@),
{
    render_frames("Frame ", head, rest, snapshot_text)
}

impl NextLink {
    /// The texts of the frames that follow, nearest first.
    pub open spec fn texts(&self) -> Seq<Seq<char>>
        decreases self,
    {
        match self {
            NextLink::Terminal(_) => Seq::empty(),
            NextLink::Linked(link) => seq![link.0@] + link.1.texts(),
        }
    }

    /// The snapshot at the end of the chain.
    pub open spec fn snapshot(&self) -> Backtrace
        decreases self,
    {
        match self {
            NextLink::Terminal(snapshot) => *snapshot,
            NextLink::Linked(link) => link.1.snapshot(),
        }
    }

    /// This continuation is `origin` with zero or more frames put before it.
    pub open spec fn extends(&self, origin: &NextLink) -> bool
        decreases self,
    {
        self == origin || (self matches NextLink::Linked(link) && link.1.extends(origin))
    }
}

impl<Payload: Textual> ErrorLink_<Payload> {
    /// The number of frames in the chain.
    pub open spec fn depth(&self) -> nat {
        1 + self.1.texts().len()
    }

    /// The snapshot at the end of the chain.
    pub open spec fn snapshot(&self) -> Backtrace {
        self.1.snapshot()
    }

    /// This chain is `under` with one frame put before it: the frame after
    /// the head holds a text form of `under`'s head payload and continues as
    /// `under` did.
    pub open spec fn links<Under: Textual>(&self, under: &ErrorLink_<Under>) -> bool {
        self.1 matches NextLink::Linked(next) && texts_as(&under.0, next.0) && next.1 == under.1
    }

    /// This chain continues as `under` does: behind the head, the frames and
    /// the snapshot are those of `under`.
    pub open spec fn continues_as<Under: Textual>(&self, under: &ErrorLink_<Under>) -> bool {
        self.1 == under.1
    }

    /// This chain is one frame put before a chain just started from `value`:
    /// the frame after the head holds a text form of `value` and ends the
    /// chain.
    pub open spec fn links_value<Value: Textual>(&self, value: &Value) -> bool {
        self.1 matches NextLink::Linked(next) && texts_as(value, next.0) && next.1 is Terminal
    }

    /// `out` is the rendered form of this chain, given that its snapshot
    /// reads `snapshot_text`.
    pub open spec fn renders_with(&self, out: Seq<char>, snapshot_text: Seq<char>) -> bool {
        exists|head: String| #[trigger]
            texts_as(&self.0, head) && out == rendering(
                frame_label(),
                seq![head@] + self.1.texts(),
                snapshot_text,
            )
    }

    /// `out` is a rendered form of this chain: its frame lines, then the
    /// snapshot block with a text form of its snapshot.
    pub open spec fn renders_as(&self, out: Seq<char>) -> bool {
        exists|snapshot_text: String| #[trigger]
            reads_as(self.snapshot(), snapshot_text) && self.renders_with(out, snapshot_text@)
    }

    /// Starts a chain: one frame with the given payload, ending in a snapshot
    /// captured now.
    pub fn new(error_payload: impl Into<Payload>) -> (chain: Self)
        ensures
            converts_to(error_payload, chain.0),
            chain.1 is Terminal,
            chain.depth() == 1,
    {
        ErrorLink_(error_payload.into(), NextLink::Terminal(Backtrace::capture()))
    }

    /// Swaps the head payload for another and keeps what the chain continues
    /// into, snapshot included.
    pub fn replace<NewPayload: Textual>(self, error_payload: impl Into<NewPayload>) -> (chain:
        ErrorLink_<NewPayload>)
        ensures
            converts_to(error_payload, chain.0),
            chain.continues_as(&self),
            chain.depth() == self.depth(),
            chain.snapshot() == self.snapshot(),
    {
        ErrorLink_(error_payload.into(), self.1)
    }

    /// Puts a new frame before the chain. The old head payload is turned into
    /// text; the snapshot is carried over, not captured again.
    pub fn link<ToPayload: Textual>(self, error_payload: impl Into<ToPayload>) -> (chain:
        ErrorLink_<ToPayload>)
        ensures
            converts_to(error_payload, chain.0),
            chain.links(&self),
            chain.1.extends(&self.1),
            chain.depth() == self.depth() + 1,
            chain.snapshot() == self.snapshot(),
    {
        assert(self.1.extends(&self.1));
        let linker = Self::link_fn(error_payload);
        linker(self)
    }

    /// The function that puts a frame with the given payload before the chain
    /// it is applied to, as [`ErrorLink_::link`] does.
    pub fn link_fn<ToPayload: Textual>(error_payload: impl Into<ToPayload>) -> (linker: impl FnOnce(
        Self,
    ) -> ErrorLink_<ToPayload>)
        ensures
            forall|under: Self| call_requires(linker, (under,)),
            forall|under: Self, chain: ErrorLink_<ToPayload>| #[trigger]
                call_ensures(linker, (under,), chain) ==> converts_to(error_payload, chain.0)
                    && chain.links(&under),
    {
        move |underlying_error: Self| -> (chain: ErrorLink_<ToPayload>)
            ensures
                converts_to(error_payload, chain.0),
                chain.links(&underlying_error),
            {
                let next_link = Box::new(
                    ErrorLink_(underlying_error.0.to_text(), underlying_error.1),
                );
                ErrorLink_(error_payload.into(), NextLink::Linked(next_link))
            }
    }

    /// Converts the head payload into another type and keeps what the chain
    /// continues into.
    pub fn as_link<ToPayload: From<Payload> + Textual>(self) -> (chain: ErrorLink_<ToPayload>)
        ensures
            converts_to(self.0, chain.0),
            chain.continues_as(&self),
            chain.depth() == self.depth(),
            chain.snapshot() == self.snapshot(),
    {
        ErrorLink_(self.0.into(), self.1)
    }

    /// The frame after the head, if there is one.
    pub fn source(&self) -> (next: Option<&ErrorLink_<String>>)
        ensures
            match self.1 {
                NextLink::Terminal(_) => next is None,
                NextLink::Linked(link) => next == Some(&*link),
            },
    {
        match &self.1 {
            NextLink::Terminal(_) => None,
            NextLink::Linked(next_link) => Some(&**next_link),
        }
    }

    /// Walks the chain from its head to its end: the text of the head, the
    /// texts of the frames after it, and the snapshot the chain ends in.
    fn walk(&self) -> (found: (String, Vec<String>, &Backtrace))
        ensures
            texts_as(&self.0, found.0),
            views(found.1@) == self.1.texts(),
            *found.2 == self.snapshot(),
    {
        let head = self.0.to_text();
        let mut rest: Vec<String> = Vec::new();
        let mut next_link = &self.1;
        assert(views(rest@) + next_link.texts() =~= self.1.texts());
        loop
            invariant
                texts_as(&self.0, head),
                views(rest@) + next_link.texts() == self.1.texts(),
                next_link.snapshot() == self.1.snapshot(),
            decreases next_link,
        {
            match next_link {
                NextLink::Terminal(snapshot) => {
                    assert(views(rest@) + next_link.texts() =~= views(rest@));
                    return (head, rest, snapshot);
                },
                NextLink::Linked(link) => {
                    let ghost before = views(rest@);
                    rest.push(link.0.clone());
                    assert(views(rest@) + link.1.texts() =~= before + next_link.texts());
                    next_link = &link.1;
                },
            }
        }
    }

    /// The texts of the frames, head first.
    pub fn frame_texts(&self) -> (texts: Vec<String>)
        ensures
            texts@.len() == self.depth(),
            texts_as(&self.0, texts@[0]),
            views(texts@).drop_first() == self.1.texts(),
    {
        let (head, mut rest, _) = self.walk();
        let mut texts: Vec<String> = Vec::new();
        texts.push(head);
        texts.append(&mut rest);
        assert(views(texts@).drop_first() =~= self.1.texts());
        texts
    }

    /// Renders the chain with `snapshot_text` in the place of its snapshot:
    /// a line `Frame <position>: <text>` for each frame, head first, then the
    /// snapshot block, labelled with the position of the last frame.
    pub fn render_with(&self, snapshot_text: &str) -> (out: String)
        ensures
            self.renders_with(out@, snapshot_text@),
    {
        let (head, rest, _) = self.walk();
        render_texts(head.as_str(), &rest, snapshot_text)
    }

    /// Renders the chain: its frame lines, then its snapshot.
    pub fn render(&self) -> (out: String)
        ensures
            self.renders_as(out@),
    {
        let (head, rest, snapshot) = self.walk();
        let snapshot_text = snapshot.to_string();
        let out = render_texts(head.as_str(), &rest, snapshot_text.as_str());
        assert(reads_as(self.snapshot(), snapshot_text) && self.renders_with(
            out@,
            snapshot_text@,
        ));
        out
    }
}

impl ErrorLink_<String> {
    /// The texts of the frames of a chain whose head is text, head first.
    pub open spec fn frames(&self) -> Seq<Seq<char>> {
        seq![self.0@] + self.1.texts()
    }

    /// This chain was just started from `value`: a single frame that holds a
    /// text form of it.
    pub open spec fn starts_from<Value: Textual>(&self, value: &Value) -> bool {
        texts_as(value, self.0) && self.1 is Terminal
    }

    /// Starts a chain whose payload is a message.
    pub fn new_string(error_message: impl Into<String>) -> (chain: Self)
        ensures
            converts_to(error_message, chain.0),
            chain.1 is Terminal,
            chain.depth() == 1,
    {
        ErrorLink_(error_message.into(), NextLink::Terminal(Backtrace::capture()))
    }
}

/// Linking for a value that is not a chain yet.
///
/// The value becomes the text of a frame that ends the chain, with a snapshot
/// captured at that moment. For a value that is a chain already, the methods
/// of [`ErrorLink_`] are the ones to call: they keep the chain's snapshot.
pub trait ErrorLinkable<Payload: Textual>: Textual + Sized {
    /// Starts a chain from the value and puts a frame with the given payload
    /// before it.
    fn link<I: Into<Payload>>(self, error_payload: I) -> ErrorLink_<Payload>;

    /// Starts a chain from the value alone.
    fn as_link(self) -> ErrorLink_<Payload>;
}

impl<T: Textual> ErrorLinkable<String> for T {
    fn link<I: Into<String>>(self, error_message: I) -> (chain: ErrorLink_<String>)
        ensures
            converts_to(error_message, chain.0),
            chain.links_value(&self),
            chain.depth() == 2,
    {
        let linker = link_fn::<T>(error_message);
        let chain = linker(self);
        assert(chain.1->Linked_0.1.texts().len() == 0);
        chain
    }

    fn as_link(self) -> (chain: ErrorLink_<String>)
        ensures
            chain.starts_from(&self),
            chain.depth() == 1,
    {
        ErrorLink_(self.to_text(), NextLink::Terminal(Backtrace::capture()))
    }
}

/// The function that starts a chain from the value it is applied to and puts
/// a frame with the given message before it, as [`ErrorLinkable::link`] does.
pub fn link_fn<T: Textual>(error_message: impl Into<String>) -> (linker: impl FnOnce(
    T,
) -> ErrorLink_<String>)
    ensures
        forall|value: T| call_requires(linker, (value,)),
        forall|value: T, chain: ErrorLink_<String>| #[trigger]
            call_ensures(linker, (value,), chain) ==> converts_to(error_message, chain.0)
                && chain.links_value(&value),
{
    move |underlying_error: T| -> (chain: ErrorLink_<String>)
        ensures
            converts_to(error_message, chain.0),
            chain.links_value(&underlying_error),
        {
            let next_link = Box::new(
                ErrorLink_(underlying_error.to_text(), NextLink::Terminal(Backtrace::capture())),
            );
            ErrorLink_(error_message.into(), NextLink::Linked(next_link))
        }
}

} // verus!
