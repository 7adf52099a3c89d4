//! The chain in its first form.
//!
//! `ErrorChain` and `ErrorLink` are superseded by [`crate::ErrorLink_`] and
//! [`crate::NextLink`]; they remain for callers that name them. Every frame
//! after the head is a message held next to the link that follows it. Its
//! lines are labelled `Link no.`.

use crate::convert::converts_to;
use crate::render::{render_frames, rendering, views};
use crate::snapshot::reads_as;
use crate::text::{texts_as, Textual};
use std::backtrace::Backtrace;
use vstd::prelude::*;

verus! {

/// What the head of an [`ErrorChain`] continues into.
#[derive(Debug)]
pub enum ErrorLink {
    /// The chain ends here, with the snapshot captured when it was started.
    Severed(Backtrace),
    /// The message of an earlier frame, and what that frame continues into.
    Continued(String, Box<ErrorLink>),
}

/// The head of a chain in its first form: a payload, and what it continues
/// into.
#[derive(Debug)]
pub struct ErrorChain<T: Textual>(pub T, pub ErrorLink);

/// The label that starts the line of a frame of an [`ErrorChain`].
pub open spec fn link_label() -> Seq<char> {
    "Link no. "@
}

impl ErrorLink {
    /// The messages of the frames that follow, nearest first.
    pub open spec fn messages(&self) -> Seq<Seq<char>>
        decreases self,
    {
        match self {
            ErrorLink::Severed(_) => Seq::empty(),
            ErrorLink::Continued(message, next) => seq![message@] + next.messages(),
        }
    }

    /// The snapshot at the end of the chain.
    pub open spec fn snapshot(&self) -> Backtrace
        decreases self,
    {
        match self {
            ErrorLink::Severed(snapshot) => *snapshot,
            ErrorLink::Continued(_, next) => next.snapshot(),
        }
    }

    /// The end of a chain, with a snapshot captured now.
    pub fn severed() -> (link: Self)
        ensures
            link is Severed,
    {
        ErrorLink::Severed(Backtrace::capture())
    }

    /// A frame with the given message, followed by `next_link`.
    pub fn continued(
        error_message: impl Into<String>,
        next_link: impl Into<Box<ErrorLink>>,
    ) -> (link: Self)
        ensures
            link matches ErrorLink::Continued(message, next) && converts_to(error_message, message)
                && converts_to(next_link, next),
    {
        ErrorLink::Continued(error_message.into(), next_link.into())
    }
}

impl<T: Textual> vstd::std_specs::convert::FromSpecImpl<T> for ErrorChain<String> {
    /// The chain made holds a snapshot captured at the call, so it is not a
    /// function of the value alone.
    open spec fn obeys_from_spec() -> bool {
        false
    }

    open spec fn from_spec(v: T) -> Self {
        ErrorChain(arbitrary(), ErrorLink::Severed(arbitrary()))
    }
}

impl<T: Textual> From<T> for ErrorChain<String> {
    /// Starts a chain from the text of the value.
    fn from(value: T) -> (chain: Self)
        ensures
            chain.starts_from(&value),
    {
        ErrorChain(value.to_text(), ErrorLink::severed())
    }
}

impl<T: Textual> ErrorChain<T> {
    /// The number of frames in the chain.
    pub open spec fn depth(&self) -> nat {
        1 + self.1.messages().len()
    }

    /// The snapshot at the end of the chain.
    pub open spec fn snapshot(&self) -> Backtrace {
        self.1.snapshot()
    }

    /// `out` is the rendered form of this chain, given that its snapshot
    /// reads `snapshot_text`.
    pub open spec fn renders_with(&self, out: Seq<char>, snapshot_text: Seq<char>) -> bool {
        exists|head: String| #[trigger]
            texts_as(&self.0, head) && out == rendering(
                link_label(),
                seq![head@] + self.1.messages(),
                snapshot_text,
            )
    }

    /// `out` is a rendered form of this chain: its frame lines, then the
    /// snapshot block with a text form of its snapshot.
    pub open spec fn renders_as(&self, out: Seq<char>) -> bool {
        exists|snapshot_text: String| #[trigger]
            reads_as(self.snapshot(), snapshot_text) && self.renders_with(out, snapshot_text@)
    }

    /// Walks the chain from its head to its end: the text of the head, the
    /// messages of the frames after it, and the snapshot the chain ends in.
    fn walk(&self) -> (found: (String, Vec<String>, &Backtrace))
        ensures
            texts_as(&self.0, found.0),
            views(found.1@) == self.1.messages(),
            *found.2 == self.snapshot(),
    {
        let head = self.0.to_text();
        let mut rest: Vec<String> = Vec::new();
        let mut error_link = &self.1;
        assert(views(rest@) + error_link.messages() =~= self.1.messages());
        loop
            invariant
                texts_as(&self.0, head),
                views(rest@) + error_link.messages() == self.1.messages(),
                error_link.snapshot() == self.1.snapshot(),
            decreases error_link,
        {
            match error_link {
                ErrorLink::Severed(snapshot) => {
                    assert(views(rest@) + error_link.messages() =~= views(rest@));
                    return (head, rest, snapshot);
                },
                ErrorLink::Continued(error_message, next) => {
                    let ghost before = views(rest@);
                    rest.push(error_message.clone());
                    assert(views(rest@) + next.messages() =~= before + error_link.messages());
                    error_link = &**next;
                },
            }
        }
    }

    /// Renders the chain with `snapshot_text` in the place of its snapshot:
    /// a line `Link no. <position>: <text>` for each frame, head first, then
    /// the snapshot block, labelled with the position of the last frame.
    pub fn render_with(&self, snapshot_text: &str) -> (out: String)
        ensures
            self.renders_with(out@, snapshot_text@),
    {
        let (head, rest, _) = self.walk();
        render_frames("Link no. ", head.as_str(), &rest, snapshot_text)
    }

    /// Renders the chain: its frame lines, then its snapshot.
    pub fn render(&self) -> (out: String)
        ensures
            self.renders_as(out@),
    {
        let (head, rest, snapshot) = self.walk();
        let snapshot_text = snapshot.to_string();
        let out = render_frames("Link no. ", head.as_str(), &rest, snapshot_text.as_str());
        assert(reads_as(self.snapshot(), snapshot_text) && self.renders_with(
            out@,
            snapshot_text@,
        ));
        out
    }
}

impl ErrorChain<String> {
    /// This chain was just started from `value`: a single frame that holds a
    /// text form of it.
    pub open spec fn starts_from<Value: Textual>(&self, value: &Value) -> bool {
        texts_as(value, self.0) && self.1 is Severed
    }

    /// This chain is `under` with one frame put before it: the frame after
    /// the head holds a text form of `under`'s head payload and continues as
    /// `under` did.
    pub open spec fn adds<Under: Textual>(&self, under: &ErrorChain<Under>) -> bool {
        self.1 matches ErrorLink::Continued(held, next) && texts_as(&under.0, held) && *next
            == under.1
    }

    /// This chain is one frame put before a chain just started from `value`:
    /// the frame after the head holds a text form of `value` and ends the
    /// chain.
    pub open spec fn onboards<Value: Textual>(&self, value: &Value) -> bool {
        self.1 matches ErrorLink::Continued(held, next) && texts_as(value, held) && *next is Severed
    }

    /// This chain is `under` with one frame put before it: the frame after
    /// the head holds `under`'s head message itself and continues as `under`
    /// did.
    pub open spec fn links(&self, under: &ErrorChain<String>) -> bool {
        self.1 matches ErrorLink::Continued(held, next) && held == under.0 && *next == under.1
    }

    /// Starts a chain: one frame with the given message, ending in a snapshot
    /// captured now.
    pub fn start(error_message: impl Into<String>) -> (chain: Self)
        ensures
            converts_to(error_message, chain.0),
            chain.1 is Severed,
            chain.depth() == 1,
    {
        ErrorChain(error_message.into(), ErrorLink::severed())
    }

    /// Puts a frame with the given message before `current_chain`, whose head
    /// payload is turned into text.
    pub fn add<T: Textual>(
        error_message: impl Into<String>,
        current_chain: ErrorChain<T>,
    ) -> (chain: Self)
        ensures
            converts_to(error_message, chain.0),
            chain.adds(&current_chain),
            chain.depth() == current_chain.depth() + 1,
            chain.snapshot() == current_chain.snapshot(),
    {
        let adder = Self::add_fn(error_message);
        adder(current_chain)
    }

    /// The function that puts a frame with the given message before the
    /// chain it is applied to, as [`ErrorChain::add`] does.
    pub fn add_fn<T: Textual>(error_message: impl Into<String>) -> (adder: impl FnOnce(
        ErrorChain<T>,
    ) -> Self)
        ensures
            forall|under: ErrorChain<T>| call_requires(adder, (under,)),
            forall|under: ErrorChain<T>, chain: Self| #[trigger]
                call_ensures(adder, (under,), chain) ==> converts_to(error_message, chain.0)
                    && chain.adds(&under),
    {
        move |current_chain: ErrorChain<T>| -> (chain: Self)
            ensures
                converts_to(error_message, chain.0),
                chain.adds(&current_chain),
            {
                ErrorChain(
                    error_message.into(),
                    ErrorLink::continued(current_chain.0.to_text(), current_chain.1),
                )
            }
    }

    /// Starts a chain from `underlying_error`, with a snapshot captured now,
    /// and puts a frame with the given message before it.
    pub fn onboard<T: Textual>(error_message: impl Into<String>, underlying_error: T) -> (chain:
        Self)
        ensures
            converts_to(error_message, chain.0),
            chain.onboards(&underlying_error),
            chain.depth() == 2,
    {
        let onboarder = Self::onboard_fn(error_message);
        let chain = onboarder(underlying_error);
        assert(chain.1->Continued_1.messages().len() == 0);
        chain
    }

    /// The function that starts a chain from the value it is applied to and
    /// puts a frame with the given message before it, as
    /// [`ErrorChain::onboard`] does.
    pub fn onboard_fn<T: Textual>(error_message: impl Into<String>) -> (onboarder: impl FnOnce(
        T,
    ) -> Self)
        ensures
            forall|value: T| call_requires(onboarder, (value,)),
            forall|value: T, chain: Self| #[trigger]
                call_ensures(onboarder, (value,), chain) ==> converts_to(error_message, chain.0)
                    && chain.onboards(&value),
    {
        move |underlying_error: T| -> (chain: Self)
            ensures
                converts_to(error_message, chain.0),
                chain.onboards(&underlying_error),
            {
                ErrorChain(
                    error_message.into(),
                    ErrorLink::continued(
                        underlying_error.to_text(),
                        Box::new(ErrorLink::severed()),
                    ),
                )
            }
    }

    /// Puts a frame with the given message before what `current_chain`
    /// converts into: a chain as it is, another value as the chain started
    /// from it.
    pub fn link(error_message: impl Into<String>, current_chain: impl Into<Self>) -> (chain: Self)
        ensures
            converts_to(error_message, chain.0),
            exists|under: Self| #[trigger] converts_to(current_chain, under) && chain.links(&under),
    {
        let linker = Self::link_fn(error_message);
        linker(current_chain)
    }

    /// The function that puts a frame with the given message before what its
    /// argument converts into, as [`ErrorChain::link`] does.
    pub fn link_fn<T: Into<Self>>(error_message: impl Into<String>) -> (linker: impl FnOnce(
        T,
    ) -> Self)
        ensures
            forall|current: T| call_requires(linker, (current,)),
            forall|current: T, chain: Self| #[trigger]
                call_ensures(linker, (current,), chain) ==> converts_to(error_message, chain.0)
                    && (exists|under: Self| #[trigger]
                    converts_to(current, under) && chain.links(&under)),
    {
        move |current_chain: T| -> (chain: Self)
            ensures
                converts_to(error_message, chain.0),
                exists|under: Self| #[trigger]
                    converts_to(current_chain, under) && chain.links(&under),
            {
                let under: Self = current_chain.into();
                let ghost held = under;
                let chain = ErrorChain(
                    error_message.into(),
                    ErrorLink::continued(under.0, under.1),
                );
                assert(converts_to(current_chain, held) && chain.links(&held));
                chain
            }
    }
}

} // verus!
