//! Linking on the error of a `Result`.
//!
//! The methods leave an `Ok` as it is and work on the error of an `Err`.
//! Which impl applies is settled by the type of that error: one that is a
//! chain already keeps its snapshot, any other value starts a chain.

use crate::convert::converts_to;
use crate::error_link_::{ErrorLink_, NextLink};
use crate::text::{texts_as, Textual};
use std::backtrace::Backtrace;
use vstd::prelude::*;

verus! {

/// Linking and turning into a chain of text, on the error of a `Result`.
pub trait LinkableResult1of2<OkVariant> {
    /// Puts a frame with the given payload before the error.
    fn me_link<ToPayload: Textual, I: Into<ToPayload>>(self, error_payload: I) -> Result<
        OkVariant,
        ErrorLink_<ToPayload>,
    >;

    /// Makes the error a chain whose head payload is text.
    fn me_as_slink(self) -> Result<OkVariant, ErrorLink_<String>>;
}

impl<OkVariant, ErrorVariant: Textual> LinkableResult1of2<OkVariant> for Result<
    OkVariant,
    ErrorVariant,
> {
    /// The error starts a chain, with a snapshot captured now, and the frame
    /// is put before it.
    fn me_link<ToPayload: Textual, I: Into<ToPayload>>(self, error_payload: I) -> (linked: Result<
        OkVariant,
        ErrorLink_<ToPayload>,
    >)
        ensures
            match (self, linked) {
                (Ok(value), Ok(kept)) => kept == value,
                (Err(error), Err(chain)) => converts_to(error_payload, chain.0)
                    && chain.links_value(&error) && chain.depth() == 2,
                _ => false,
            },
    {
        match self {
            Ok(value) => Ok(value),
            Err(e) => {
                let next_link = Box::new(
                    ErrorLink_(e.to_text(), NextLink::Terminal(Backtrace::capture())),
                );
                assert(next_link.1.texts().len() == 0);
                Err(ErrorLink_(error_payload.into(), NextLink::Linked(next_link)))
            },
        }
    }

    /// The error starts a chain, with a snapshot captured now.
    fn me_as_slink(self) -> (linked: Result<OkVariant, ErrorLink_<String>>)
        ensures
            match (self, linked) {
                (Ok(value), Ok(kept)) => kept == value,
                (Err(error), Err(chain)) => chain.starts_from(&error) && chain.depth() == 1,
                _ => false,
            },
    {
        match self {
            Ok(value) => Ok(value),
            Err(e) => Err(ErrorLink_(e.to_text(), NextLink::Terminal(Backtrace::capture()))),
        }
    }
}

impl<OkVariant, FromPayload: Textual> LinkableResult1of2<OkVariant> for Result<
    OkVariant,
    ErrorLink_<FromPayload>,
> {
    /// The frame is put before the chain, which keeps its snapshot.
    fn me_link<ToPayload: Textual, I: Into<ToPayload>>(self, error_payload: I) -> (linked: Result<
        OkVariant,
        ErrorLink_<ToPayload>,
    >)
        ensures
            match (self, linked) {
                (Ok(value), Ok(kept)) => kept == value,
                (Err(under), Err(chain)) => converts_to(error_payload, chain.0) && chain.links(
                    &under,
                ) && chain.depth() == under.depth() + 1 && chain.snapshot() == under.snapshot(),
                _ => false,
            },
    {
        match self {
            Ok(value) => Ok(value),
            Err(e) => Err(e.link(error_payload)),
        }
    }

    /// The head payload is turned into text; the chain continues as before.
    fn me_as_slink(self) -> (linked: Result<OkVariant, ErrorLink_<String>>)
        ensures
            match (self, linked) {
                (Ok(value), Ok(kept)) => kept == value,
                (Err(under), Err(chain)) => texts_as(&under.0, chain.0) && chain.continues_as(
                    &under,
                ),
                _ => false,
            },
    {
        match self {
            Ok(value) => Ok(value),
            Err(e) => Err(ErrorLink_(e.0.to_text(), e.1)),
        }
    }
}

/// Converting the head payload of the error of a `Result`.
pub trait LinkableResult2of2<OkVariant, FromPayload: Textual> {
    /// Converts the head payload of the chain into another type.
    fn me_as_link<ToPayload: From<FromPayload> + Textual>(self) -> Result<
        OkVariant,
        ErrorLink_<ToPayload>,
    >;
}

impl<OkVariant, FromPayload: Textual> LinkableResult2of2<OkVariant, FromPayload> for Result<
    OkVariant,
    ErrorLink_<FromPayload>,
> {
    fn me_as_link<ToPayload: From<FromPayload> + Textual>(self) -> (linked: Result<
        OkVariant,
        ErrorLink_<ToPayload>,
    >)
        ensures
            match (self, linked) {
                (Ok(value), Ok(kept)) => kept == value,
                (Err(under), Err(chain)) => converts_to(under.0, chain.0) && chain.continues_as(
                    &under,
                ),
                _ => false,
            },
    {
        match self {
            Ok(value) => Ok(value),
            Err(e) => Err(e.as_link()),
        }
    }
}

impl<P: Textual> vstd::std_specs::convert::FromSpecImpl<P> for ErrorLink_<P> {
    /// The chain made holds a snapshot captured at the call, so it is not a
    /// function of the payload alone.
    open spec fn obeys_from_spec() -> bool {
        false
    }

    open spec fn from_spec(v: P) -> Self {
        ErrorLink_(v, NextLink::Terminal(arbitrary()))
    }
}

impl<P: Textual> From<P> for ErrorLink_<P> {
    /// Starts a chain with the value as its payload.
    fn from(value: P) -> (chain: Self)
        ensures
            chain.0 == value,
            chain.1 is Terminal,
    {
        ErrorLink_(value, NextLink::Terminal(Backtrace::capture()))
    }
}

} // verus!
