//! Short forms of linking on the error of a `Result`.

use crate::convert::converts_to;
use crate::error_link_::{ErrorLink_, ErrorLinkable};
use crate::linkable_results::LinkableResult1of2;
use crate::text::{texts_as, Textual};
use vstd::prelude::*;

verus! {

/// `me_l` links and `me_al` turns into a chain, whatever the error is: a
/// chain already, or a value that starts one.
pub trait ResultExt<OkVariant, ToPayload: Textual> {
    /// Puts a frame with the given payload before the error.
    fn me_l<I: Into<ToPayload>>(self, error_payload: I) -> Result<OkVariant, ErrorLink_<ToPayload>>;

    /// Makes the error a chain.
    fn me_al(self) -> Result<OkVariant, ErrorLink_<ToPayload>>;
}

impl<OkVariant, ErrorVariant: Textual> ResultExt<OkVariant, String> for Result<
    OkVariant,
    ErrorVariant,
> {
    /// The error starts a chain, with a snapshot captured now, and the frame
    /// is put before it.
    fn me_l<I: Into<String>>(self, error_payload: I) -> (linked: Result<
        OkVariant,
        ErrorLink_<String>,
    >)
        ensures
            match (self, linked) {
                (Ok(value), Ok(kept)) => kept == value,
                (Err(error), Err(chain)) => converts_to(error_payload, chain.0)
                    && chain.links_value(&error) && chain.depth() == 2,
                _ => false,
            },
    {
        match self {
            Ok(value) => Ok(value),
            Err(e) => Err(e.link(error_payload)),
        }
    }

    /// The error starts a chain, with a snapshot captured now.
    fn me_al(self) -> (linked: Result<OkVariant, ErrorLink_<String>>)
        ensures
            match (self, linked) {
                (Ok(value), Ok(kept)) => kept == value,
                (Err(error), Err(chain)) => chain.starts_from(&error) && chain.depth() == 1,
                _ => false,
            },
    {
        match self {
            Ok(value) => Ok(value),
            Err(e) => Err(e.as_link()),
        }
    }
}

impl<OkVariant, FromPayload: Textual> ResultExt<OkVariant, String> for Result<
    OkVariant,
    ErrorLink_<FromPayload>,
> {
    /// The frame is put before the chain, which keeps its snapshot.
    fn me_l<I: Into<String>>(self, error_payload: I) -> (linked: Result<
        OkVariant,
        ErrorLink_<String>,
    >)
        ensures
            match (self, linked) {
                (Ok(value), Ok(kept)) => kept == value,
                (Err(under), Err(chain)) => converts_to(error_payload, chain.0) && chain.links(
                    &under,
                ) && chain.depth() == under.depth() + 1 && chain.snapshot() == under.snapshot(),
                _ => false,
            },
    {
        self.me_link(error_payload)
    }

    /// The head payload is turned into text; the chain continues as before.
    fn me_al(self) -> (linked: Result<OkVariant, ErrorLink_<String>>)
        ensures
            match (self, linked) {
                (Ok(value), Ok(kept)) => kept == value,
                (Err(under), Err(chain)) => texts_as(&under.0, chain.0) && chain.continues_as(
                    &under,
                ),
                _ => false,
            },
    {
        self.me_as_slink()
    }
}

} // verus!
