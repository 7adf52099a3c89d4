//! The stack snapshot that ends a chain.
//!
//! A snapshot is a `std::backtrace::Backtrace`. The library never looks
//! inside one: it captures it when a chain starts, carries it through every
//! later operation, and writes it out when the chain is rendered.

use std::backtrace::Backtrace;
use vstd::prelude::*;
use vstd::string::to_string_from_display_ensures;

verus! {

/// Declares `std::backtrace::Backtrace` as a type whose contents are not
/// reasoned about.
#[verifier::external_type_specification]
#[verifier::external_body]
pub struct ExBacktrace(Backtrace);

/// `std::backtrace::Backtrace::capture`. Nothing is claimed of the snapshot
/// it returns: what is captured depends on the call stack and on the
/// environment of the process.
pub assume_specification[ Backtrace::capture ]() -> (snapshot: Backtrace);

/// `text` is a text form of `snapshot`: a string that `to_string` returned
/// for it.
pub open spec fn reads_as(snapshot: Backtrace, text: String) -> bool {
    to_string_from_display_ensures::<Backtrace>(&snapshot, text)
}

} // verus!
