//! Error chains that say what went wrong at each level.
//!
//! A call site attaches a message to a failure and keeps what led to it: each
//! link puts a frame before the chain, and earlier payloads become text. The
//! stack snapshot is captured once, where the chain starts, and is carried to
//! the end of every chain built on it.
//!
//! [`ErrorLink_`] is the chain, [`ErrorLinkable`] starts one from any value
//! that has a text form ([`Textual`]), and [`LinkableResult1of2`],
//! [`LinkableResult2of2`] and [`ResultExt`] do both on the error of a
//! `Result`. The module [`laws`] states what holds of every chain.

pub mod convert;
pub mod error_chain;
pub mod error_link_;
pub mod laws;
pub mod linkable_results;
pub mod render;
pub mod result_ext;
pub mod snapshot;
pub mod text;

pub use error_chain::{ErrorChain, ErrorLink};
pub use error_link_::{ErrorLink_, ErrorLinkable, NextLink};
pub use linkable_results::{LinkableResult1of2, LinkableResult2of2};
pub use result_ext::ResultExt;
pub use text::Textual;
