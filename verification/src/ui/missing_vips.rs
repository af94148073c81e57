//! The blocking screen shown when no usable `vips` was found.

use vstd::prelude::*;

verus! {

/// What the user asked for on this frame.
#[derive(Debug, Clone, PartialEq, Eq)]
pub enum Action {
    /// Nothing this frame.
    Idle,
    /// Re-run discovery (e.g. after installing libvips in another window).
    Retry,
    /// Use this executable from now on.
    UseExecutable(String),
}

} // verus!
