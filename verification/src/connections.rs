//! The unit that the proxy works on: one client and its upstream.

use vstd::prelude::*;

verus! {

/// One client stream and the upstream stream that serves it.
///
/// The two belong together for as long as they live: they are proxied,
/// handed over or closed as one, never one without the other. A pair has
/// one owner at a time, and every function that passes it on takes it by
/// value.
#[derive(Debug, PartialEq, Eq)]
pub struct SocketPair<S> {
    pub client: S,
    pub upstream: S,
}

} // verus!
