//! Error taxonomy of the adapter.

use vstd::prelude::*;

verus! {

/// An error surfaced by the adapter itself. Native status codes are not
/// errors of the adapter: they are relayed to the embedder verbatim.
#[derive(Clone, Copy, Debug, PartialEq, Eq, Structural)]
pub enum AdapterError {
    /// Native allocation or registration failed at construction; the facade
    /// is unusable and can only be dropped. Carries the native status code.
    Init { status: i32 },
    /// An operation was issued outside a valid lifecycle state; a programmer
    /// error, never retried.
    Precondition,
    /// A payload received from the native side is not a valid encoding of the
    /// expected message shape; fatal for the single callback that carried it.
    Decode,
}

} // verus!
