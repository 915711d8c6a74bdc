//! Adapter layer between a user-supplied cluster-scheduling policy and an
//! external resource-offer engine that is reached only through a C-style
//! callback interface.
//!
//! The crate verifies the three parts of that adapter that carry real risk:
//!
//! * marshalling of domain messages to and from the byte buffers the native
//!   side understands, including the length-prefixed framing used for
//!   collections ([`codec`], [`marshal`]);
//! * the dispatch registry that recovers the active policy and driver from
//!   the opaque context token echoed back on every callback ([`registry`]);
//! * the driver facade's lifecycle state machine and its data-plane
//!   operations ([`driver`]), together with the per-event dispatch adapters
//!   ([`trampoline`]).
//!
//! The native engine itself is not modelled here: every native call the
//! facade decides to make is emitted as a [`driver::NativeRequest`] value,
//! and the unverified embedding performs it and feeds results back.

pub mod codec;
pub mod driver;
pub mod errors;
pub mod marshal;
pub mod messages;
pub mod registry;
pub mod scheduler;
pub mod trampoline;
