//! Orchestration of a collateral deposit against a lending program and its
//! companion farms program.
//!
//! A deposit is a fixed sequence of cross-program invocations. What matters
//! is the manifest of every sub-call: which accounts it receives, in which
//! slots, with which writable and signer flags, which program it targets and
//! which payload it carries. Any drift silently breaks the deposit, so the
//! tables of the manifest, the functions that build the sub-calls and the
//! rule that sequences them are verified. Only the invocation itself is left
//! to the host runtime.
//!
//! There are two orchestrators. The payload-driven one forwards opaque
//! payloads with fixed windows of a flat account list; the named-account one
//! selects accounts by name out of a bundle and builds the payloads itself.
//!
//! * [`layout`]: per operation, the slots, their flags and the target.
//! * [`window`]: per sub-call of the payload-driven deposit, its window.
//! * [`descriptor`]: the sub-call as the downstream program receives it.
//! * [`sequencer`]: what follows a sub-call's outcome, and what holds of
//!   every run.
//! * [`payload_driven`], [`named`]: the two orchestrators.
//! * [`host`]: the account handles and the invocation of the host runtime.

pub mod address;
pub mod descriptor;
pub mod error;
pub mod host;
pub mod layout;
pub mod named;
pub mod payload_driven;
pub mod sequencer;
pub mod window;

pub use crate::named::execute_named_operations;
pub use crate::payload_driven::{execute_kamino_operations, ExecuteKaminoOperations};
