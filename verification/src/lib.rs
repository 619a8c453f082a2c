//! A local control-plane agent library for reloading a router's textual
//! configuration: the wire codec for the request/response frames, the
//! two-phase (validate, then apply) reload engine, the per-connection
//! session state machine, and the resolved command-line configuration.

use vstd::prelude::*;

pub mod args;
pub mod codec;
pub mod reload;
pub mod session;
pub mod text;

verus! {

/// Client-supplied identifier correlating a request to a configuration
/// generation; echoed back in the response and used to name the staged file.
pub type GenId = i64;

} // verus!
