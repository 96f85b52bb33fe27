//! Control plane of a long-running trading daemon.
//!
//! The library covers the three parts of the daemon with real state-machine
//! and abstraction concerns: the shared risk gate (`risk`), the admin
//! request/response wire protocol (`protocol`, `codec`), and the
//! backend-agnostic persistence layer (`store`, `sql`). Socket, database and
//! HTTP plumbing live outside the library; every decision they act on is a
//! verified function in here.

use vstd::prelude::*;

pub mod codec;
pub mod paths;
pub mod protocol;
pub mod risk;
pub mod sql;
pub mod state;
pub mod store;
pub mod strutil;
pub mod supervisor;
mod sys;
pub mod trading;

pub use protocol::{AdminRequest, AdminResponse, AdminStatus};
pub use risk::{RiskGate, RiskState};
pub use store::{DatabaseBackend, Store, StoreError};

verus! {

/// Well-known filesystem path of the admin control socket, used when no
/// path is configured explicitly.
pub fn default_socket_path() -> (r: &'static str)
    ensures
        r@ == "/tmp/polymarket_bot.sock"@,
{
    "/tmp/polymarket_bot.sock"
}

} // verus!
