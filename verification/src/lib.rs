use vstd::prelude::*;

pub mod addr;
pub mod csp;
pub mod error;
pub mod keyed;
pub mod models;
pub mod port_allocator;
pub mod registry;
pub mod store;
pub mod swarm_daemon;
pub mod tapplet_server;

verus! {

/// Authentication material handed to a tapplet when it is launched.
pub struct Tokens {
    pub auth: String,
    pub permission: String,
}

} // verus!
