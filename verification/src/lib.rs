//! Client-side session orchestration for wormhole-style file transfer.
//!
//! The crate models one transfer session as a phase machine: code generation,
//! receive negotiation, accept/reject decisions and progress reporting are
//! verified here, while the network collaborator performs the suspending work
//! between the verified steps.

use vstd::prelude::*;

mod code;
mod error;
mod paths;
mod types;
mod wormhole;

pub use code::is_valid_code;
pub use error::{map_connection_failure, map_io_failure, map_transfer_failure, WormholeError};
pub use paths::{file_name_for_offer, join_output_path};
pub use types::{ProgressEvent, ReceiveOffer};
pub use wormhole::{transfer_complete, SessionPhase, WormholeClient, DEFAULT_RELAY_SERVER};

verus! {

/// Greeting used to check that the bindings are alive.
pub fn hello() -> (r: String)
    ensures
        r@ == "Hello from wormhole-native!"@,
{
    String::from_str("Hello from wormhole-native!")
}

/// Adds two numbers; a basic liveness check for the binding layer.
pub fn add(a: u32, b: u32) -> (r: u32)
    requires
        a + b <= u32::MAX,
    ensures
        r == a + b,
{
    a + b
}

} // verus!
