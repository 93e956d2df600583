//! The settings that the server reads from its configuration file.

use vstd::prelude::*;

verus! {

/// The content of the configuration file.
#[derive(Debug, Clone, PartialEq, Eq)]
pub struct IWConfiguration {
    /// The ports to listen on, one per station.
    pub ports: Vec<u16>,
    /// Seconds between two "alive" messages in the log.
    pub alive_message_intervall: u64,
}

} // verus!
