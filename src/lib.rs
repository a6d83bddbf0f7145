//! Contract logic for an NFT auction house and for chain-of-custody tracing
//! of consigned items across linked contract instances.
//!
//! Every state transition is a verified function from the current state, the
//! caller's request and the reports of peer contracts to the next state and
//! the reply; the host around it supplies storage, time and peer calls.

pub mod auction;
pub mod consignment;
pub mod delivery;
pub mod network;
pub mod payment;
