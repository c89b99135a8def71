pub mod auction;
pub mod errors;
pub mod escrow;
pub mod hex_codec;
pub mod orchestrator;
pub mod registry;
pub mod secret;
pub mod subcall;
