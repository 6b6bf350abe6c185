//! Virtual Router Redundancy Protocol, version 3.

pub mod checksum;
pub mod packet;
pub mod socket;
pub mod state_machine;
pub mod types;
