//! Control-plane core of a layer-4 load-balancer node: the VRRP state machine,
//! the health-check engine and the IPVS netlink codec, with their contracts.

pub mod buffer;
pub mod error;
pub mod ffi;
pub mod healthcheck;
pub mod ipvs;
pub mod net;
pub mod server;
pub mod text;
pub mod time;
pub mod vrrp;
