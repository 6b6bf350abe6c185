//! IPVS over generic netlink: the types of services and destinations, the
//! commands and attributes of the kernel interface, and the codec of its
//! messages.

pub mod attr;
pub mod commands;
pub mod manager;
pub mod messages;
pub mod netlink;
pub mod nla;
pub mod types;
pub mod wire;
