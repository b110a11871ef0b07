//! Userspace control-plane client for the Xen hypervisor: the privileged-call
//! transport, the foreign-memory mapper with its fault-retry scan, and the
//! client half of the configuration-store wire protocol.
//!
//! Everything here computes on plain values; opening devices, mapping memory,
//! issuing ioctls and talking to the store socket happen in the program around
//! this library, which hands the results back in.

pub mod devmodel;
pub mod directory;
pub mod domain;
pub mod evtchn;
pub mod foreign;
pub mod guest;
pub mod page;
pub mod privcmd;
pub mod queue;
pub mod retry;
pub mod sys;
pub mod store;
pub mod sysctl;
pub mod wire;
