//! Core of a minimal virtual-machine monitor: guest memory regions, guest code
//! placement, initial register state, the exit dispatcher and the supervisor's
//! lifecycle, each as verified logic over plain values. The host's
//! virtualization primitives are driven by the caller, which performs the
//! commands this library hands out and reports their outcomes back.
pub mod error;
pub mod region;
pub mod guest_code;
pub mod dispatch;
pub mod config;
pub mod supervisor;
