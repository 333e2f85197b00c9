//! `daphne`: CMSIS-DAPv2 probe protocol, ADIv5 debug-port and access-port
//! register models, and the request/response logic that drives a probe.

pub mod bits;
pub mod packet;
pub mod general;
pub mod swd;
pub mod swj;
pub mod dp;
pub mod xfer;
pub mod ap;
pub mod mem_ap;
pub mod component;
pub mod proto;
pub mod swd_seq;
pub mod dap;
pub mod server;
pub mod capture;
pub mod parse;
pub mod aarch64;
pub mod usb;
