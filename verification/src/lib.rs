//! A verified duplex (playback + capture) audio core.
//!
//! The library negotiates hardware parameters against a device's capability
//! envelope, tracks each stream's lifecycle, and applies a bounded
//! xrun-recovery protocol to sample transfers. The native audio subsystem is
//! represented by an explicit device model ([`device::DeviceModel`]): a host
//! binding performs the actual driver calls and feeds their outcomes to the
//! decision functions in [`recovery`], while tests and the facade in
//! [`manager`] drive the very same logic against simulated devices.

pub mod device;
pub mod hwparams;
pub mod manager;
pub mod recovery;
pub mod stream;
