//! The USB side of the device: answers to control requests, bus state, report writing and the
//! layout of the USB configuration.

pub mod config;
pub mod device;
pub mod handler;
pub mod writer;
