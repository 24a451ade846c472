//! HID reports, report descriptors and USB device logic of a keyboard firmware.

pub mod descriptor;
pub mod hid;
pub mod hires;
pub mod host_view;
pub mod led;
pub mod report_maps;
pub mod state;
pub mod usb;
pub mod wire;
