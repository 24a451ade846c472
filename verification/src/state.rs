//! The state that the USB stack publishes and the rest of the firmware reads.

use vstd::prelude::*;

use crate::hires::Multipliers;

verus! {

/// How far the USB device has come on the bus.
#[derive(Debug, Clone, Copy, PartialEq, Eq, Structural)]
pub enum UsbState {
    /// No bus power, or the stack is switched off.
    Disabled,
    /// Powered, but no host has configured the device.
    Enabled,
    /// A host has configured the device.
    Configured,
    /// A host that had configured the device has suspended the bus.
    Suspended,
}

/// The transports a report can leave over.
#[derive(Debug, Clone, Copy, PartialEq, Eq, Structural)]
pub enum ConnectionType {
    Usb,
    Ble,
}

/// Whether reports may be routed to USB. A suspended host stays reachable for remote wakeup, so
/// it counts as ready; a device that no host has enumerated does not.
pub open spec fn spec_usb_ready(usb: UsbState) -> bool {
    usb == UsbState::Configured || usb == UsbState::Suspended
}

/// Whether reports may be routed to USB.
pub fn usb_ready(usb: UsbState) -> (ready: bool)
    ensures
        ready == spec_usb_ready(usb),
{
    match usb {
        UsbState::Configured | UsbState::Suspended => true,
        UsbState::Disabled | UsbState::Enabled => false,
    }
}

/// What the USB side of the device publishes: its bus state and the scroll resolution that the
/// host has negotiated over it.
#[derive(Debug, Clone, Copy)]
pub struct DeviceState {
    pub usb: UsbState,
    pub multipliers: Multipliers,
}

/// What [`DeviceState`] stands for.
pub ghost struct Published {
    pub usb: UsbState,
    /// Whether the host has selected hi-res scrolling for the wheel and for the pan axis.
    pub selected: (bool, bool),
}

impl View for DeviceState {
    type V = Published;

    open spec fn view(&self) -> Published {
        Published { usb: self.usb, selected: self.multipliers@ }
    }
}

impl DeviceState {
    /// The state at power-on.
    pub fn new() -> (state: Self)
        ensures
            state@ == (Published { usb: UsbState::Disabled, selected: (false, false) }),
    {
        DeviceState { usb: UsbState::Disabled, multipliers: Multipliers::new() }
    }

    pub fn current_usb_state(&self) -> (usb: UsbState)
        ensures
            usb == self.usb,
    {
        self.usb
    }

    pub fn set_usb_state(&mut self, usb: UsbState)
        ensures
            *final(self) == (DeviceState { usb, ..*old(self) }),
    {
        self.usb = usb;
    }
}

/// USB is ready exactly where a host has configured the device, asleep or not.
pub proof fn law_ready_is_configured_or_suspended(usb: UsbState)
    ensures
        usb == UsbState::Configured || usb == UsbState::Suspended ==> spec_usb_ready(usb),
        usb == UsbState::Disabled || usb == UsbState::Enabled ==> !spec_usb_ready(usb),
{
}

} // verus!
