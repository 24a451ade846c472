//! The LED indicator reports of the host.

use vstd::prelude::*;

use crate::hid::HidError;
use crate::state::ConnectionType;

verus! {

/// How long the LED reader pauses after a read has failed.
pub const LED_READ_RETRY_MS: u64 = 1000;

/// The lock LEDs that the host wants lit, one bit each.
#[derive(Debug, Clone, Copy, PartialEq, Eq, Structural)]
pub struct LedIndicator {
    bits: u8,
}

impl View for LedIndicator {
    type V = u8;

    closed spec fn view(&self) -> u8 {
        self.bits
    }
}

impl LedIndicator {
    pub fn from_bits(bits: u8) -> (leds: Self)
        ensures
            leds@ == bits,
    {
        LedIndicator { bits }
    }

    pub fn into_bits(self) -> (bits: u8)
        ensures
            bits == self@,
    {
        self.bits
    }
}

/// What the LED reader does with the outcome of a read, before it reads again.
#[derive(Debug, Clone, Copy, PartialEq, Eq, Structural)]
pub enum LedAction {
    /// Store the lock state and publish it.
    Publish(LedIndicator),
    /// Drop the report: it came over a transport that is not in use.
    Ignore,
    /// Pause for this many milliseconds.
    Pause(u64),
}

/// What to do with an LED report, or a failed read, of transport `kind` while reports leave over
/// `active`.
pub open spec fn spec_led_action(
    read: Result<LedIndicator, HidError>,
    kind: ConnectionType,
    active: Option<ConnectionType>,
) -> LedAction {
    match read {
        Ok(leds) => if active == Some(kind) {
            LedAction::Publish(leds)
        } else {
            LedAction::Ignore
        },
        Err(_) => LedAction::Pause(LED_READ_RETRY_MS),
    }
}

/// What to do with an LED report, or a failed read: LED reports are published whenever their
/// transport is the active one.
pub fn led_action(
    read: Result<LedIndicator, HidError>,
    kind: ConnectionType,
    active: Option<ConnectionType>,
) -> (action: LedAction)
    ensures
        action == spec_led_action(read, kind, active),
{
    match read {
        Ok(leds) => {
            let in_use = match active {
                Some(transport) => transport == kind,
                None => false,
            };
            if in_use {
                LedAction::Publish(leds)
            } else {
                LedAction::Ignore
            }
        },
        Err(_) => LedAction::Pause(LED_READ_RETRY_MS),
    }
}

/// Of two transports at most one publishes LED reports at any time.
pub proof fn law_only_the_active_transport_publishes(
    first: Result<LedIndicator, HidError>,
    second: Result<LedIndicator, HidError>,
    active: Option<ConnectionType>,
)
    ensures
        !(spec_led_action(first, ConnectionType::Usb, active) is Publish && spec_led_action(
            second,
            ConnectionType::Ble,
            active,
        ) is Publish),
{
}

/// Every LED report, whatever its bits, is published as it is exactly where its transport is the
/// active one, and ignored otherwise; with the last LED going off as with the first going on.
pub proof fn law_every_report_of_the_active_transport_is_published(
    leds: LedIndicator,
    kind: ConnectionType,
    active: Option<ConnectionType>,
)
    ensures
        spec_led_action(Ok(leds), kind, active) == LedAction::Publish(leds) <==> active == Some(
            kind,
        ),
        spec_led_action(Ok(leds), kind, active) == LedAction::Ignore <==> active != Some(kind),
{
}

/// Every failed read, whatever the error, pauses the reader for a second and publishes nothing.
pub proof fn law_every_failed_read_pauses(
    error: HidError,
    kind: ConnectionType,
    active: Option<ConnectionType>,
)
    ensures
        spec_led_action(Err(error), kind, active) == LedAction::Pause(1000),
{
}

/// What is published is what was read last: the action on a report does not depend on the reports
/// before it, so two different reports are published as two different states.
pub proof fn law_different_reports_are_published_differently(
    first: LedIndicator,
    second: LedIndicator,
    kind: ConnectionType,
)
    requires
        first@ != second@,
    ensures
        spec_led_action(Ok(first), kind, Some(kind)) != spec_led_action(
            Ok(second),
            kind,
            Some(kind),
        ),
{
}

} // verus!
