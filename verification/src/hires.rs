//! High-resolution scrolling: the HID Resolution Multiplier the host selects.
//!
//! The composite descriptor declares one Resolution Multiplier feature per scrolling axis. A host
//! that understands hi-res scrolling writes the logical maximum into that feature report, which
//! means "send me [`RESOLUTION_MULTIPLIER_MAX`] units per detent from now on"; a host that doesn't
//! never touches the report, and the device keeps sending one unit per detent. Every producer of
//! wheel and pan motion multiplies its output by [`resolution_multipliers`], so the scrolling
//! speed is the same either way and only the step size changes.

use vstd::prelude::*;

use crate::state::ConnectionType;

verus! {

/// The report id of the Resolution Multiplier feature report on the composite interface.
pub const RESOLUTION_MULTIPLIER_REPORT_ID: u8 = 0x05;

/// Wheel and pan units per detent once the host selects hi-res scrolling. 120 is the granularity
/// Windows and libinput count in, so neither side has to round.
pub const RESOLUTION_MULTIPLIER_MAX: u8 = 120;

/// The raw logical values (bit 0 = wheel, bit 1 = pan) in one byte, so that a reader of the pair
/// can never observe half of a `SET_REPORT`.
#[derive(Debug, Clone, Copy, PartialEq, Eq, Structural)]
pub struct Multipliers {
    raw: u8,
}

impl View for Multipliers {
    type V = (bool, bool);

    /// Whether hi-res is selected for the wheel and for the pan axis.
    closed spec fn view(&self) -> (bool, bool) {
        (self.raw % 2 == 1, self.raw / 2 % 2 == 1)
    }
}

impl Multipliers {
    /// One unit per detent on both axes.
    pub fn new() -> (m: Self)
        ensures
            m@ == (false, false),
    {
        Multipliers { raw: 0 }
    }
}

/// The logical value of one axis.
pub open spec fn logical(selected: bool) -> u8 {
    if selected {
        1
    } else {
        0
    }
}

/// The units per detent that a logical value stands for: the physical minimum for 0, the physical
/// maximum for the logical maximum 1 and anything above it.
pub open spec fn spec_effective(raw: int) -> int {
    if raw == 0 {
        1
    } else {
        RESOLUTION_MULTIPLIER_MAX as int
    }
}

/// The HID resolution mapping for logical 0..=1 over physical 1..=MAX:
/// `(value - Lmin) / (Lmax - Lmin) * (Pmax - Pmin) + Pmin`.
pub fn effective(raw: u8) -> (units: i16)
    ensures
        units == spec_effective(raw as int),
{
    let value: i16 = if raw > 1 {
        1
    } else {
        raw as i16
    };
    assert(value == 0 || value == 1);
    1 + value * (RESOLUTION_MULTIPLIER_MAX as i16 - 1)
}

/// The (wheel, pan) units per detent for a negotiated pair, in a build with or without hi-res
/// scrolling and with reports leaving over `active`.
pub open spec fn spec_resolution_multipliers(
    hires_scroll: bool,
    selected: (bool, bool),
    active: Option<ConnectionType>,
) -> (int, int) {
    if hires_scroll && active == Some(ConnectionType::Usb) {
        (spec_effective(logical(selected.0) as int), spec_effective(logical(selected.1) as int))
    } else {
        (1, 1)
    }
}

/// The (wheel, pan) units per detent to emit right now: 1 until the host selects hi-res over USB,
/// then [`RESOLUTION_MULTIPLIER_MAX`].
///
/// Only USB carries a feature report, so a keyboard whose reports are currently going out over
/// BLE stays in detents no matter what a USB host asked for earlier. A build without
/// `hires_scroll` has nothing to negotiate: one unit is one detent.
pub fn resolution_multipliers(
    hires_scroll: bool,
    multipliers: &Multipliers,
    active: Option<ConnectionType>,
) -> (units: (i16, i16))
    ensures
        (units.0 as int, units.1 as int) == spec_resolution_multipliers(
            hires_scroll,
            multipliers@,
            active,
        ),
{
    if !hires_scroll {
        return (1, 1);
    }
    match active {
        Some(ConnectionType::Usb) => {
            let (wheel, pan) = raw_multipliers(multipliers);
            (effective(wheel), effective(pan))
        },
        _ => (1, 1),
    }
}

/// The raw logical pair, as the host would read it back.
pub fn raw_multipliers(multipliers: &Multipliers) -> (pair: (u8, u8))
    ensures
        pair == (logical(multipliers@.0), logical(multipliers@.1)),
{
    let raw: u8 = multipliers.raw;
    assert(raw & 1 == raw % 2 && (raw >> 1) & 1 == raw / 2 % 2) by (bit_vector);
    (raw & 1, (raw >> 1) & 1)
}

/// Stores an accepted `SET_REPORT`; only the lowest bit of each value counts.
pub fn set_raw_multipliers(multipliers: &mut Multipliers, wheel: u8, pan: u8)
    ensures
        final(multipliers)@ == (wheel % 2 == 1, pan % 2 == 1),
        logical(final(multipliers)@.0) == wheel % 2,
        logical(final(multipliers)@.1) == pan % 2,
{
    let raw: u8 = (wheel & 1) | ((pan & 1) << 1);
    assert(raw % 2 == wheel % 2 && raw / 2 % 2 == pan % 2) by (bit_vector)
        requires
            raw == (wheel & 1) | ((pan & 1) << 1),
    ;
    multipliers.raw = raw;
}

/// Back to one unit per detent. The USB connection's state ending (reset, deconfiguration,
/// disable) drops the negotiation with it: the host has to ask again, and until it does the
/// device must scroll in detents.
pub fn reset_multipliers(multipliers: &mut Multipliers)
    ensures
        final(multipliers)@ == (false, false),
{
    multipliers.raw = 0;
}

/// Over the logical range 0..=1, [`effective`] is the linear HID resolution mapping onto the
/// physical range 1..=MAX.
pub proof fn law_effective_is_the_resolution_mapping(value: int)
    requires
        0 <= value <= 1,
    ensures
        spec_effective(value) == (value - 0) / (1 - 0) * (RESOLUTION_MULTIPLIER_MAX - 1) + 1,
{
    assert((value - 0) / (1 - 0) == value);
    assert(value == 0 || value == 1);
    assert(0 * (RESOLUTION_MULTIPLIER_MAX - 1) == 0) by (nonlinear_arith);
    assert(1 * (RESOLUTION_MULTIPLIER_MAX - 1) == RESOLUTION_MULTIPLIER_MAX - 1)
        by (nonlinear_arith);
}

/// Reports leaving over anything but USB stay in detents, whatever a USB host asked for.
pub proof fn law_other_transports_stay_in_detents(
    hires_scroll: bool,
    selected: (bool, bool),
    active: Option<ConnectionType>,
)
    requires
        active != Some(ConnectionType::Usb),
    ensures
        spec_resolution_multipliers(hires_scroll, selected, active) == (1int, 1int),
{
}

/// Each axis emits either one unit or the declared maximum per detent, and the maximum only on an
/// axis that the host has selected.
pub proof fn law_units_are_one_or_maximum(
    hires_scroll: bool,
    selected: (bool, bool),
    active: Option<ConnectionType>,
)
    ensures
        ({
            let units = spec_resolution_multipliers(hires_scroll, selected, active);
            &&& units.0 == 1 || units.0 == RESOLUTION_MULTIPLIER_MAX && selected.0
            &&& units.1 == 1 || units.1 == RESOLUTION_MULTIPLIER_MAX && selected.1
        }),
{
}

/// A raw value of 0 stands for one unit per detent and every other for the declared maximum of 120:
/// what lies past the logical maximum counts as the maximum.
pub proof fn law_every_raw_value_stands_for_its_units(raw: u8)
    ensures
        raw == 0 ==> spec_effective(raw as int) == 1,
        raw >= 1 ==> spec_effective(raw as int) == 120,
{
}

/// A host that has selected an axis over USB gets 120 units per detent on this axis, whatever it
/// has selected for the other, and every other axis gets one unit.
pub proof fn law_a_selected_axis_is_scaled(
    hires_scroll: bool,
    wheel: bool,
    pan: bool,
    active: Option<ConnectionType>,
)
    ensures
        ({
            let units = spec_resolution_multipliers(hires_scroll, (wheel, pan), active);
            let scaled = hires_scroll && active == Some(ConnectionType::Usb);
            &&& units.0 == 120 <==> scaled && wheel
            &&& units.1 == 120 <==> scaled && pan
            &&& units.0 == 1 <==> !(scaled && wheel)
            &&& units.1 == 1 <==> !(scaled && pan)
        }),
{
}

/// The host reads a selected axis back as 1 and any other as 0.
pub proof fn law_selection_reads_back_as_logical_value(selected: bool)
    ensures
        logical(selected) == 1 <==> selected,
        logical(selected) == 0 <==> !selected,
{
}

} // verus!
