use rmk_hid::hires::{
    effective, raw_multipliers, reset_multipliers, resolution_multipliers, set_raw_multipliers,
    Multipliers, RESOLUTION_MULTIPLIER_MAX,
};
use rmk_hid::state::{usb_ready, ConnectionType, DeviceState, UsbState};

/// Reports leave over USB while it is ready.
fn multipliers_now(state: &DeviceState) -> (i16, i16) {
    let active = if usb_ready(state.current_usb_state()) { Some(ConnectionType::Usb) } else { None };
    resolution_multipliers(true, &state.multipliers, active)
}

/// Only USB can negotiate. A dual-mode keyboard that switches to BLE has to go back to detents
/// there, or the host would scroll that many times too far for the same motion.
#[test]
fn reports_leaving_over_another_transport_stay_in_detents() {
    let mut state = DeviceState::new();
    set_raw_multipliers(&mut state.multipliers, 1, 1);

    state.set_usb_state(UsbState::Disabled);
    assert_eq!(multipliers_now(&state), (1, 1), "no USB connection, no multiplier");

    state.set_usb_state(UsbState::Configured);
    let max = RESOLUTION_MULTIPLIER_MAX as i16;
    assert_eq!(multipliers_now(&state), (max, max));

    reset_multipliers(&mut state.multipliers);
    assert_eq!(multipliers_now(&state), (1, 1));
}

#[test]
fn ble_reports_stay_in_detents_whatever_usb_negotiated() {
    let mut multipliers = Multipliers::new();
    set_raw_multipliers(&mut multipliers, 1, 1);
    assert_eq!(resolution_multipliers(true, &multipliers, Some(ConnectionType::Ble)), (1, 1));
    assert_eq!(resolution_multipliers(true, &multipliers, Some(ConnectionType::Usb)), (120, 120));
}

#[test]
fn a_build_without_hires_scroll_stays_in_detents() {
    let mut multipliers = Multipliers::new();
    set_raw_multipliers(&mut multipliers, 1, 1);
    assert_eq!(resolution_multipliers(false, &multipliers, Some(ConnectionType::Usb)), (1, 1));
}

#[test]
fn each_axis_is_negotiated_on_its_own() {
    let mut multipliers = Multipliers::new();
    let usb = Some(ConnectionType::Usb);
    set_raw_multipliers(&mut multipliers, 1, 0);
    assert_eq!(raw_multipliers(&multipliers), (1, 0));
    assert_eq!(resolution_multipliers(true, &multipliers, usb), (120, 1));
    set_raw_multipliers(&mut multipliers, 0, 1);
    assert_eq!(raw_multipliers(&multipliers), (0, 1));
    assert_eq!(resolution_multipliers(true, &multipliers, usb), (1, 120));
}

#[test]
fn effective_maps_the_logical_range() {
    assert_eq!(effective(0), 1);
    assert_eq!(effective(1), 120);
    // Values past the logical maximum count as the maximum.
    assert_eq!(effective(2), 120);
    assert_eq!(effective(255), 120);
}

#[test]
fn only_the_lowest_bit_of_a_raw_value_is_stored() {
    let mut multipliers = Multipliers::new();
    set_raw_multipliers(&mut multipliers, 2, 3);
    assert_eq!(raw_multipliers(&multipliers), (0, 1));
}

#[test]
fn suspended_is_ready_and_unconfigured_is_not() {
    assert!(usb_ready(UsbState::Configured));
    assert!(usb_ready(UsbState::Suspended));
    assert!(!usb_ready(UsbState::Enabled));
    assert!(!usb_ready(UsbState::Disabled));
}
