//! Answers to the control requests of the host, and the bus events that change what the device
//! publishes.

use vstd::prelude::*;

use crate::hires::{
    logical, raw_multipliers, reset_multipliers, set_raw_multipliers, Multipliers,
    RESOLUTION_MULTIPLIER_REPORT_ID,
};
use crate::state::{spec_usb_ready, DeviceState, Published, UsbState};

verus! {

/// The boot keyboard is the first interface that the transport adds, so it is always interface 0.
pub const PRIMARY_KEYBOARD_INTERFACE: u8 = 0;

/// HID class request codes (HID 1.11 section 7.2); the device handler answers these two.
pub const HID_REQ_GET_PROTOCOL: u8 = 0x03;

pub const HID_REQ_SET_PROTOCOL: u8 = 0x0b;

/// USB transfer direction.
#[derive(Debug, Clone, Copy, PartialEq, Eq, Structural)]
pub enum Direction {
    Out,
    In,
}

/// Control request type.
#[derive(Debug, Clone, Copy, PartialEq, Eq, Structural)]
pub enum RequestType {
    Standard,
    Class,
    Vendor,
    Reserved,
}

/// Control request recipient.
#[derive(Debug, Clone, Copy, PartialEq, Eq, Structural)]
pub enum Recipient {
    Device,
    Interface,
    Endpoint,
    Other,
    Reserved,
}

/// A control request read from a SETUP packet.
#[derive(Debug, Clone, Copy, PartialEq, Eq, Structural)]
pub struct Request {
    pub direction: Direction,
    pub request_type: RequestType,
    pub recipient: Recipient,
    /// Request code. The meaning of the value depends on the previous fields.
    pub request: u8,
    /// Request value. The meaning of the value depends on the previous fields.
    pub value: u16,
    /// Request index. The meaning of the value depends on the previous fields.
    pub index: u16,
    /// Length of the data stage.
    pub length: u16,
}

/// Response to a control OUT request.
#[derive(Debug, Clone, Copy, PartialEq, Eq, Structural)]
pub enum OutResponse {
    Accepted,
    Rejected,
}

/// Response to a control IN request.
#[derive(Debug, PartialEq, Eq)]
pub enum InResponse<'a> {
    /// The request was accepted. The buffer contains the response data.
    Accepted(&'a [u8]),
    Rejected,
}

/// A report that a HID class request names.
#[derive(Debug, Clone, Copy, PartialEq, Eq, Structural)]
pub enum ReportId {
    In(u8),
    Out(u8),
    Feature(u8),
}

/// The protocol of a boot interface (HID 1.11 sections 7.2.5 and 7.2.6).
#[derive(Debug, Clone, Copy, PartialEq, Eq, Structural)]
pub enum HidProtocolMode {
    Boot,
    Report,
}

impl HidProtocolMode {
    /// The value that GET_PROTOCOL answers and SET_PROTOCOL carries.
    pub open spec fn spec_code(self) -> u8 {
        match self {
            HidProtocolMode::Boot => 0,
            HidProtocolMode::Report => 1,
        }
    }

    /// The value that GET_PROTOCOL answers and SET_PROTOCOL carries.
    pub fn code(self) -> (code: u8)
        ensures
            code == self.spec_code(),
    {
        match self {
            HidProtocolMode::Boot => 0,
            HidProtocolMode::Report => 1,
        }
    }
}

/// Follows the bus and answers the protocol requests of the boot keyboard.
#[derive(Debug, Clone, Copy)]
pub struct UsbDeviceHandler {
    /// State to restore on resume. Only a Configured device is ever published as Suspended, so
    /// this always holds Configured while the device is suspended.
    pub pre_suspend: UsbState,
    /// Interface number of the boot-subclass keyboard, or `None` on a build with no keyboard
    /// interface. The number identifies which interface's SET_PROTOCOL and GET_PROTOCOL this
    /// handler answers; without it the same class request codes would shadow another class on the
    /// device, such as DFU's GETSTATUS.
    pub boot_keyboard_interface: Option<u8>,
    /// The protocol mode the host last selected for that interface.
    pub protocol: HidProtocolMode,
}

impl UsbDeviceHandler {
    /// A device in the published state `usb` resumes to the state that it had before it was
    /// suspended, which is always Configured.
    pub open spec fn inv(&self, usb: UsbState) -> bool {
        usb == UsbState::Suspended ==> self.pre_suspend == UsbState::Configured
    }

    pub fn new(boot_keyboard_interface: Option<u8>) -> (handler: Self)
        ensures
            handler == (UsbDeviceHandler {
                pre_suspend: UsbState::Disabled,
                boot_keyboard_interface,
                protocol: HidProtocolMode::Report,
            }),
    {
        UsbDeviceHandler {
            pre_suspend: UsbState::Disabled,
            boot_keyboard_interface,
            protocol: HidProtocolMode::Report,
        }
    }

    /// `req` is a class request aimed at the boot keyboard interface.
    pub open spec fn spec_targets_boot_keyboard(&self, req: Request) -> bool {
        match self.boot_keyboard_interface {
            Some(iface) => req.request_type == RequestType::Class && req.recipient
                == Recipient::Interface && req.index == iface,
            None => false,
        }
    }

    /// Whether `req` is a class request aimed at the boot keyboard interface.
    pub fn targets_boot_keyboard(&self, req: &Request) -> (targets: bool)
        ensures
            targets == self.spec_targets_boot_keyboard(*req),
    {
        match self.boot_keyboard_interface {
            Some(iface) => req.request_type == RequestType::Class && req.recipient
                == Recipient::Interface && req.index == iface as u16,
            None => false,
        }
    }

    /// The mode that a SET_PROTOCOL request selects, if it is well-formed: its value names a
    /// protocol and it has no data stage.
    pub open spec fn selected_mode(req: Request) -> Option<HidProtocolMode> {
        if req.length != 0 {
            None
        } else if req.value == 0 {
            Some(HidProtocolMode::Boot)
        } else if req.value == 1 {
            Some(HidProtocolMode::Report)
        } else {
            None
        }
    }

    /// The answer to a control OUT request: none unless it is SET_PROTOCOL for the boot keyboard,
    /// and then a rejection unless it is well-formed.
    pub open spec fn control_out_answer(&self, req: Request) -> Option<OutResponse> {
        if !self.spec_targets_boot_keyboard(req) || req.request != HID_REQ_SET_PROTOCOL {
            None
        } else if Self::selected_mode(req) is Some {
            Some(OutResponse::Accepted)
        } else {
            Some(OutResponse::Rejected)
        }
    }

    /// The handler after a control OUT request: an accepted one selects the protocol.
    pub open spec fn after_control_out(self, req: Request) -> Self {
        if self.control_out_answer(req) == Some(OutResponse::Accepted) {
            UsbDeviceHandler { protocol: Self::selected_mode(req)->Some_0, ..self }
        } else {
            self
        }
    }

    /// Answers SET_PROTOCOL.
    ///
    /// A malformed request is rejected rather than left to the HID class, which would answer it
    /// without checking the fields. Accepting Boot needs no change to what is transmitted: the
    /// keyboard report is already the 8-byte boot layout with no report id.
    pub fn control_out(&mut self, req: Request, _data: &[u8]) -> (answer: Option<OutResponse>)
        ensures
            answer == old(self).control_out_answer(req),
            *final(self) == old(self).after_control_out(req),
            old(self).boot_keyboard_interface matches Some(iface) ==> {
                &&& req.request_type == RequestType::Class
                &&& req.recipient == Recipient::Interface
                &&& req.index == iface
                &&& req.request == 0x0b
                &&& req.value <= 1
                &&& req.length == 0
            } ==> {
                &&& answer == Some(OutResponse::Accepted)
                &&& final(self).protocol == HidProtocolMode::Boot <==> req.value == 0
            },
    {
        if !self.targets_boot_keyboard(&req) || req.request != HID_REQ_SET_PROTOCOL {
            return None;
        }
        let mode = match (req.value, req.length) {
            (0, 0) => HidProtocolMode::Boot,
            (1, 0) => HidProtocolMode::Report,
            _ => return Some(OutResponse::Rejected),
        };
        self.protocol = mode;
        Some(OutResponse::Accepted)
    }

    /// `req` is a GET_PROTOCOL request for the boot keyboard.
    pub open spec fn is_get_protocol(&self, req: Request) -> bool {
        self.spec_targets_boot_keyboard(req) && req.request == HID_REQ_GET_PROTOCOL
    }

    /// A GET_PROTOCOL request is defined with value 0 and length 1, and needs room for its answer.
    pub open spec fn get_protocol_well_formed(req: Request, room: nat) -> bool {
        req.value == 0 && req.length == 1 && room > 0
    }

    /// Answers GET_PROTOCOL with the protocol that the host last selected.
    pub fn control_in<'a>(&mut self, req: Request, buf: &'a mut [u8]) -> (answer: Option<
        InResponse<'a>,
    >)
        ensures
            *final(self) == *old(self),
            old(self).boot_keyboard_interface matches Some(iface) ==> {
                &&& req.request_type == RequestType::Class
                &&& req.recipient == Recipient::Interface
                &&& req.index == iface
                &&& req.request == 0x03
                &&& req.value == 0
                &&& req.length == 1
                &&& old(buf)@.len() > 0
            } ==> {
                &&& answer matches Some(InResponse::Accepted(data))
                &&& data@.len() == 1
                &&& data@[0] == 0 <==> old(self).protocol == HidProtocolMode::Boot
                &&& data@[0] == 1 <==> old(self).protocol == HidProtocolMode::Report
            },
            answer is None <==> !old(self).is_get_protocol(req),
            answer matches Some(response) ==> {
                if Self::get_protocol_well_formed(req, old(buf)@.len()) {
                    &&& response matches InResponse::Accepted(data)
                    &&& data@ == seq![old(self).protocol.spec_code()]
                } else {
                    response is Rejected
                }
            },
            final(buf)@ == (if old(self).is_get_protocol(req) && Self::get_protocol_well_formed(
                req,
                old(buf)@.len(),
            ) {
                old(buf)@.update(0, old(self).protocol.spec_code())
            } else {
                old(buf)@
            }),
    {
        if !self.targets_boot_keyboard(&req) || req.request != HID_REQ_GET_PROTOCOL {
            return None;
        }
        if req.value != 0 || req.length != 1 || buf.is_empty() {
            return Some(InResponse::Rejected);
        }
        buf[0] = self.protocol.code();
        let data: &'a [u8] = &buf[0..1];
        assert(data@ =~= seq![old(self).protocol.spec_code()]);
        Some(InResponse::Accepted(data))
    }

    /// What is published once the stack has been enabled or disabled. Disabling ends the
    /// connection and drops its scroll negotiation.
    pub open spec fn after_enabled(published: Published, enabled: bool) -> Published {
        if enabled {
            Published { usb: UsbState::Enabled, ..published }
        } else {
            Published { usb: UsbState::Disabled, selected: (false, false) }
        }
    }

    /// The stack was enabled or disabled.
    pub fn enabled(&mut self, enabled: bool, state: &mut DeviceState)
        ensures
            *final(self) == *old(self),
            final(state)@ == Self::after_enabled(old(state)@, enabled),
    {
        if enabled {
            state.set_usb_state(UsbState::Enabled);
        } else {
            state.set_usb_state(UsbState::Disabled);
            reset_multipliers(&mut state.multipliers);
        }
    }

    /// The handler after a bus reset: "The Boot Keyboard shall, upon reset, return to the non-boot
    /// protocol" (HID 1.11 Appendix F.3).
    pub open spec fn after_reset(self) -> Self {
        UsbDeviceHandler { protocol: HidProtocolMode::Report, ..self }
    }

    /// What is published once the host has reset the bus: the same bus state, without the scroll
    /// negotiation.
    pub open spec fn published_after_reset(published: Published) -> Published {
        Published { selected: (false, false), ..published }
    }

    /// The host reset the bus. What it had negotiated before is gone.
    pub fn reset(&mut self, state: &mut DeviceState)
        ensures
            *final(self) == old(self).after_reset(),
            final(state)@ == Self::published_after_reset(old(state)@),
            final(state)@ == (Published { selected: (false, false), ..old(state)@ }),
    {
        self.protocol = HidProtocolMode::Report;
        reset_multipliers(&mut state.multipliers);
    }

    /// What is published once the host has configured or deconfigured the device. Deconfiguration
    /// drops the scroll negotiation.
    pub open spec fn after_configured(published: Published, configured: bool) -> Published {
        if configured {
            Published { usb: UsbState::Configured, ..published }
        } else {
            Published { usb: UsbState::Enabled, selected: (false, false) }
        }
    }

    /// The host configured or deconfigured the device.
    pub fn configured(&mut self, configured: bool, state: &mut DeviceState)
        ensures
            *final(self) == *old(self),
            final(state)@ == Self::after_configured(old(state)@, configured),
    {
        if configured {
            state.set_usb_state(UsbState::Configured);
        } else {
            state.set_usb_state(UsbState::Enabled);
            reset_multipliers(&mut state.multipliers);
        }
    }

    /// The handler and the published bus state after a suspend or resume.
    ///
    /// Only a configured device is published as suspended, and only a suspended device resumes.
    pub open spec fn after_suspended(self, usb: UsbState, suspended: bool) -> (Self, UsbState) {
        if suspended && usb == UsbState::Configured {
            (UsbDeviceHandler { pre_suspend: usb, ..self }, UsbState::Suspended)
        } else if !suspended && usb == UsbState::Suspended {
            (self, self.pre_suspend)
        } else {
            (self, usb)
        }
    }

    /// The bus was suspended or resumed.
    ///
    /// A suspended device counts as ready (see [`crate::state::usb_ready`]), but that only holds
    /// for a device the host has actually enumerated. A never-configured device also sees bus-idle
    /// suspends: a charge-only cable or wall charger leaves the data lines idle, and publishing
    /// Suspended there would route reports to endpoints that were never configured.
    pub fn suspended(&mut self, suspended: bool, state: &mut DeviceState)
        ensures
            (*final(self), final(state)@.usb) == old(self).after_suspended(
                old(state)@.usb,
                suspended,
            ),
            final(state)@.selected == old(state)@.selected,
    {
        let live = state.current_usb_state();
        if suspended {
            if live == UsbState::Configured {
                self.pre_suspend = live;
                state.set_usb_state(UsbState::Suspended);
            }
        } else {
            // Out-of-order callbacks do not overwrite the state: the next configured or enabled
            // callback will resync it.
            if live == UsbState::Suspended {
                state.set_usb_state(self.pre_suspend);
            }
        }
    }
}

/// Accepts every report that the host sets; for interfaces that take none.
#[derive(Debug, Clone, Copy)]
pub struct UsbRequestHandler {}

impl UsbRequestHandler {
    pub fn set_report(&mut self, _id: ReportId, _data: &[u8]) -> (answer: OutResponse)
        ensures
            answer == OutResponse::Accepted,
            *final(self) == *old(self),
    {
        OutResponse::Accepted
    }
}

/// Whether a request names the Resolution Multiplier report.
fn names_multipliers(id: ReportId) -> (named: bool)
    ensures
        named == (id == ReportId::Feature(RESOLUTION_MULTIPLIER_REPORT_ID)),
{
    match id {
        ReportId::Feature(report_id) => report_id == RESOLUTION_MULTIPLIER_REPORT_ID,
        _ => false,
    }
}

/// The scroll selection that a Resolution Multiplier report carries, if it has the form of one: the
/// report id, then a value for the wheel and one for the pan axis, of which the lowest bit counts.
pub open spec fn multiplier_selection(data: Seq<u8>) -> Option<(bool, bool)> {
    if data.len() == 3 && data[0] == RESOLUTION_MULTIPLIER_REPORT_ID {
        Some((data[1] % 2 == 1, data[2] % 2 == 1))
    } else {
        None
    }
}

/// The Resolution Multiplier report for a scroll selection.
pub open spec fn multiplier_report(selected: (bool, bool)) -> Seq<u8> {
    seq![RESOLUTION_MULTIPLIER_REPORT_ID, logical(selected.0), logical(selected.1)]
}

/// Lets the host read and write the Resolution Multiplier feature report of the composite
/// interface.
#[derive(Debug, Clone, Copy)]
pub struct UsbCompositeRequestHandler {}

impl UsbCompositeRequestHandler {
    /// The scroll selection after a SET_REPORT request.
    pub open spec fn after_set_report(
        selected: (bool, bool),
        id: ReportId,
        data: Seq<u8>,
    ) -> (bool, bool) {
        if id == ReportId::Feature(RESOLUTION_MULTIPLIER_REPORT_ID) && multiplier_selection(
            data,
        ) is Some {
            multiplier_selection(data)->Some_0
        } else {
            selected
        }
    }

    /// Stores the scroll selection of a Resolution Multiplier report. Every report is accepted;
    /// one that is not of this form changes nothing.
    pub fn set_report(
        &mut self,
        id: ReportId,
        data: &[u8],
        multipliers: &mut Multipliers,
    ) -> (answer: OutResponse)
        ensures
            answer == OutResponse::Accepted,
            final(multipliers)@ == Self::after_set_report(old(multipliers)@, id, data@),
            *final(self) == *old(self),
    {
        if names_multipliers(id) && data.len() == 3 && data[0] == RESOLUTION_MULTIPLIER_REPORT_ID {
            set_raw_multipliers(multipliers, data[1], data[2]);
        }
        OutResponse::Accepted
    }

    /// Whether a GET_REPORT request is answered.
    pub open spec fn get_report_answered(id: ReportId, room: nat) -> bool {
        id == ReportId::Feature(RESOLUTION_MULTIPLIER_REPORT_ID) && room >= 3
    }

    /// Writes the Resolution Multiplier report to `buf` and returns its length. Other reports
    /// cannot be read.
    pub fn get_report(
        &mut self,
        id: ReportId,
        buf: &mut [u8],
        multipliers: &Multipliers,
    ) -> (answer: Option<usize>)
        ensures
            answer == (if Self::get_report_answered(id, old(buf)@.len()) {
                Some(3usize)
            } else {
                None
            }),
            final(buf)@ == (if Self::get_report_answered(id, old(buf)@.len()) {
                crate::wire::overwrite(old(buf)@, multiplier_report(multipliers@))
            } else {
                old(buf)@
            }),
            *final(self) == *old(self),
    {
        if !names_multipliers(id) || buf.len() < 3 {
            return None;
        }
        let (wheel, pan) = raw_multipliers(multipliers);
        buf[0] = RESOLUTION_MULTIPLIER_REPORT_ID;
        buf[1] = wheel;
        buf[2] = pan;
        assert(buf@ =~= crate::wire::overwrite(old(buf)@, multiplier_report(multipliers@)));
        Some(3)
    }
}

/// Something that happens on the bus.
pub ghost enum BusEvent {
    Enabled(bool),
    Reset,
    Configured(bool),
    Suspended(bool),
    ControlOut(Request),
    SetReport(ReportId, Seq<u8>),
}

/// The handler and the published state after one event, as the methods of [`UsbDeviceHandler`]
/// and [`UsbCompositeRequestHandler`] state it.
pub open spec fn after_event(
    handler: UsbDeviceHandler,
    published: Published,
    event: BusEvent,
) -> (UsbDeviceHandler, Published) {
    match event {
        BusEvent::Enabled(on) => (handler, UsbDeviceHandler::after_enabled(published, on)),
        BusEvent::Reset => (
            handler.after_reset(),
            UsbDeviceHandler::published_after_reset(published),
        ),
        BusEvent::Configured(on) => (handler, UsbDeviceHandler::after_configured(published, on)),
        BusEvent::Suspended(on) => {
            let (next, usb) = handler.after_suspended(published.usb, on);
            (next, Published { usb, ..published })
        },
        BusEvent::ControlOut(req) => (handler.after_control_out(req), published),
        BusEvent::SetReport(id, data) => (
            handler,
            Published {
                selected: UsbCompositeRequestHandler::after_set_report(
                    published.selected,
                    id,
                    data,
                ),
                ..published
            },
        ),
    }
}

/// The handler and the published state after a history of events since power-on.
pub open spec fn after_history(
    boot_keyboard_interface: Option<u8>,
    history: Seq<BusEvent>,
) -> (UsbDeviceHandler, Published)
    decreases history.len(),
{
    if history.len() == 0 {
        (
            UsbDeviceHandler {
                pre_suspend: UsbState::Disabled,
                boot_keyboard_interface,
                protocol: HidProtocolMode::Report,
            },
            Published { usb: UsbState::Disabled, selected: (false, false) },
        )
    } else {
        let (handler, published) = after_history(boot_keyboard_interface, history.drop_last());
        after_event(handler, published, history.last())
    }
}

/// A host has enumerated the device: it has been configured, and neither deconfigured, enabled
/// anew nor disabled since.
pub open spec fn enumerated(history: Seq<BusEvent>) -> bool {
    exists|i: int|
        #![trigger history[i]]
        0 <= i < history.len() && history[i] == BusEvent::Configured(true) && (forall|j: int|
            #![trigger history[j]]
            i < j < history.len() ==> !(history[j] is Enabled) && !(history[j] is Configured))
}

/// An event that ends what a host has negotiated: reset, deconfiguration or disable.
pub open spec fn ends_negotiation(event: BusEvent) -> bool {
    event == BusEvent::Reset || event == BusEvent::Configured(false) || event
        == BusEvent::Enabled(false)
}

/// While the device is published as suspended, the state it will resume to is Configured, after
/// every history of events.
pub proof fn law_suspended_resumes_to_configured(
    boot_keyboard_interface: Option<u8>,
    history: Seq<BusEvent>,
)
    ensures
        ({
            let (handler, published) = after_history(boot_keyboard_interface, history);
            handler.inv(published.usb)
        }),
    decreases history.len(),
{
    if history.len() > 0 {
        law_suspended_resumes_to_configured(boot_keyboard_interface, history.drop_last());
    }
}

/// USB is ready for reports exactly while the device is enumerated: a suspend makes no device
/// routable that a host has not configured, and none that it has unroutable.
pub proof fn law_ready_exactly_while_enumerated(
    boot_keyboard_interface: Option<u8>,
    history: Seq<BusEvent>,
)
    ensures
        spec_usb_ready(after_history(boot_keyboard_interface, history).1.usb) <==> enumerated(
            history,
        ),
    decreases history.len(),
{
    if history.len() > 0 {
        let before = history.drop_last();
        let last = history.last();
        law_ready_exactly_while_enumerated(boot_keyboard_interface, before);
        law_suspended_resumes_to_configured(boot_keyboard_interface, before);
        assert(history[history.len() - 1] == last);
        assert(forall|i: int| 0 <= i < before.len() ==> before[i] == history[i]);
        if last is Enabled || last is Configured {
            if last == BusEvent::Configured(true) {
                assert(enumerated(history));
            } else {
                assert(!enumerated(history));
            }
        } else {
            if enumerated(before) {
                let i = choose|i: int|
                    #![trigger before[i]]
                    0 <= i < before.len() && before[i] == BusEvent::Configured(true) && (forall|
                        j: int,
                    |
                        #![trigger before[j]]
                        i < j < before.len() ==> !(before[j] is Enabled) && !(
                        before[j] is Configured));
                assert(history[i] == BusEvent::Configured(true));
                assert forall|j: int|
                    #![trigger history[j]]
                    i < j < history.len() implies !(history[j] is Enabled) && !(
                history[j] is Configured) by {
                    if j < before.len() {
                        assert(before[j] == history[j]);
                    }
                }
                assert(enumerated(history));
            }
            if enumerated(history) {
                let i = choose|i: int|
                    #![trigger history[i]]
                    0 <= i < history.len() && history[i] == BusEvent::Configured(true) && (forall|
                        j: int,
                    |
                        #![trigger history[j]]
                        i < j < history.len() ==> !(history[j] is Enabled) && !(
                        history[j] is Configured));
                assert(before[i] == BusEvent::Configured(true));
                assert forall|j: int|
                    #![trigger before[j]]
                    i < j < before.len() implies !(before[j] is Enabled) && !(
                before[j] is Configured) by {
                    assert(before[j] == history[j]);
                }
                assert(enumerated(before));
            }
        }
    }
}

/// A suspend followed by a resume gives back the published bus state, if it was not already
/// suspended.
pub proof fn law_resume_undoes_suspend(handler: UsbDeviceHandler, usb: UsbState)
    requires
        usb != UsbState::Suspended,
    ensures
        ({
            let (asleep, during) = handler.after_suspended(usb, true);
            asleep.after_suspended(during, false).1 == usb
        }),
{
}

/// A repeated suspend changes nothing, so a later resume restores the same state.
pub proof fn law_duplicate_suspend_changes_nothing(handler: UsbDeviceHandler, usb: UsbState)
    ensures
        ({
            let (once, during) = handler.after_suspended(usb, true);
            once.after_suspended(during, true) == (once, during)
        }),
{
}

/// A resume of a device that is not suspended changes nothing.
pub proof fn law_resume_without_suspend_changes_nothing(handler: UsbDeviceHandler, usb: UsbState)
    requires
        usb != UsbState::Suspended,
    ensures
        handler.after_suspended(usb, false) == (handler, usb),
{
}

/// GET_PROTOCOL answers what an accepted SET_PROTOCOL has selected, and Report after a reset.
pub proof fn law_get_protocol_reads_back_set_protocol(handler: UsbDeviceHandler, req: Request)
    ensures
        handler.control_out_answer(req) == Some(OutResponse::Accepted)
            ==> handler.after_control_out(req).protocol.spec_code() == req.value,
        handler.control_out_answer(req) != Some(OutResponse::Accepted)
            ==> handler.after_control_out(req) == handler,
        handler.after_reset().protocol.spec_code() == 1,
{
}

/// `event` is an accepted SET_PROTOCOL request that selects `mode`.
pub open spec fn selects_protocol(
    boot_keyboard_interface: Option<u8>,
    event: BusEvent,
    mode: HidProtocolMode,
) -> bool {
    match event {
        BusEvent::ControlOut(req) => {
            let handler = after_history(boot_keyboard_interface, Seq::empty()).0;
            handler.control_out_answer(req) == Some(OutResponse::Accepted)
                && UsbDeviceHandler::selected_mode(req) == Some(mode)
        },
        _ => false,
    }
}

/// The host has selected the boot protocol, and has neither selected the report protocol nor
/// reset the bus since.
pub open spec fn boot_selected(
    boot_keyboard_interface: Option<u8>,
    history: Seq<BusEvent>,
) -> bool {
    exists|i: int|
        #![trigger history[i]]
        0 <= i < history.len() && selects_protocol(
            boot_keyboard_interface,
            history[i],
            HidProtocolMode::Boot,
        ) && (forall|j: int|
            #![trigger history[j]]
            i < j < history.len() ==> history[j] != BusEvent::Reset && !selects_protocol(
                boot_keyboard_interface,
                history[j],
                HidProtocolMode::Report,
            ))
}

/// The interface that the handler answers for never changes.
proof fn lemma_interface_is_fixed(boot_keyboard_interface: Option<u8>, history: Seq<BusEvent>)
    ensures
        after_history(boot_keyboard_interface, history).0.boot_keyboard_interface
            == boot_keyboard_interface,
    decreases history.len(),
{
    if history.len() > 0 {
        lemma_interface_is_fixed(boot_keyboard_interface, history.drop_last());
    }
}

/// The protocol that GET_PROTOCOL answers is Boot exactly while the host's last selection on this
/// side of a bus reset was Boot.
pub proof fn law_protocol_is_the_last_selection_since_reset(
    boot_keyboard_interface: Option<u8>,
    history: Seq<BusEvent>,
)
    ensures
        after_history(boot_keyboard_interface, history).0.protocol == HidProtocolMode::Boot
            <==> boot_selected(boot_keyboard_interface, history),
    decreases history.len(),
{
    let iface = boot_keyboard_interface;
    let boot = HidProtocolMode::Boot;
    let report = HidProtocolMode::Report;
    if history.len() > 0 {
        let before = history.drop_last();
        let last = history.last();
        law_protocol_is_the_last_selection_since_reset(iface, before);
        lemma_interface_is_fixed(iface, before);
        assert(history[history.len() - 1] == last);
        if selects_protocol(iface, last, boot) {
            assert(boot_selected(iface, history));
        } else if last == BusEvent::Reset || selects_protocol(iface, last, report) {
            assert(!boot_selected(iface, history));
        } else {
            if boot_selected(iface, before) {
                let i = choose|i: int|
                    #![trigger before[i]]
                    0 <= i < before.len() && selects_protocol(iface, before[i], boot) && (forall|
                        j: int,
                    |
                        #![trigger before[j]]
                        i < j < before.len() ==> before[j] != BusEvent::Reset && !selects_protocol(
                            iface,
                            before[j],
                            report,
                        ));
                assert(history[i] == before[i]);
                assert forall|j: int|
                    #![trigger history[j]]
                    i < j < history.len() implies history[j] != BusEvent::Reset
                    && !selects_protocol(iface, history[j], report) by {
                    if j < before.len() {
                        assert(before[j] == history[j]);
                    }
                }
                assert(boot_selected(iface, history));
            }
            if boot_selected(iface, history) {
                let i = choose|i: int|
                    #![trigger history[i]]
                    0 <= i < history.len() && selects_protocol(iface, history[i], boot) && (forall|
                        j: int,
                    |
                        #![trigger history[j]]
                        i < j < history.len() ==> history[j] != BusEvent::Reset
                            && !selects_protocol(iface, history[j], report));
                assert(before[i] == history[i]);
                assert forall|j: int|
                    #![trigger before[j]]
                    i < j < before.len() implies before[j] != BusEvent::Reset && !selects_protocol(
                    iface,
                    before[j],
                    report,
                ) by {
                    assert(before[j] == history[j]);
                }
                assert(boot_selected(iface, before));
            }
        }
    }
}

/// A request for another interface, another recipient or another request type is not answered,
/// whatever it asks; a device without a boot keyboard answers none.
pub proof fn law_foreign_requests_fall_through(handler: UsbDeviceHandler, req: Request)
    requires
        handler.boot_keyboard_interface is None || req.index
            != handler.boot_keyboard_interface->Some_0 || req.recipient != Recipient::Interface
            || req.request_type != RequestType::Class,
    ensures
        handler.control_out_answer(req) is None,
        handler.after_control_out(req) == handler,
        !handler.is_get_protocol(req),
{
}

/// Reading the Resolution Multiplier report back gives the lowest bit of each value that was
/// written, so a report within the logical range 0..=1 reads back as it was written; and writing
/// back what was read changes nothing.
pub proof fn law_multiplier_report_round_trip(selected: (bool, bool), data: Seq<u8>)
    ensures
        multiplier_selection(multiplier_report(selected)) == Some(selected),
        multiplier_selection(data) matches Some(pair) ==> multiplier_report(pair) == seq![
            RESOLUTION_MULTIPLIER_REPORT_ID,
            data[1] % 2,
            data[2] % 2,
        ],
        multiplier_selection(data) matches Some(pair) ==> (data[1] <= 1 && data[2] <= 1
            ==> multiplier_report(pair) == data),
{
    if multiplier_selection(data) is Some && data[1] <= 1 && data[2] <= 1 {
        assert(multiplier_report(multiplier_selection(data)->Some_0) =~= data);
    }
}

/// The scroll selection of a Resolution Multiplier report that the host sets, and `None` for any
/// other event.
pub open spec fn negotiated(event: BusEvent) -> Option<(bool, bool)> {
    match event {
        BusEvent::SetReport(id, data) if id == ReportId::Feature(
            RESOLUTION_MULTIPLIER_REPORT_ID,
        ) => multiplier_selection(data),
        _ => None,
    }
}

/// Event `i` is the latest Resolution Multiplier report, and nothing has ended the
/// negotiation since.
pub open spec fn is_latest_negotiation(history: Seq<BusEvent>, i: int) -> bool {
    &&& 0 <= i < history.len()
    &&& negotiated(history[i]) is Some
    &&& forall|j: int|
        #![trigger history[j]]
        i < j < history.len() ==> negotiated(history[j]) is None && !ends_negotiation(history[j])
}

/// The scroll negotiation lasts as long as the connection: after every history of events, what is
/// selected is the pair of the latest Resolution Multiplier report since the latest reset,
/// deconfiguration or disable, and nothing where there is no such report.
pub proof fn law_selection_is_the_latest_of_this_connection(
    boot_keyboard_interface: Option<u8>,
    history: Seq<BusEvent>,
)
    ensures
        ({
            let selected = after_history(boot_keyboard_interface, history).1.selected;
            &&& forall|i: int|
                #[trigger] is_latest_negotiation(history, i) ==> negotiated(history[i]) == Some(
                    selected,
                )
            &&& (forall|i: int| !#[trigger] is_latest_negotiation(history, i)) ==> selected == (
                false,
                false,
            )
        }),
    decreases history.len(),
{
    if history.len() > 0 {
        let before = history.drop_last();
        let last = history.last();
        law_selection_is_the_latest_of_this_connection(boot_keyboard_interface, before);
        assert(history[history.len() - 1] == last);
        if negotiated(last) is Some {
            assert(is_latest_negotiation(history, history.len() - 1));
        } else if !ends_negotiation(last) {
            assert forall|i: int|
                #![trigger is_latest_negotiation(before, i)]
                #![trigger is_latest_negotiation(history, i)]
                is_latest_negotiation(before, i) == is_latest_negotiation(history, i) by {
                assert(forall|j: int| 0 <= j < before.len() ==> before[j] == history[j]);
            }
        }
    }
}

/// A control OUT request is answered exactly where it is a class request for the interface of the
/// boot keyboard with the code of SET_PROTOCOL; its direction and its value do not matter to that.
pub proof fn law_set_protocol_is_answered(handler: UsbDeviceHandler, req: Request)
    ensures
        handler.control_out_answer(req) is Some <==> {
            &&& handler.boot_keyboard_interface is Some
            &&& handler.boot_keyboard_interface->Some_0 == req.index
            &&& req.request_type == RequestType::Class
            &&& req.recipient == Recipient::Interface
            &&& req.request == 0x0b
        },
{
}

/// Of the SET_PROTOCOL requests for the boot keyboard, those without data and with value 0 or 1 are
/// accepted and select the boot and the report protocol; all others are rejected. Whatever the
/// request, nothing but the protocol changes, and that only by an accepted one.
pub proof fn law_set_protocol_selects_what_it_names(handler: UsbDeviceHandler, req: Request)
    requires
        handler.control_out_answer(req) is Some,
    ensures
        req.length == 0 && req.value == 0 ==> handler.control_out_answer(req) == Some(
            OutResponse::Accepted,
        ) && handler.after_control_out(req) == (UsbDeviceHandler {
            protocol: HidProtocolMode::Boot,
            ..handler
        }),
        req.length == 0 && req.value == 1 ==> handler.control_out_answer(req) == Some(
            OutResponse::Accepted,
        ) && handler.after_control_out(req) == (UsbDeviceHandler {
            protocol: HidProtocolMode::Report,
            ..handler
        }),
        req.length != 0 || req.value > 1 ==> handler.control_out_answer(req) == Some(
            OutResponse::Rejected,
        ) && handler.after_control_out(req) == handler,
{
}

/// A control IN request is answered exactly where it is a class request for the interface of the
/// boot keyboard with the code of GET_PROTOCOL; its direction and its value do not matter to that.
/// The answer is the selected protocol, 0 for Boot and 1 for Report, exactly where the value is 0,
/// the length is 1 and there is room for it.
pub proof fn law_get_protocol_is_answered(handler: UsbDeviceHandler, req: Request, room: nat)
    ensures
        handler.is_get_protocol(req) <==> {
            &&& handler.boot_keyboard_interface is Some
            &&& handler.boot_keyboard_interface->Some_0 == req.index
            &&& req.request_type == RequestType::Class
            &&& req.recipient == Recipient::Interface
            &&& req.request == 0x03
        },
        UsbDeviceHandler::get_protocol_well_formed(req, room) <==> {
            &&& req.value == 0
            &&& req.length == 1
            &&& room >= 1
        },
        handler.protocol == HidProtocolMode::Boot ==> handler.protocol.spec_code() == 0,
        handler.protocol == HidProtocolMode::Report ==> handler.protocol.spec_code() == 1,
{
}

/// A request is aimed at the boot keyboard by its type, its recipient and its index alone.
pub proof fn law_requests_are_aimed_by_type_recipient_and_index(
    handler: UsbDeviceHandler,
    req: Request,
    iface: u8,
)
    ensures
        handler.boot_keyboard_interface == Some(iface) ==> (handler.spec_targets_boot_keyboard(req)
            <==> {
            &&& req.request_type == RequestType::Class
            &&& req.recipient == Recipient::Interface
            &&& req.index == iface
        }),
        handler.boot_keyboard_interface is None ==> !handler.spec_targets_boot_keyboard(req),
{
}

/// Bus events publish these states, whatever was published before: enabled and deconfigured
/// devices are Enabled, disabled ones Disabled, configured ones Configured.
pub proof fn law_bus_events_publish_their_state(published: Published)
    ensures
        UsbDeviceHandler::after_enabled(published, true) == (Published {
            usb: UsbState::Enabled,
            selected: published.selected,
        }),
        UsbDeviceHandler::after_enabled(published, false) == (Published {
            usb: UsbState::Disabled,
            selected: (false, false),
        }),
        UsbDeviceHandler::after_configured(published, true) == (Published {
            usb: UsbState::Configured,
            selected: published.selected,
        }),
        UsbDeviceHandler::after_configured(published, false) == (Published {
            usb: UsbState::Enabled,
            selected: (false, false),
        }),
{
}

/// A suspend makes a configured device suspended and leaves any other as it is; a resume takes a
/// suspended device back to where it was before and leaves any other as it is. Neither changes the
/// protocol or the interface of the boot keyboard.
pub proof fn law_suspend_and_resume(handler: UsbDeviceHandler, usb: UsbState)
    ensures
        ({
            let (after, published) = handler.after_suspended(usb, true);
            &&& usb == UsbState::Configured ==> published == UsbState::Suspended
                && after.pre_suspend == UsbState::Configured
            &&& usb != UsbState::Configured ==> published == usb && after.pre_suspend
                == handler.pre_suspend
            &&& after.protocol == handler.protocol
            &&& after.boot_keyboard_interface == handler.boot_keyboard_interface
        }),
        ({
            let (after, published) = handler.after_suspended(usb, false);
            &&& usb == UsbState::Suspended ==> published == handler.pre_suspend
            &&& usb != UsbState::Suspended ==> published == usb
            &&& after == handler
        }),
{
}

/// A reset takes the boot keyboard back to the report protocol, drops the scroll negotiation and
/// changes nothing else, in whatever bus state.
pub proof fn law_reset_selects_the_report_protocol(handler: UsbDeviceHandler, published: Published)
    ensures
        UsbDeviceHandler::published_after_reset(published).selected == (false, false),
        UsbDeviceHandler::published_after_reset(published).usb == published.usb,
        handler.after_reset().protocol == HidProtocolMode::Report,
        handler.after_reset().pre_suspend == handler.pre_suspend,
        handler.after_reset().boot_keyboard_interface == handler.boot_keyboard_interface,
{
}

/// A feature report 5 of three bytes that starts with its id selects each axis by the lowest bit
/// of its byte, whatever was selected before; any other report keeps the selection.
pub proof fn law_multiplier_report_selects_the_axes(
    selected: (bool, bool),
    id: ReportId,
    data: Seq<u8>,
)
    ensures
        ({
            let after = UsbCompositeRequestHandler::after_set_report(selected, id, data);
            if id == ReportId::Feature(5) && data.len() == 3 && data[0] == 5 {
                &&& after.0 <==> data[1] % 2 == 1
                &&& after.1 <==> data[2] % 2 == 1
            } else {
                after == selected
            }
        }),
{
}

/// The host reads exactly feature report 5, in three bytes: its id, and 1 for each selected axis.
pub proof fn law_multiplier_report_tells_the_axes(
    id: ReportId,
    room: nat,
    wheel: bool,
    pan: bool,
)
    ensures
        UsbCompositeRequestHandler::get_report_answered(id, room) <==> id == ReportId::Feature(5)
            && room >= 3,
        multiplier_report((wheel, pan)).len() == 3,
        multiplier_report((wheel, pan))[0] == 5,
        multiplier_report((wheel, pan))[1] == 1 <==> wheel,
        multiplier_report((wheel, pan))[1] == 0 <==> !wheel,
        multiplier_report((wheel, pan))[2] == 1 <==> pan,
        multiplier_report((wheel, pan))[2] == 0 <==> !pan,
{
}

} // verus!
