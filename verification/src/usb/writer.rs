//! The report writer: which endpoint a report goes to and in which bytes, and what to do when the
//! host does not take it.

use vstd::prelude::*;
use vstd::slice::{slice_subrange, slice_to_vec};

use crate::hid::{
    CompositeReportType, EndpointError, HidError, KeyboardReport, MediaKeyboardReport, MouseReport,
    Report, StenoReport, SystemControlReport, MOUSE_REPORT_SIZE, PLOVER_HID_REPORT_ID,
};
use crate::state::UsbState;
use crate::wire::AsInputReport;

verus! {

/// The longest transfer to the keyboard endpoint: a boot keyboard report.
pub const KEYBOARD_WRITE_SIZE: usize = 8;

/// The longest transfer to the composite endpoint: a report id and a mouse report.
pub const COMPOSITE_WRITE_SIZE: usize = MOUSE_REPORT_SIZE + 1;

/// The longest transfer to the stenography endpoint: the Plover report id and a chord.
pub const STENO_WRITE_SIZE: usize = 9;

/// Cap on how long a steno report write is allowed to block. The host only drains the steno IN
/// endpoint while Plover is running; without this cap the writer would stall whenever Plover is
/// absent, and starve keyboard reports.
pub const STENO_WRITE_TIMEOUT_MS: u64 = 5;

/// How long the host gets to wake up before a failed report is retried.
pub const WAKEUP_DELAY_MS: u64 = 500;

/// The IN endpoints that reports are written to.
#[derive(Debug, Clone, Copy, PartialEq, Eq, Structural)]
pub enum Endpoint {
    Keyboard,
    Composite,
    Steno,
}

impl Endpoint {
    /// The longest transfer that the endpoint takes.
    pub open spec fn spec_capacity(self) -> usize {
        match self {
            Endpoint::Keyboard => KEYBOARD_WRITE_SIZE,
            Endpoint::Composite => COMPOSITE_WRITE_SIZE,
            Endpoint::Steno => STENO_WRITE_SIZE,
        }
    }
}

/// A report as it goes to an endpoint.
#[derive(Debug)]
pub struct Transfer {
    pub endpoint: Endpoint,
    /// The bytes to write.
    pub data: Vec<u8>,
    /// How long the write may block, if it is limited.
    pub timeout_ms: Option<u64>,
}

/// How a write to an endpoint ended.
#[derive(Debug, Clone, Copy, PartialEq, Eq, Structural)]
pub enum WriteOutcome {
    Written,
    Failed(EndpointError),
    /// The time limit of the transfer was reached.
    TimedOut,
}

/// The endpoint that a report goes to.
pub open spec fn report_endpoint(report: Report) -> Endpoint {
    match report {
        Report::KeyboardReport(_) => Endpoint::Keyboard,
        Report::MouseReport(_) => Endpoint::Composite,
        Report::MediaKeyboardReport(_) => Endpoint::Composite,
        Report::SystemControlReport(_) => Endpoint::Composite,
        Report::StenoReport(_) => Endpoint::Steno,
    }
}

/// The bytes that a report is written in: its wire form, which the composite interface puts
/// behind the report id.
pub open spec fn transfer_bytes(report: Report) -> Seq<u8> {
    match report {
        Report::KeyboardReport(r) => r.wire(),
        Report::MouseReport(r) => seq![CompositeReportType::Mouse.spec_id()] + r.wire(),
        Report::MediaKeyboardReport(r) => seq![CompositeReportType::Media.spec_id()] + r.wire(),
        Report::SystemControlReport(r) => seq![CompositeReportType::System.spec_id()] + r.wire(),
        Report::StenoReport(r) => r.wire(),
    }
}

/// Only a steno report may go unread.
pub open spec fn transfer_timeout(report: Report) -> Option<u64> {
    if report is StenoReport {
        Some(STENO_WRITE_TIMEOUT_MS)
    } else {
        None
    }
}

/// What a transfer of `len` bytes comes to once its write has ended.
pub open spec fn spec_finish_write(len: usize, outcome: WriteOutcome) -> Result<usize, HidError> {
    match outcome {
        WriteOutcome::Written | WriteOutcome::TimedOut => Ok(len),
        WriteOutcome::Failed(e) => Err(HidError::UsbEndpointError(e)),
    }
}

/// The result of writing a report, once its transfer has ended: the number of bytes written, with
/// the report id where there is one. A transfer that nobody read in time is dropped and counts as
/// written.
pub fn finish_write(transfer: &Transfer, outcome: WriteOutcome) -> (result: Result<usize, HidError>)
    ensures
        result == spec_finish_write(transfer.data@.len() as usize, outcome),
{
    match outcome {
        WriteOutcome::Written => Ok(transfer.data.len()),
        WriteOutcome::Failed(e) => Err(HidError::UsbEndpointError(e)),
        WriteOutcome::TimedOut => Ok(transfer.data.len()),
    }
}

/// The report writer: what it is doing with the report that it has received.
#[derive(Debug)]
pub enum UsbKeyboardWriter {
    /// Waiting for a report.
    Receiving,
    /// Writing a report for the first time.
    Writing(Report),
    /// Giving the host a moment to wake up.
    WakingUp(Report),
    /// Writing the same report again.
    Retrying(Report),
}

/// What the writer learns.
#[derive(Debug)]
pub enum WriterEvent {
    /// A report to send, and the bus state at that moment.
    Received(Report, UsbState),
    /// The result of writing the pending report.
    Written(Result<usize, HidError>),
    /// The delay that the writer had asked for is over.
    DelayElapsed,
}

/// What the writer does next.
#[derive(Debug, Clone, Copy, PartialEq, Eq, Structural)]
pub enum WriterAction {
    /// Wait for the next report.
    Receive,
    /// Signal remote wakeup, then wait for the next report.
    WakeupAndReceive,
    /// Write the pending report.
    Write,
    /// Signal remote wakeup, then wait this many milliseconds.
    WakeupAndWait(u64),
}

impl UsbKeyboardWriter {
    /// Prepares a report for the composite endpoint, behind its report id. A report longer than a
    /// mouse report does not fit.
    pub fn write_composite<R: AsInputReport>(
        kind: CompositeReportType,
        report: &R,
    ) -> (result: Result<Transfer, HidError>)
        ensures
            result is Ok <==> report.wire().len() <= MOUSE_REPORT_SIZE,
            result matches Ok(transfer) ==> {
                &&& transfer.endpoint == Endpoint::Composite
                &&& transfer.data@ == seq![kind.spec_id()] + report.wire()
                &&& transfer.timeout_ms is None
            },
            result matches Err(e) ==> e == HidError::ReportSerializeError,
    {
        let mut buf: [u8; 10] = [0;10];
        buf[0] = kind.id();
        let (_, payload) = buf.split_at_mut(1);
        match report.serialize(payload) {
            Ok(n) => {
                let data = slice_to_vec(slice_subrange(buf.as_slice(), 0, n + 1));
                assert(data@ =~= seq![kind.spec_id()] + report.wire());
                let endpoint = Endpoint::Composite;
                Ok(Transfer { endpoint, data, timeout_ms: None })
            },
            Err(_) => Err(HidError::ReportSerializeError),
        }
    }

    /// Prepares a report for the endpoint it belongs to. Every report fits.
    pub fn write_report(report: &Report) -> (result: Result<Transfer, HidError>)
        ensures
            result matches Ok(transfer) && {
                &&& transfer.endpoint == report_endpoint(*report)
                &&& transfer.data@ == transfer_bytes(*report)
                &&& transfer.data@.len() <= transfer.endpoint.spec_capacity()
                &&& transfer.timeout_ms == transfer_timeout(*report)
            },
    {
        match report {
            Report::KeyboardReport(r) => {
                let mut buf: [u8; 8] = [0;8];
                let n: usize = match r.serialize(&mut buf) {
                    Ok(n) => n,
                    Err(_) => return Err(HidError::ReportSerializeError),
                };
                let data = slice_to_vec(slice_subrange(buf.as_slice(), 0, n));
                assert(data@ =~= r.wire());
                Ok(Transfer { endpoint: Endpoint::Keyboard, data, timeout_ms: None })
            },
            Report::MouseReport(r) => Self::write_composite(CompositeReportType::Mouse, r),
            Report::MediaKeyboardReport(r) => Self::write_composite(CompositeReportType::Media, r),
            Report::SystemControlReport(r) => Self::write_composite(CompositeReportType::System, r),
            Report::StenoReport(r) => {
                let mut buf: [u8; 9] = [0;9];
                let n: usize = match r.serialize(&mut buf) {
                    Ok(n) => n,
                    Err(_) => return Err(HidError::ReportSerializeError),
                };
                let data = slice_to_vec(slice_subrange(buf.as_slice(), 0, n));
                assert(data@ =~= r.wire());
                Ok(
                    Transfer {
                        endpoint: Endpoint::Steno,
                        data,
                        timeout_ms: Some(STENO_WRITE_TIMEOUT_MS),
                    },
                )
            },
        }
    }

    /// The report that is being sent.
    pub open spec fn spec_pending(self) -> Option<Report> {
        match self {
            UsbKeyboardWriter::Receiving => None,
            UsbKeyboardWriter::Writing(report) => Some(report),
            UsbKeyboardWriter::WakingUp(report) => Some(report),
            UsbKeyboardWriter::Retrying(report) => Some(report),
        }
    }

    /// The report that is being sent.
    pub fn pending(&self) -> (report: Option<&Report>)
        ensures
            report is Some <==> self.spec_pending() is Some,
            report matches Some(r) ==> *r == self.spec_pending()->Some_0,
    {
        match self {
            UsbKeyboardWriter::Receiving => None,
            UsbKeyboardWriter::Writing(report) => Some(report),
            UsbKeyboardWriter::WakingUp(report) => Some(report),
            UsbKeyboardWriter::Retrying(report) => Some(report),
        }
    }

    /// The events that can follow what the writer is doing.
    pub open spec fn expects(self, event: WriterEvent) -> bool {
        match self {
            UsbKeyboardWriter::Receiving => event is Received,
            UsbKeyboardWriter::Writing(_) => event is Written,
            UsbKeyboardWriter::WakingUp(_) => event is DelayElapsed,
            UsbKeyboardWriter::Retrying(_) => event is Written,
        }
    }

    /// What the writer turns to and does after `event`.
    pub open spec fn next(self, event: WriterEvent) -> (Self, WriterAction) {
        match (self, event) {
            (
                UsbKeyboardWriter::Receiving,
                WriterEvent::Received(report, usb),
            ) if usb != UsbState::Suspended => (
                UsbKeyboardWriter::Writing(report),
                WriterAction::Write,
            ),
            (UsbKeyboardWriter::Receiving, _) => (
                UsbKeyboardWriter::Receiving,
                WriterAction::WakeupAndReceive,
            ),
            (UsbKeyboardWriter::Writing(report), WriterEvent::Written(Err(e))) if e
                == HidError::UsbEndpointError(EndpointError::Disabled) => (
                UsbKeyboardWriter::WakingUp(report),
                WriterAction::WakeupAndWait(WAKEUP_DELAY_MS),
            ),
            (UsbKeyboardWriter::WakingUp(report), _) => (
                UsbKeyboardWriter::Retrying(report),
                WriterAction::Write,
            ),
            _ => (UsbKeyboardWriter::Receiving, WriterAction::Receive),
        }
    }

    /// A writer that waits for its first report.
    pub fn new() -> (writer: Self)
        ensures
            writer == UsbKeyboardWriter::Receiving,
    {
        UsbKeyboardWriter::Receiving
    }

    /// Takes the next step.
    ///
    /// Some peripherals never report a disabled endpoint during suspend, so a report that arrives
    /// while the bus is suspended signals wakeup at once and is dropped. Where the endpoint does
    /// report it, the writer signals wakeup, gives the host a moment and retries the same report
    /// once.
    pub fn advance(self, event: WriterEvent) -> (step: (Self, WriterAction))
        requires
            self.expects(event),
        ensures
            step == self.next(event),
    {
        match (self, event) {
            (UsbKeyboardWriter::Receiving, WriterEvent::Received(report, usb)) => {
                if usb == UsbState::Suspended {
                    (UsbKeyboardWriter::Receiving, WriterAction::WakeupAndReceive)
                } else {
                    (UsbKeyboardWriter::Writing(report), WriterAction::Write)
                }
            },
            (UsbKeyboardWriter::Writing(report), WriterEvent::Written(result)) => {
                let disabled = match result {
                    Err(HidError::UsbEndpointError(EndpointError::Disabled)) => true,
                    _ => false,
                };
                if disabled {
                    (
                        UsbKeyboardWriter::WakingUp(report),
                        WriterAction::WakeupAndWait(WAKEUP_DELAY_MS),
                    )
                } else {
                    (UsbKeyboardWriter::Receiving, WriterAction::Receive)
                }
            },
            (UsbKeyboardWriter::WakingUp(report), _) => (
                UsbKeyboardWriter::Retrying(report),
                WriterAction::Write,
            ),
            _ => (UsbKeyboardWriter::Receiving, WriterAction::Receive),
        }
    }
}

/// The writer after a history of events.
pub open spec fn writer_after(history: Seq<WriterEvent>) -> UsbKeyboardWriter
    decreases history.len(),
{
    if history.len() == 0 {
        UsbKeyboardWriter::Receiving
    } else {
        writer_after(history.drop_last()).next(history.last()).0
    }
}

/// Every event of the history is one that the writer expected.
pub open spec fn expected_history(history: Seq<WriterEvent>) -> bool
    decreases history.len(),
{
    history.len() == 0 || (expected_history(history.drop_last()) && writer_after(
        history.drop_last(),
    ).expects(history.last()))
}

/// How many writes the writer has asked for.
pub open spec fn writes(history: Seq<WriterEvent>) -> nat
    decreases history.len(),
{
    if history.len() == 0 {
        0
    } else {
        writes(history.drop_last()) + (if writer_after(history.drop_last()).next(history.last()).1
            == WriterAction::Write {
            1nat
        } else {
            0nat
        })
    }
}

/// How many reports arrived while the bus was not suspended.
pub open spec fn reports_received_awake(history: Seq<WriterEvent>) -> nat
    decreases history.len(),
{
    if history.len() == 0 {
        0
    } else {
        reports_received_awake(history.drop_last()) + (match history.last() {
            WriterEvent::Received(_, usb) if usb != UsbState::Suspended => 1nat,
            _ => 0nat,
        })
    }
}

/// How many times the write of a report has found its endpoint disabled.
pub open spec fn disabled_writes(history: Seq<WriterEvent>) -> nat
    decreases history.len(),
{
    if history.len() == 0 {
        0
    } else {
        disabled_writes(history.drop_last()) + (match history.last() {
            WriterEvent::Written(Err(e)) if e == HidError::UsbEndpointError(
                EndpointError::Disabled,
            ) => 1nat,
            _ => 0nat,
        })
    }
}

/// Each report that arrives awake is written once, and at most once more. It is only written again
/// after its endpoint was found disabled, and a report that arrives while the bus is suspended is
/// never written.
pub proof fn law_each_report_is_written_once_or_retried_once(history: Seq<WriterEvent>)
    requires
        expected_history(history),
    ensures
        reports_received_awake(history) <= writes(history) <= 2 * reports_received_awake(history),
        writes(history) <= reports_received_awake(history) + disabled_writes(history),
        writer_after(history) is Writing || writer_after(history) is WakingUp ==> writes(history)
            < 2 * reports_received_awake(history),
        writer_after(history) is WakingUp ==> writes(history) < reports_received_awake(history)
            + disabled_writes(history),
    decreases history.len(),
{
    if history.len() > 0 {
        law_each_report_is_written_once_or_retried_once(history.drop_last());
    }
}

/// While a report is being sent it stays the same report, so what is retried is what failed.
pub proof fn law_the_retried_report_is_the_failed_one(
    writer: UsbKeyboardWriter,
    event: WriterEvent,
)
    requires
        writer.expects(event),
        writer.spec_pending() is Some,
        writer.next(event).0.spec_pending() is Some,
    ensures
        writer.next(event).0.spec_pending() == writer.spec_pending(),
{
}

/// How many more events a report can take before the writer is free for the next one.
pub open spec fn steps_left(writer: UsbKeyboardWriter) -> nat {
    match writer {
        UsbKeyboardWriter::Receiving => 0,
        UsbKeyboardWriter::Writing(_) => 3,
        UsbKeyboardWriter::WakingUp(_) => 2,
        UsbKeyboardWriter::Retrying(_) => 1,
    }
}

/// No report holds up the ones behind it: once received, it is done after at most three more
/// events, whatever the host does.
pub proof fn law_writer_returns_to_receiving(writer: UsbKeyboardWriter, event: WriterEvent)
    requires
        writer.expects(event),
        !(writer is Receiving),
    ensures
        steps_left(writer.next(event).0) < steps_left(writer) <= 3,
        steps_left(writer.next(event).0) == 0 <==> writer.next(event).0 is Receiving,
{
}

/// Wakeup is signalled for a report that arrives while the bus is suspended and for one whose
/// first write finds its endpoint disabled, and for no other.
pub proof fn law_wakeup_means_host_asleep(writer: UsbKeyboardWriter, event: WriterEvent)
    requires
        writer.expects(event),
    ensures
        writer.next(event).1 == WriterAction::WakeupAndReceive <==> (event matches
            WriterEvent::Received(_, usb) && usb == UsbState::Suspended),
        writer.next(event).1 is WakeupAndWait <==> (writer is Writing && event
            == WriterEvent::Written(
            Err(HidError::UsbEndpointError(EndpointError::Disabled)),
        )),
{
}

/// Once a report has been written, the result counts every byte that went to the endpoint: those
/// of the report, and the report id in front of a report on the composite endpoint.
pub proof fn law_written_report_counts_every_byte(report: Report)
    ensures
        spec_finish_write(transfer_bytes(report).len() as usize, WriteOutcome::Written) == Ok::<
            usize,
            HidError,
        >(
            (report.wire().len() + (if report_endpoint(report) == Endpoint::Composite {
                1nat
            } else {
                0nat
            })) as usize,
        ),
{
}

/// No transfer is longer than its endpoint takes, and the keyboard's is the 8-byte boot report
/// without a report id.
pub proof fn law_transfers_fit_their_endpoint(report: Report)
    ensures
        transfer_bytes(report).len() <= report_endpoint(report).spec_capacity(),
        report matches Report::KeyboardReport(r) ==> transfer_bytes(report) == r.wire()
            && r.wire().len() == 8,
{
}

/// The first byte of a transfer to the composite or the stenography endpoint tells the host which
/// report follows.
pub proof fn law_shared_endpoints_carry_the_report_id(report: Report)
    ensures
        report is MouseReport ==> transfer_bytes(report)[0] == 0x02,
        report is MediaKeyboardReport ==> transfer_bytes(report)[0] == 0x03,
        report is SystemControlReport ==> transfer_bytes(report)[0] == 0x04,
        report is StenoReport ==> transfer_bytes(report)[0] == PLOVER_HID_REPORT_ID,
{
}

/// A report that arrives while the bus is not suspended is written, and one that arrives while it
/// is suspended wakes the host up and is dropped; for every report and every bus state.
pub proof fn law_a_received_report_is_written_unless_suspended(report: Report, usb: UsbState)
    ensures
        UsbKeyboardWriter::Receiving.expects(WriterEvent::Received(report, usb)),
        usb != UsbState::Suspended ==> UsbKeyboardWriter::Receiving.next(
            WriterEvent::Received(report, usb),
        ) == (UsbKeyboardWriter::Writing(report), WriterAction::Write),
        usb == UsbState::Suspended ==> UsbKeyboardWriter::Receiving.next(
            WriterEvent::Received(report, usb),
        ) == (UsbKeyboardWriter::Receiving, WriterAction::WakeupAndReceive),
{
}

/// A report of any kind whose first write finds its endpoint disabled is written once more: the
/// writer signals wakeup, waits half a second, writes the same report again, and is done with it
/// whatever comes of that.
pub proof fn law_a_report_is_retried_after_a_disabled_endpoint(
    report: Report,
    result: Result<usize, HidError>,
)
    ensures
        ({
            let disabled = WriterEvent::Written(
                Err(HidError::UsbEndpointError(EndpointError::Disabled)),
            );
            let (waiting, wait) = UsbKeyboardWriter::Writing(report).next(disabled);
            let (again, write) = waiting.next(WriterEvent::DelayElapsed);
            let (done, receive) = again.next(WriterEvent::Written(result));
            &&& UsbKeyboardWriter::Writing(report).expects(disabled)
            &&& wait == WriterAction::WakeupAndWait(500)
            &&& waiting.spec_pending() == Some(report)
            &&& waiting.expects(WriterEvent::DelayElapsed)
            &&& write == WriterAction::Write
            &&& again.spec_pending() == Some(report)
            &&& again.expects(WriterEvent::Written(result))
            &&& done == UsbKeyboardWriter::Receiving
            &&& receive == WriterAction::Receive
        }),
{
}

/// A first write that ends in any other way, well or badly, is the last of its report.
pub proof fn law_a_report_is_done_after_any_other_result(
    report: Report,
    result: Result<usize, HidError>,
)
    requires
        result != Err::<usize, HidError>(HidError::UsbEndpointError(EndpointError::Disabled)),
    ensures
        UsbKeyboardWriter::Writing(report).expects(WriterEvent::Written(result)),
        UsbKeyboardWriter::Writing(report).next(WriterEvent::Written(result)) == (
            UsbKeyboardWriter::Receiving,
            WriterAction::Receive,
        ),
{
}

/// The report that is being sent is the one that the writer has received.
pub proof fn law_the_pending_report_is_the_received_one(report: Report, usb: UsbState)
    ensures
        UsbKeyboardWriter::Receiving.spec_pending() is None,
        usb != UsbState::Suspended ==> UsbKeyboardWriter::Receiving.next(
            WriterEvent::Received(report, usb),
        ).0.spec_pending() == Some(report),
        UsbKeyboardWriter::Writing(report).spec_pending() == Some(report),
        UsbKeyboardWriter::WakingUp(report).spec_pending() == Some(report),
        UsbKeyboardWriter::Retrying(report).spec_pending() == Some(report),
{
}

/// The last event is a first write that found its endpoint disabled: the report had only just been
/// received.
pub open spec fn ends_in_disabled_first_write(history: Seq<WriterEvent>) -> bool {
    &&& history.len() >= 2
    &&& history.last() == WriterEvent::Written(
        Err(HidError::UsbEndpointError(EndpointError::Disabled)),
    )
    &&& history[history.len() - 2] is Received
}

/// How many first writes have found their endpoint disabled.
pub open spec fn disabled_first_writes(history: Seq<WriterEvent>) -> nat
    decreases history.len(),
{
    if history.len() == 0 {
        0
    } else {
        disabled_first_writes(history.drop_last()) + (if ends_in_disabled_first_write(history) {
            1nat
        } else {
            0nat
        })
    }
}

/// What the last event tells about what the writer is doing.
proof fn lemma_last_event(history: Seq<WriterEvent>)
    requires
        expected_history(history),
        history.len() > 0,
    ensures
        writer_after(history) is Writing <==> (history.last() matches WriterEvent::Received(_, usb)
            && usb != UsbState::Suspended),
        writer_after(history) is WakingUp <==> ends_in_disabled_first_write(history),
        writer_after(history) is Retrying <==> history.last() is DelayElapsed,
    decreases history.len(),
{
    let before = history.drop_last();
    if before.len() > 0 {
        lemma_last_event(before);
        assert(before.last() == history[history.len() - 2]);
    }
}

/// The writer asks for exactly one write per report that arrives awake, and for exactly one more
/// per first write that has found its endpoint disabled and whose delay is over.
pub proof fn law_writes_are_reports_and_retries(history: Seq<WriterEvent>)
    requires
        expected_history(history),
    ensures
        writes(history) == reports_received_awake(history) + disabled_first_writes(history) - (
        if ends_in_disabled_first_write(history) {
            1int
        } else {
            0int
        }),
    decreases history.len(),
{
    if history.len() > 0 {
        let before = history.drop_last();
        law_writes_are_reports_and_retries(before);
        lemma_last_event(history);
        if before.len() > 0 {
            lemma_last_event(before);
            assert(before.last() == history[history.len() - 2]);
        }
    }
}

/// Each kind of report goes to its endpoint, in these bytes and with this limit: keyboard and
/// stenography reports in their wire form, and mouse, media and system reports behind the ids 2, 3
/// and 4. Only a stenography report is given up, after five milliseconds.
pub proof fn law_reports_go_to_their_endpoints(
    keyboard: KeyboardReport,
    mouse: MouseReport,
    media: MediaKeyboardReport,
    system: SystemControlReport,
    steno: StenoReport,
)
    ensures
        ({
            let report = Report::KeyboardReport(keyboard);
            &&& report_endpoint(report) == Endpoint::Keyboard
            &&& transfer_bytes(report) == keyboard.wire()
            &&& transfer_timeout(report) is None
        }),
        ({
            let report = Report::MouseReport(mouse);
            &&& report_endpoint(report) == Endpoint::Composite
            &&& transfer_bytes(report) == seq![2u8] + mouse.wire()
            &&& transfer_timeout(report) is None
        }),
        ({
            let report = Report::MediaKeyboardReport(media);
            &&& report_endpoint(report) == Endpoint::Composite
            &&& transfer_bytes(report) == seq![3u8] + media.wire()
            &&& transfer_timeout(report) is None
        }),
        ({
            let report = Report::SystemControlReport(system);
            &&& report_endpoint(report) == Endpoint::Composite
            &&& transfer_bytes(report) == seq![4u8] + system.wire()
            &&& transfer_timeout(report) is None
        }),
        ({
            let report = Report::StenoReport(steno);
            &&& report_endpoint(report) == Endpoint::Steno
            &&& transfer_bytes(report) == steno.wire()
            &&& transfer_timeout(report) == Some(5u64)
        }),
{
}

/// The endpoints take 8, 10 and 9 bytes.
pub proof fn law_endpoints_take_their_longest_report(endpoint: Endpoint)
    ensures
        endpoint == Endpoint::Keyboard ==> endpoint.spec_capacity() == 8,
        endpoint == Endpoint::Composite ==> endpoint.spec_capacity() == 10,
        endpoint == Endpoint::Steno ==> endpoint.spec_capacity() == 9,
{
}

/// A write of any length that ends well, or that nobody read in time, gives this length, and one
/// that fails gives the error of the endpoint, whichever it is.
pub proof fn law_write_results(len: usize, error: EndpointError)
    ensures
        spec_finish_write(len, WriteOutcome::Written) == Ok::<usize, HidError>(len),
        spec_finish_write(len, WriteOutcome::TimedOut) == Ok::<usize, HidError>(len),
        spec_finish_write(len, WriteOutcome::Failed(error)) == Err::<usize, HidError>(
            HidError::UsbEndpointError(error),
        ),
{
}

} // verus!
