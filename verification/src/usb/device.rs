//! The device task: running the bus until it is suspended, and waking the host up.

use vstd::prelude::*;

verus! {

/// What the device task is doing.
#[derive(Debug, Clone, Copy, PartialEq, Eq, Structural)]
pub enum DeviceTask {
    /// Running the bus until it is suspended.
    Running,
    /// Suspended, waiting for the host to resume or for a reason to wake it up.
    Suspended,
    /// Asking the host to wake up.
    Waking,
}

/// What the device task learns.
#[derive(Debug, Clone, Copy, PartialEq, Eq, Structural)]
pub enum DeviceEvent {
    /// The bus was suspended.
    BusSuspended,
    /// The host resumed the bus.
    HostResumed,
    /// Something wants the host awake.
    WakeupRequested,
    /// The remote wakeup was sent, or could not be.
    WakeupSent { success: bool },
}

/// What the device task does next.
#[derive(Debug, Clone, Copy, PartialEq, Eq, Structural)]
pub enum DeviceAction {
    RunUntilSuspend,
    WaitForResumeOrWakeup,
    RemoteWakeup,
}

impl DeviceTask {
    /// The events that can follow what the task is doing.
    pub open spec fn expects(self, event: DeviceEvent) -> bool {
        match self {
            DeviceTask::Running => event is BusSuspended,
            DeviceTask::Suspended => event is HostResumed || event is WakeupRequested,
            DeviceTask::Waking => event is WakeupSent,
        }
    }

    /// What the task does in each state.
    pub open spec fn spec_action(self) -> DeviceAction {
        match self {
            DeviceTask::Running => DeviceAction::RunUntilSuspend,
            DeviceTask::Suspended => DeviceAction::WaitForResumeOrWakeup,
            DeviceTask::Waking => DeviceAction::RemoteWakeup,
        }
    }

    /// What the task turns to after `event`.
    pub open spec fn next(self, event: DeviceEvent) -> Self {
        match event {
            DeviceEvent::BusSuspended => DeviceTask::Suspended,
            DeviceEvent::HostResumed => DeviceTask::Running,
            DeviceEvent::WakeupRequested => DeviceTask::Waking,
            DeviceEvent::WakeupSent { .. } => DeviceTask::Running,
        }
    }

    /// A task that starts to run the bus.
    pub fn new() -> (task: Self)
        ensures
            task == DeviceTask::Running,
    {
        DeviceTask::Running
    }

    /// What the task does now.
    pub fn action(&self) -> (action: DeviceAction)
        ensures
            action == self.spec_action(),
    {
        match self {
            DeviceTask::Running => DeviceAction::RunUntilSuspend,
            DeviceTask::Suspended => DeviceAction::WaitForResumeOrWakeup,
            DeviceTask::Waking => DeviceAction::RemoteWakeup,
        }
    }

    /// Takes the next step. A wakeup that fails leads back to running the bus, which ends at once
    /// while it is still suspended, so the next request is tried again.
    pub fn advance(&mut self, event: DeviceEvent)
        requires
            old(self).expects(event),
        ensures
            *final(self) == old(self).next(event),
    {
        *self = match event {
            DeviceEvent::BusSuspended => DeviceTask::Suspended,
            DeviceEvent::HostResumed => DeviceTask::Running,
            DeviceEvent::WakeupRequested => DeviceTask::Waking,
            DeviceEvent::WakeupSent { .. } => DeviceTask::Running,
        };
    }
}

/// Every wakeup request of a suspended device is sent to the host, and whether or not that
/// succeeds the task runs the bus again and takes the next request.
pub proof fn law_wakeup_is_sent_and_can_be_retried(success: bool)
    ensures
        DeviceTask::Suspended.next(DeviceEvent::WakeupRequested).spec_action()
            == DeviceAction::RemoteWakeup,
        DeviceTask::Waking.next(DeviceEvent::WakeupSent { success }).next(
            DeviceEvent::BusSuspended,
        ).expects(DeviceEvent::WakeupRequested),
{
}

/// The task only sends a wakeup that was requested, and only while the bus is suspended.
pub proof fn law_wakeup_is_only_sent_on_request(task: DeviceTask, event: DeviceEvent)
    requires
        task.expects(event),
        task.next(event).spec_action() == DeviceAction::RemoteWakeup,
    ensures
        task == DeviceTask::Suspended,
        event == DeviceEvent::WakeupRequested,
{
}

/// What the task does and waits for, in every state: it runs the bus until that is suspended,
/// then waits for the host or for a request, and a request is followed by a wakeup.
pub proof fn law_task_follows_the_bus(event: DeviceEvent, success: bool)
    ensures
        DeviceTask::Running.spec_action() == DeviceAction::RunUntilSuspend,
        DeviceTask::Running.expects(event) <==> event == DeviceEvent::BusSuspended,
        DeviceTask::Running.next(DeviceEvent::BusSuspended) == DeviceTask::Suspended,
        DeviceTask::Suspended.spec_action() == DeviceAction::WaitForResumeOrWakeup,
        DeviceTask::Suspended.expects(event) <==> event == DeviceEvent::HostResumed || event
            == DeviceEvent::WakeupRequested,
        DeviceTask::Suspended.next(DeviceEvent::HostResumed) == DeviceTask::Running,
        DeviceTask::Suspended.next(DeviceEvent::WakeupRequested) == DeviceTask::Waking,
        DeviceTask::Waking.spec_action() == DeviceAction::RemoteWakeup,
        DeviceTask::Waking.expects(event) <==> (event matches DeviceEvent::WakeupSent { .. }),
        DeviceTask::Waking.next(DeviceEvent::WakeupSent { success }) == DeviceTask::Running,
{
}

} // verus!
