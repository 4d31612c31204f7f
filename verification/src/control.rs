//! The service control state machine: the dispatch logic the service control
//! manager drives once per control request, and the start handshake the main
//! driver performs after registration.
//!
//! The driver around the library serializes every call in here behind one
//! mutex, so a control request is fully handled — lock, legality check,
//! handler callback, status publishes — before the next one begins.

use vstd::prelude::*;

use crate::status::current_report;
use crate::status::updater_evolved;
use crate::status::ServiceState;
use crate::status::StatusUpdater;
use crate::status::StatusView;

verus! {

/// Control code asking the service to stop.
pub const SERVICE_CONTROL_STOP: u32 = 1;
/// Control code asking the service to pause.
pub const SERVICE_CONTROL_PAUSE: u32 = 2;
/// Control code asking a paused service to continue.
pub const SERVICE_CONTROL_CONTINUE: u32 = 3;
/// Control code asking the service to republish its current status.
pub const SERVICE_CONTROL_INTERROGATE: u32 = 4;
/// Control code notifying the service of a parameter change.
pub const SERVICE_CONTROL_PARAMCHANGE: u32 = 6;
/// Control code delivering a power event.
pub const SERVICE_CONTROL_POWEREVENT: u32 = 13;

/// Power-event subtype for a power-setting change.
pub const PBT_POWERSETTINGCHANGE: u32 = 32787;

/// Reply code for a control request handled successfully.
pub const NO_ERROR: u32 = 0;
/// Reply code for a control code this dispatcher does not implement.
pub const ERROR_CALL_NOT_IMPLEMENTED: u32 = 120;
/// Reply code for a control request that is illegal in the current state.
pub const ERROR_INVALID_STATE: u32 = 5023;

/// Placeholder error value kept for callers that match on it.
pub struct Error {}

/// How a lifecycle hook can fail.
#[derive(Debug, PartialEq, Eq, Structural)]
pub enum ServiceError {
    Failed,
}

/// The control requests a handler can be asked to honor.
#[derive(Clone, Copy, Debug, PartialEq, Eq, Structural)]
pub enum ServiceControl {
    Pause,
    Resume,
    Stop,
}

/// Identifier of a power setting, delivered with a power-setting change.
#[derive(Clone, Copy, Debug, PartialEq, Eq)]
pub struct PowerSettingId {
    pub data1: u32,
    pub data2: u16,
    pub data3: u16,
    pub data4: [u8; 8],
}

/// Payload of a power-setting-change event: the setting that changed and its
/// raw value, which the dispatcher hands through uninterpreted.
pub struct PowerBroadcastSetting {
    pub power_setting: PowerSettingId,
    pub data: Vec<u8>,
}

/// The user-supplied lifecycle behavior of one service.
///
/// Every hook but `start` defaults to a no-op.  A hook that is handed the
/// status updater may publish progress through it and flip its accept bits,
/// and nothing more: the contracts promise the dispatcher that the state,
/// the registration and the already-published reports stay as they were.
pub trait ServiceHandler {
    /// A stable name for the service, used at registration.
    fn service_name(&self) -> (r: &str);

    /// Runs exactly once, on the thread that is about to report the running
    /// state.  On failure the service reports stopped and the process is
    /// expected to exit; no retry is attempted.
    fn start(&mut self, updater: &mut StatusUpdater) -> (r: Result<(), ServiceError>)
        requires
            old(updater).wf(),
        ensures
            final(updater).wf(),
            updater_evolved(old(updater)@, final(updater)@),
    {
        Ok(())
    }

    /// Called for a continue request, while the continue-pending state is
    /// published.
    fn resume(&mut self, updater: &mut StatusUpdater)
        requires
            old(updater).wf(),
        ensures
            final(updater).wf(),
            updater_evolved(old(updater)@, final(updater)@),
    {
    }

    /// Called for a pause request.  The dispatcher forces no transition:
    /// the handler decides what pausing means.
    fn pause(&mut self, updater: &mut StatusUpdater)
        requires
            old(updater).wf(),
        ensures
            final(updater).wf(),
            updater_evolved(old(updater)@, final(updater)@),
    {
    }

    /// Called for a stop request, while the stop-pending state is published.
    fn stop(&mut self, updater: &mut StatusUpdater)
        requires
            old(updater).wf(),
        ensures
            final(updater).wf(),
            updater_evolved(old(updater)@, final(updater)@),
    {
    }

    /// Called for a shutdown notification.
    fn shutdown(&mut self, updater: &mut StatusUpdater)
        requires
            old(updater).wf(),
        ensures
            final(updater).wf(),
            updater_evolved(old(updater)@, final(updater)@),
    {
    }

    /// Called ahead of a shutdown, where the host grants extra time.
    fn preshutdown(&mut self, updater: &mut StatusUpdater)
        requires
            old(updater).wf(),
        ensures
            final(updater).wf(),
            updater_evolved(old(updater)@, final(updater)@),
    {
    }

    /// Called for a parameter-change notification.
    fn param_change(&mut self) {
    }

    /// Called for a power-setting change with the setting and its raw value.
    fn power_setting(&mut self, power_setting: &PowerSettingId, data: &[u8]) {
    }
}

/// The shared state the dispatch loop and the main driver jointly own.  The
/// driver serializes every access behind one mutex.
pub struct SharedServiceState<H> {
    pub status_updater: StatusUpdater,
    pub handler: H,
}

/// The control codes this dispatcher implements.
pub open spec fn recognized_control(control: u32) -> bool {
    ||| control == SERVICE_CONTROL_STOP
    ||| control == SERVICE_CONTROL_PAUSE
    ||| control == SERVICE_CONTROL_CONTINUE
    ||| control == SERVICE_CONTROL_INTERROGATE
    ||| control == SERVICE_CONTROL_PARAMCHANGE
    ||| control == SERVICE_CONTROL_POWEREVENT
}

/// What processing a stop request does to the updater: one transition to
/// stop-pending for the handler's benefit, then the terminal stopped state,
/// published once with checkpoint 0.  Reports the handler published in
/// between all carry the stop-pending state.
pub open spec fn stop_outcome(pre: StatusView, post: StatusView) -> bool {
    &&& post.state == ServiceState::Stopped
    &&& post.checkpoint == (if pre.registered { 1int } else { 0int })
    &&& post.registered == pre.registered
    &&& post.service_type == pre.service_type
    &&& pre.registered ==> {
        &&& post.published.len() > pre.published.len()
        &&& forall|i: int|
            0 <= i < pre.published.len() ==> #[trigger] post.published[i] == pre.published[i]
        &&& forall|i: int|
            pre.published.len() <= i < post.published.len() - 1 ==> (
            #[trigger] post.published[i]).state == ServiceState::StopPending
        &&& post.published.last().state == ServiceState::Stopped
        &&& post.published.last().checkpoint == 0
        &&& post.published.last().wait_hint_ms == 0
    }
    &&& !pre.registered ==> post.published == pre.published
}

/// What processing a legal continue request does to the updater: one
/// transition to continue-pending, published with checkpoint 0, the handler's
/// resume hook, then the running state, published with checkpoint 0.
pub open spec fn continue_outcome(pre: StatusView, post: StatusView) -> bool {
    &&& post.state == ServiceState::Running
    &&& post.checkpoint == (if pre.registered { 1int } else { 0int })
    &&& post.registered == pre.registered
    &&& post.service_type == pre.service_type
    &&& pre.registered ==> {
        &&& post.published.len() >= pre.published.len() + 2
        &&& forall|i: int|
            0 <= i < pre.published.len() ==> #[trigger] post.published[i] == pre.published[i]
        &&& post.published[pre.published.len() as int].state == ServiceState::ContinuePending
        &&& post.published[pre.published.len() as int].checkpoint == 0
        &&& forall|i: int|
            pre.published.len() <= i < post.published.len() - 1 ==> (
            #[trigger] post.published[i]).state == ServiceState::ContinuePending
        &&& post.published.last().state == ServiceState::Running
        &&& post.published.last().checkpoint == 0
    }
    &&& !pre.registered ==> post.published == pre.published
}

/// The service control dispatch loop, invoked once per control request.
///
/// The service control manager guarantees no request is delivered after a
/// stop request was processed, so the terminal stopped state is a
/// precondition violation here, never a runtime case.  A continue request is
/// honored only from the running state; any other state leaves everything
/// untouched and replies with the invalid-state code.  An unrecognized
/// control code leaves everything untouched and replies not-implemented.
pub fn service_control_handler<H: ServiceHandler>(
    state: &mut SharedServiceState<H>,
    control: u32,
    event_type: u32,
    event_data: Option<&PowerBroadcastSetting>,
) -> (r: u32)
    requires
        old(state).status_updater.wf(),
        old(state).status_updater@.state != ServiceState::Stopped,
    ensures
        final(state).status_updater.wf(),
        control == SERVICE_CONTROL_STOP ==> r == NO_ERROR && stop_outcome(
            old(state).status_updater@,
            final(state).status_updater@,
        ),
        control == SERVICE_CONTROL_INTERROGATE ==> {
            &&& r == NO_ERROR
            &&& final(state).handler == old(state).handler
            &&& final(state).status_updater@ == (StatusView {
                published: final(state).status_updater@.published,
                ..old(state).status_updater@
            })
            &&& old(state).status_updater@.registered ==> final(state).status_updater@.published
                == old(state).status_updater@.published.push(
                current_report(old(state).status_updater@, 0),
            )
            &&& !old(state).status_updater@.registered ==> final(state).status_updater@.published
                == old(state).status_updater@.published
        },
        control == SERVICE_CONTROL_PAUSE ==> r == NO_ERROR && updater_evolved(
            old(state).status_updater@,
            final(state).status_updater@,
        ),
        control == SERVICE_CONTROL_CONTINUE && old(state).status_updater@.state
            == ServiceState::Running ==> r == NO_ERROR && continue_outcome(
            old(state).status_updater@,
            final(state).status_updater@,
        ),
        control == SERVICE_CONTROL_CONTINUE && old(state).status_updater@.state
            != ServiceState::Running ==> r == ERROR_INVALID_STATE && final(state).status_updater@
            == old(state).status_updater@ && final(state).handler == old(state).handler,
        control == SERVICE_CONTROL_PARAMCHANGE ==> r == NO_ERROR && final(state).status_updater@
            == old(state).status_updater@,
        control == SERVICE_CONTROL_POWEREVENT ==> r == NO_ERROR && final(state).status_updater@
            == old(state).status_updater@,
        !recognized_control(control) ==> r == ERROR_CALL_NOT_IMPLEMENTED
            && final(state).status_updater@ == old(state).status_updater@
            && final(state).handler == old(state).handler,
{
    if control == SERVICE_CONTROL_STOP {
        // After a stop request the service control manager never invokes the
        // dispatcher again, so this transition is terminal.
        state.status_updater.set_state(ServiceState::StopPending);
        state.handler.stop(&mut state.status_updater);
        state.status_updater.set_state(ServiceState::Stopped);
        state.status_updater.checkpoint();
        NO_ERROR
    } else if control == SERVICE_CONTROL_INTERROGATE {
        state.status_updater.send_update(0);
        NO_ERROR
    } else if control == SERVICE_CONTROL_PAUSE {
        state.handler.pause(&mut state.status_updater);
        NO_ERROR
    } else if control == SERVICE_CONTROL_CONTINUE {
        if state.status_updater.current_state() != ServiceState::Running {
            return ERROR_INVALID_STATE;
        }
        state.status_updater.set_state(ServiceState::ContinuePending);
        state.status_updater.checkpoint();
        state.handler.resume(&mut state.status_updater);
        state.status_updater.set_state(ServiceState::Running);
        state.status_updater.checkpoint();
        NO_ERROR
    } else if control == SERVICE_CONTROL_PARAMCHANGE {
        state.handler.param_change();
        NO_ERROR
    } else if control == SERVICE_CONTROL_POWEREVENT {
        if event_type == PBT_POWERSETTINGCHANGE {
            match event_data {
                Some(setting) => {
                    state.handler.power_setting(&setting.power_setting, setting.data.as_slice());
                },
                None => {},
            }
        }
        NO_ERROR
    } else {
        ERROR_CALL_NOT_IMPLEMENTED
    }
}

/// What the start handshake leaves in the publish log: the start-pending
/// status first, the terminal status — running on success, stopped on
/// failure — last with checkpoint 0, and only start-pending reports in
/// between.  A failed start never publishes the running state at all.
pub open spec fn start_outcome(
    pre: StatusView,
    post: StatusView,
    ok: bool,
) -> bool {
    &&& post.state == (if ok {
        ServiceState::Running
    } else {
        ServiceState::Stopped
    })
    &&& post.checkpoint == (if pre.registered { 1int } else { 0int })
    &&& post.registered == pre.registered
    &&& post.service_type == pre.service_type
    &&& pre.registered ==> {
        &&& post.published.len() >= 2
        &&& post.published[0].state == ServiceState::StartPending
        &&& post.published[0].checkpoint == 0
        &&& forall|i: int|
            0 <= i < post.published.len() - 1 ==> (#[trigger] post.published[i]).state
                == ServiceState::StartPending
        &&& post.published.last().state == post.state
        &&& post.published.last().checkpoint == 0
        &&& !ok ==> forall|i: int|
            0 <= i < post.published.len() ==> (#[trigger] post.published[i]).state
                != ServiceState::Running
    }
    &&& !pre.registered ==> post.published.len() == 0
}

/// The initial start handshake the main driver performs under the shared
/// lock, right after recording the registration: publish start-pending, run
/// the handler's start hook once, then publish the terminal outcome —
/// running on success, stopped on failure.  No retry is attempted.
pub fn start_service<H: ServiceHandler>(state: &mut SharedServiceState<H>) -> (r: Result<
    (),
    ServiceError,
>)
    requires
        old(state).status_updater.wf(),
        old(state).status_updater@.state == ServiceState::StartPending,
        old(state).status_updater@.checkpoint == 0,
        old(state).status_updater@.published.len() == 0,
    ensures
        final(state).status_updater.wf(),
        start_outcome(old(state).status_updater@, final(state).status_updater@, r is Ok),
{
    state.status_updater.checkpoint();
    match state.handler.start(&mut state.status_updater) {
        Err(e) => {
            state.status_updater.set_state(ServiceState::Stopped);
            state.status_updater.checkpoint();
            Err(e)
        },
        Ok(()) => {
            state.status_updater.set_state(ServiceState::Running);
            state.status_updater.checkpoint();
            Ok(())
        },
    }
}

} // verus!
