//! Exercises the control state machine end to end: the start handshake, the
//! dispatch loop's transition table, and the status-report protocol.
//!
//! The service control manager starts delivering control requests only after
//! the start handshake has reported its outcome, and it delivers none after a
//! stop request has been answered.  A stop arriving while start is still
//! pending is therefore outside the dispatcher's contract and is not
//! exercised here.

use win_service::control::service_control_handler;
use win_service::control::start_service;
use win_service::control::ERROR_CALL_NOT_IMPLEMENTED;
use win_service::control::ERROR_INVALID_STATE;
use win_service::control::NO_ERROR;
use win_service::control::PBT_POWERSETTINGCHANGE;
use win_service::control::SERVICE_CONTROL_CONTINUE;
use win_service::control::SERVICE_CONTROL_INTERROGATE;
use win_service::control::SERVICE_CONTROL_PARAMCHANGE;
use win_service::control::SERVICE_CONTROL_PAUSE;
use win_service::control::SERVICE_CONTROL_POWEREVENT;
use win_service::control::SERVICE_CONTROL_STOP;
use win_service::status::SERVICE_ACCEPT_STOP;
use win_service::status::SERVICE_USER_OWN_PROCESS;
use win_service::PowerBroadcastSetting;
use win_service::PowerSettingId;
use win_service::ServiceError;
use win_service::ServiceHandler;
use win_service::ServiceState;
use win_service::SharedServiceState;
use win_service::StatusReport;
use win_service::StatusUpdater;

struct RecordingHandler {
    calls: Vec<String>,
    fail_start: bool,
    hint_in_stop: Option<u64>,
    power_data: Option<(PowerSettingId, Vec<u8>)>,
}

impl RecordingHandler {
    fn new() -> RecordingHandler {
        RecordingHandler {
            calls: Vec::new(),
            fail_start: false,
            hint_in_stop: None,
            power_data: None,
        }
    }
}

impl ServiceHandler for RecordingHandler {
    fn service_name(&self) -> &str {
        "recording_service"
    }

    fn start(&mut self, _updater: &mut StatusUpdater) -> Result<(), ServiceError> {
        self.calls.push(String::from("start"));
        if self.fail_start {
            Err(ServiceError::Failed)
        } else {
            Ok(())
        }
    }

    fn resume(&mut self, _updater: &mut StatusUpdater) {
        self.calls.push(String::from("resume"));
    }

    fn pause(&mut self, _updater: &mut StatusUpdater) {
        self.calls.push(String::from("pause"));
    }

    fn stop(&mut self, updater: &mut StatusUpdater) {
        self.calls.push(String::from("stop"));
        if let Some(hint) = self.hint_in_stop {
            updater.checkpoint_with_hint(hint);
        }
    }

    fn param_change(&mut self) {
        self.calls.push(String::from("param_change"));
    }

    fn power_setting(&mut self, power_setting: &PowerSettingId, data: &[u8]) {
        self.calls.push(String::from("power_setting"));
        self.power_data = Some((*power_setting, data.to_vec()));
    }
}

fn report(state: ServiceState, checkpoint: u32, controls: u32, hint: u32) -> StatusReport {
    StatusReport {
        state,
        checkpoint,
        controls_accepted: controls,
        service_type: SERVICE_USER_OWN_PROCESS,
        wait_hint_ms: hint,
    }
}

fn started_service() -> SharedServiceState<RecordingHandler> {
    let mut updater = StatusUpdater::new();
    updater.record_registration();
    let mut shared = SharedServiceState {
        status_updater: updater,
        handler: RecordingHandler::new(),
    };
    let outcome = start_service(&mut shared);
    assert!(outcome.is_ok());
    shared
}

#[test]
fn start_reports_start_pending_then_running() {
    let shared = started_service();
    assert_eq!(shared.status_updater.current_state(), ServiceState::Running);
    assert_eq!(shared.status_updater.checkpoint_value(), 1);
    assert_eq!(
        shared.status_updater.published().as_slice(),
        &[
            report(ServiceState::StartPending, 0, SERVICE_ACCEPT_STOP, 0),
            report(ServiceState::Running, 0, SERVICE_ACCEPT_STOP, 0),
        ]
    );
    assert_eq!(shared.handler.calls, vec![String::from("start")]);
}

#[test]
fn failed_start_goes_straight_to_stopped() {
    let mut updater = StatusUpdater::new();
    updater.record_registration();
    let mut handler = RecordingHandler::new();
    handler.fail_start = true;
    let mut shared = SharedServiceState {
        status_updater: updater,
        handler,
    };
    let outcome = start_service(&mut shared);
    assert!(matches!(outcome, Err(ServiceError::Failed)));
    assert_eq!(shared.status_updater.current_state(), ServiceState::Stopped);
    assert_eq!(
        shared.status_updater.published().as_slice(),
        &[
            report(ServiceState::StartPending, 0, SERVICE_ACCEPT_STOP, 0),
            report(ServiceState::Stopped, 0, SERVICE_ACCEPT_STOP, 0),
        ]
    );
    for r in shared.status_updater.published() {
        assert_ne!(r.state, ServiceState::Running);
    }
}

#[test]
fn continue_from_running_cycles_through_continue_pending() {
    let mut shared = started_service();
    let reply = service_control_handler(&mut shared, SERVICE_CONTROL_CONTINUE, 0, None);
    assert_eq!(reply, NO_ERROR);
    assert_eq!(shared.status_updater.current_state(), ServiceState::Running);
    assert_eq!(
        shared.status_updater.published().as_slice(),
        &[
            report(ServiceState::StartPending, 0, SERVICE_ACCEPT_STOP, 0),
            report(ServiceState::Running, 0, SERVICE_ACCEPT_STOP, 0),
            report(ServiceState::ContinuePending, 0, SERVICE_ACCEPT_STOP, 0),
            report(ServiceState::Running, 0, SERVICE_ACCEPT_STOP, 0),
        ]
    );
    assert_eq!(
        shared.handler.calls,
        vec![String::from("start"), String::from("resume")]
    );
}

#[test]
fn continue_outside_running_is_invalid_state() {
    let updater = StatusUpdater::new();
    let mut shared = SharedServiceState {
        status_updater: updater,
        handler: RecordingHandler::new(),
    };
    let reply = service_control_handler(&mut shared, SERVICE_CONTROL_CONTINUE, 0, None);
    assert_eq!(reply, ERROR_INVALID_STATE);
    assert_eq!(
        shared.status_updater.current_state(),
        ServiceState::StartPending
    );
    assert!(shared.status_updater.published().is_empty());
    assert!(shared.handler.calls.is_empty());
}

#[test]
fn stop_is_terminal_and_publishes_stopped() {
    let mut shared = started_service();
    shared.handler.hint_in_stop = Some(5000);
    let reply = service_control_handler(&mut shared, SERVICE_CONTROL_STOP, 0, None);
    assert_eq!(reply, NO_ERROR);
    assert!(shared.status_updater.is_stopped());
    assert_eq!(
        shared.status_updater.published().as_slice(),
        &[
            report(ServiceState::StartPending, 0, SERVICE_ACCEPT_STOP, 0),
            report(ServiceState::Running, 0, SERVICE_ACCEPT_STOP, 0),
            report(ServiceState::StopPending, 0, SERVICE_ACCEPT_STOP, 5000),
            report(ServiceState::Stopped, 0, SERVICE_ACCEPT_STOP, 0),
        ]
    );
    assert_eq!(
        shared.handler.calls,
        vec![String::from("start"), String::from("stop")]
    );
    // The dispatcher's precondition forbids a call once the stopped state is
    // reached; the drivers assert the same before dispatching.
}

#[test]
fn pause_leaves_state_unchanged_and_calls_handler() {
    let mut shared = started_service();
    let reply = service_control_handler(&mut shared, SERVICE_CONTROL_PAUSE, 0, None);
    assert_eq!(reply, NO_ERROR);
    assert_eq!(shared.status_updater.current_state(), ServiceState::Running);
    assert_eq!(shared.status_updater.published().len(), 2);
    assert_eq!(
        shared.handler.calls,
        vec![String::from("start"), String::from("pause")]
    );
}

#[test]
fn pause_then_continue_scenario() {
    let mut shared = started_service();
    let pause_reply = service_control_handler(&mut shared, SERVICE_CONTROL_PAUSE, 0, None);
    assert_eq!(pause_reply, NO_ERROR);
    assert_eq!(shared.status_updater.current_state(), ServiceState::Running);
    let continue_reply = service_control_handler(&mut shared, SERVICE_CONTROL_CONTINUE, 0, None);
    assert_eq!(continue_reply, NO_ERROR);
    assert_eq!(shared.status_updater.current_state(), ServiceState::Running);
    assert_eq!(
        shared.handler.calls,
        vec![
            String::from("start"),
            String::from("pause"),
            String::from("resume"),
        ]
    );
}

#[test]
fn interrogate_republishes_current_status() {
    let mut shared = started_service();
    let reply = service_control_handler(&mut shared, SERVICE_CONTROL_INTERROGATE, 0, None);
    assert_eq!(reply, NO_ERROR);
    assert_eq!(shared.status_updater.current_state(), ServiceState::Running);
    assert_eq!(shared.status_updater.checkpoint_value(), 1);
    assert_eq!(
        shared.status_updater.published().last(),
        Some(&report(ServiceState::Running, 1, SERVICE_ACCEPT_STOP, 0))
    );
    assert_eq!(shared.status_updater.published().len(), 3);
    assert_eq!(shared.handler.calls, vec![String::from("start")]);
}

#[test]
fn param_change_calls_handler_without_publishing() {
    let mut shared = started_service();
    let reply = service_control_handler(&mut shared, SERVICE_CONTROL_PARAMCHANGE, 0, None);
    assert_eq!(reply, NO_ERROR);
    assert_eq!(shared.status_updater.published().len(), 2);
    assert_eq!(
        shared.handler.calls,
        vec![String::from("start"), String::from("param_change")]
    );
}

#[test]
fn power_setting_change_reaches_handler() {
    let mut shared = started_service();
    let id = PowerSettingId {
        data1: 0x02731015,
        data2: 0x4974,
        data3: 0x9b46,
        data4: [0xb0, 0x1c, 0x70, 0x0b, 0x00, 0x6b, 0xd5, 0xa1],
    };
    let payload = PowerBroadcastSetting {
        power_setting: id,
        data: vec![1, 0, 0, 0],
    };
    let reply = service_control_handler(
        &mut shared,
        SERVICE_CONTROL_POWEREVENT,
        PBT_POWERSETTINGCHANGE,
        Some(&payload),
    );
    assert_eq!(reply, NO_ERROR);
    assert_eq!(shared.status_updater.published().len(), 2);
    assert_eq!(
        shared.handler.calls,
        vec![String::from("start"), String::from("power_setting")]
    );
    let (seen_id, seen_data) = shared.handler.power_data.clone().unwrap();
    assert_eq!(seen_id, id);
    assert_eq!(seen_data, vec![1, 0, 0, 0]);
}

#[test]
fn unrecognized_power_event_subtype_is_ignored() {
    let mut shared = started_service();
    let reply = service_control_handler(&mut shared, SERVICE_CONTROL_POWEREVENT, 7, None);
    assert_eq!(reply, NO_ERROR);
    assert_eq!(shared.status_updater.published().len(), 2);
    assert_eq!(shared.handler.calls, vec![String::from("start")]);
}

#[test]
fn unrecognized_control_is_not_implemented() {
    let mut shared = started_service();
    // Control code 5 asks for shutdown, which this dispatcher does not
    // implement; the reply says so and nothing moves.
    let reply = service_control_handler(&mut shared, 5, 0, None);
    assert_eq!(reply, ERROR_CALL_NOT_IMPLEMENTED);
    assert_eq!(shared.status_updater.current_state(), ServiceState::Running);
    assert_eq!(shared.status_updater.published().len(), 2);
    assert_eq!(shared.handler.calls, vec![String::from("start")]);
}
