//! The service status record and the updater through which lifecycle
//! callbacks report progress to the service control manager.
//!
//! The updater keeps, besides the current status fields, the full sequence of
//! status reports it has handed to the operating system.  The driver around
//! the library drains that sequence and performs the actual status calls; the
//! logic here is verified against the sequence.

use vstd::prelude::*;

verus! {

/// Status codes a service reports to the service control manager.  Only the
/// subset this design produces is modeled.
#[derive(Clone, Copy, Debug, PartialEq, Eq, Structural)]
pub enum ServiceState {
    StartPending,
    Running,
    StopPending,
    Stopped,
    ContinuePending,
    PausePending,
    Paused,
}

/// Numeric status code for each state, as the service control protocol
/// defines them.
pub open spec fn state_code(s: ServiceState) -> u32 {
    match s {
        ServiceState::Stopped => 1,
        ServiceState::StartPending => 2,
        ServiceState::StopPending => 3,
        ServiceState::Running => 4,
        ServiceState::ContinuePending => 5,
        ServiceState::PausePending => 6,
        ServiceState::Paused => 7,
    }
}

impl ServiceState {
    /// The numeric status code for this state on the wire.
    pub fn code(self) -> (r: u32)
        ensures
            r == state_code(self),
    {
        match self {
            ServiceState::Stopped => 1,
            ServiceState::StartPending => 2,
            ServiceState::StopPending => 3,
            ServiceState::Running => 4,
            ServiceState::ContinuePending => 5,
            ServiceState::PausePending => 6,
            ServiceState::Paused => 7,
        }
    }
}

/// Control requests a service can declare it accepts.
pub const SERVICE_ACCEPT_STOP: u32 = 1;
/// Accept bit for pause and continue requests.
pub const SERVICE_ACCEPT_PAUSE_CONTINUE: u32 = 2;
/// Accept bit for shutdown notification.
pub const SERVICE_ACCEPT_SHUTDOWN: u32 = 4;
/// Accept bit for parameter-change notification.
pub const SERVICE_ACCEPT_PARAMCHANGE: u32 = 8;
/// Accept bit for power events.
pub const SERVICE_ACCEPT_POWEREVENT: u32 = 64;

/// Service type code for a user-mode service running in its own process.
pub const SERVICE_USER_OWN_PROCESS: u32 = 80;

/// One full status report as handed to the service control manager.
#[derive(Clone, Copy, Debug, PartialEq, Eq, Structural)]
pub struct StatusReport {
    pub state: ServiceState,
    pub checkpoint: u32,
    pub controls_accepted: u32,
    pub service_type: u32,
    pub wait_hint_ms: u32,
}

/// Abstract value of a `StatusUpdater`: the current status fields, whether
/// the registration handle has been recorded, every report published so far,
/// the index of the first report published since the last state transition
/// (the current epoch), and the checkpoint values the checkpoint calls of
/// the current epoch have published (interrogation replies republish the
/// current status and are not among them).
pub struct StatusView {
    pub registered: bool,
    pub state: ServiceState,
    pub checkpoint: u32,
    pub controls_accepted: u32,
    pub service_type: u32,
    pub published: Seq<StatusReport>,
    pub epoch_start: int,
    pub counter_published: Seq<u32>,
}

/// The report a publish call emits: the current status fields together with
/// the wait hint given for it.
pub open spec fn current_report(v: StatusView, wait_hint_ms: u32) -> StatusReport {
    StatusReport {
        state: v.state,
        checkpoint: v.checkpoint,
        controls_accepted: v.controls_accepted,
        service_type: v.service_type,
        wait_hint_ms: wait_hint_ms,
    }
}

/// Wait hints travel as 32-bit millisecond counts; longer hints saturate.
pub open spec fn clamp_wait_hint(wait_hint_ms: u64) -> u32 {
    if wait_hint_ms > u32::MAX {
        u32::MAX
    } else {
        wait_hint_ms as u32
    }
}

/// Well-formedness of an updater value.
///
/// Every report of the current epoch carries the current state; checkpoints
/// within the epoch never decrease, never exceed the live counter, and the
/// first report of an epoch carries checkpoint 0.  The values the epoch's
/// checkpoint calls published strictly increase from exactly 0 and sit below
/// the live counter.  Before the registration handle is recorded nothing is
/// ever published.
pub open spec fn wf_view(v: StatusView) -> bool {
    &&& 0 <= v.epoch_start <= v.published.len()
    &&& forall|i: int|
        v.epoch_start <= i < v.published.len() ==> (#[trigger] v.published[i]).state == v.state
    &&& forall|i: int|
        v.epoch_start <= i < v.published.len() ==> (#[trigger] v.published[i]).checkpoint
            <= v.checkpoint
    &&& forall|i: int, j: int|
        v.epoch_start <= i <= j < v.published.len() ==> v.published[i].checkpoint
            <= v.published[j].checkpoint
    &&& v.epoch_start < v.published.len() ==> v.published[v.epoch_start].checkpoint == 0
    &&& !v.registered ==> v.published.len() == 0 && v.epoch_start == 0
    &&& v.registered && v.epoch_start == v.published.len() ==> v.checkpoint == 0
    &&& forall|i: int, j: int|
        0 <= i < j < v.counter_published.len() ==> v.counter_published[i]
            < v.counter_published[j]
    &&& forall|i: int|
        0 <= i < v.counter_published.len() ==> #[trigger] v.counter_published[i] < v.checkpoint
    &&& v.counter_published.len() > 0 ==> v.counter_published[0] == 0
    &&& v.registered && v.counter_published.len() == 0 ==> v.checkpoint == 0
    &&& !v.registered ==> v.counter_published.len() == 0 && v.checkpoint == 0
}

/// How a lifecycle callback may change the updater handed to it: the state,
/// the registration, the service type and the current epoch stay; reports may
/// only be appended, all carrying the current state; the checkpoint counter
/// never decreases; an unregistered updater publishes nothing.
pub open spec fn updater_evolved(pre: StatusView, post: StatusView) -> bool {
    &&& post.registered == pre.registered
    &&& post.state == pre.state
    &&& post.service_type == pre.service_type
    &&& post.epoch_start == pre.epoch_start
    &&& post.checkpoint >= pre.checkpoint
    &&& post.published.len() >= pre.published.len()
    &&& forall|i: int|
        0 <= i < pre.published.len() ==> #[trigger] post.published[i] == pre.published[i]
    &&& forall|i: int|
        pre.published.len() <= i < post.published.len() ==> (#[trigger] post.published[i]).state
            == pre.state
    &&& post.counter_published.len() >= pre.counter_published.len()
    &&& forall|i: int|
        0 <= i < pre.counter_published.len() ==> #[trigger] post.counter_published[i]
            == pre.counter_published[i]
    &&& !pre.registered ==> post.published == pre.published && post.counter_published
        == pre.counter_published
}

/// The handle plus current-status record through which a service reports
/// its lifecycle to the service control manager.
pub struct StatusUpdater {
    registered: bool,
    checkpoint: u32,
    current_state: ServiceState,
    service_type: u32,
    controls_accepted: u32,
    published: Vec<StatusReport>,
    epoch_start: Ghost<int>,
    counter_published: Ghost<Seq<u32>>,
}

impl View for StatusUpdater {
    type V = StatusView;

    closed spec fn view(&self) -> StatusView {
        StatusView {
            registered: self.registered,
            state: self.current_state,
            checkpoint: self.checkpoint,
            controls_accepted: self.controls_accepted,
            service_type: self.service_type,
            published: self.published@,
            epoch_start: self.epoch_start@,
            counter_published: self.counter_published@,
        }
    }
}

impl StatusUpdater {
    /// Well-formedness of this updater.
    pub open spec fn wf(&self) -> bool {
        wf_view(self@)
    }

    /// A fresh updater, as the service entry point builds it before
    /// registering with the dispatcher: start pending, accepting only stop,
    /// no registration handle yet, nothing published.
    pub fn new() -> (r: StatusUpdater)
        ensures
            r.wf(),
            !r@.registered,
            r@.state == ServiceState::StartPending,
            r@.checkpoint == 0,
            r@.controls_accepted == SERVICE_ACCEPT_STOP,
            r@.service_type == SERVICE_USER_OWN_PROCESS,
            r@.published.len() == 0,
            r@.counter_published.len() == 0,
    {
        StatusUpdater {
            registered: false,
            checkpoint: 0,
            current_state: ServiceState::StartPending,
            service_type: SERVICE_USER_OWN_PROCESS,
            controls_accepted: SERVICE_ACCEPT_STOP,
            published: Vec::new(),
            epoch_start: Ghost(0),
            counter_published: Ghost(Seq::empty()),
        }
    }

    /// Records that the dispatcher registration succeeded.  From here on
    /// every publish call reaches the service control manager.
    pub fn record_registration(&mut self)
        requires
            old(self).wf(),
            !old(self)@.registered,
        ensures
            final(self).wf(),
            final(self)@ == (StatusView { registered: true, ..old(self)@ }),
    {
        self.registered = true;
    }

    /// Publishes the current status once with the given wait hint, without
    /// touching the checkpoint counter.  Skipped while unregistered.
    pub(crate) fn send_update(&mut self, wait_hint_ms: u64)
        requires
            old(self).wf(),
        ensures
            final(self).wf(),
            final(self)@.registered == old(self)@.registered,
            final(self)@.state == old(self)@.state,
            final(self)@.checkpoint == old(self)@.checkpoint,
            final(self)@.controls_accepted == old(self)@.controls_accepted,
            final(self)@.service_type == old(self)@.service_type,
            final(self)@.epoch_start == old(self)@.epoch_start,
            final(self)@.counter_published == old(self)@.counter_published,
            old(self)@.registered ==> final(self)@.published == old(self)@.published.push(
                current_report(old(self)@, clamp_wait_hint(wait_hint_ms)),
            ),
            !old(self)@.registered ==> final(self)@.published == old(self)@.published,
    {
        if !self.registered {
            return ;
        }
        let hint: u32 = if wait_hint_ms > u32::MAX as u64 {
            u32::MAX
        } else {
            wait_hint_ms as u32
        };
        let report = StatusReport {
            state: self.current_state,
            checkpoint: self.checkpoint,
            controls_accepted: self.controls_accepted,
            service_type: self.service_type,
            wait_hint_ms: hint,
        };
        self.published.push(report);
    }

    /// Publishes the current status with a wait hint promising the next
    /// checkpoint within that many milliseconds, then advances the
    /// checkpoint counter.  Silently skipped before the registration handle
    /// is recorded, to tolerate early calls.
    pub fn checkpoint_with_hint(&mut self, wait_hint_ms: u64)
        requires
            old(self).wf(),
            old(self)@.registered ==> old(self)@.checkpoint < u32::MAX,
        ensures
            final(self).wf(),
            !old(self)@.registered ==> final(self)@ == old(self)@,
            old(self)@.registered ==> final(self)@ == (StatusView {
                checkpoint: (old(self)@.checkpoint + 1) as u32,
                published: old(self)@.published.push(
                    current_report(old(self)@, clamp_wait_hint(wait_hint_ms)),
                ),
                counter_published: old(self)@.counter_published.push(old(self)@.checkpoint),
                ..old(self)@
            }),
    {
        if !self.registered {
            return ;
        }
        self.send_update(wait_hint_ms);
        proof {
            self.counter_published@ = self.counter_published@.push(self.checkpoint);
        }
        self.checkpoint = self.checkpoint + 1;
    }

    /// Publishes the current status with a zero wait hint and advances the
    /// checkpoint counter.  Silently skipped before the registration handle
    /// is recorded.
    pub fn checkpoint(&mut self)
        requires
            old(self).wf(),
            old(self)@.registered ==> old(self)@.checkpoint < u32::MAX,
        ensures
            final(self).wf(),
            !old(self)@.registered ==> final(self)@ == old(self)@,
            old(self)@.registered ==> final(self)@ == (StatusView {
                checkpoint: (old(self)@.checkpoint + 1) as u32,
                published: old(self)@.published.push(current_report(old(self)@, 0)),
                counter_published: old(self)@.counter_published.push(old(self)@.checkpoint),
                ..old(self)@
            }),
    {
        self.checkpoint_with_hint(0);
    }

    /// Moves to a new state and resets the checkpoint counter to 0, opening
    /// a new epoch.  Publishes nothing: callers follow with a checkpoint
    /// call to make the transition visible.
    pub(crate) fn set_state(&mut self, state: ServiceState)
        requires
            old(self).wf(),
        ensures
            final(self).wf(),
            final(self)@ == (StatusView {
                state,
                checkpoint: 0,
                epoch_start: old(self)@.published.len() as int,
                counter_published: Seq::empty(),
                ..old(self)@
            }),
    {
        self.current_state = state;
        self.checkpoint = 0;
        self.epoch_start = Ghost(self.published.len() as int);
        self.counter_published = Ghost(Seq::empty());
    }

    /// Sets or clears one group of bits of the accepted-controls mask.
    pub(crate) fn set_accept_bits(&mut self, mask: u32, value: bool)
        requires
            old(self).wf(),
        ensures
            final(self).wf(),
            final(self)@ == (StatusView {
                controls_accepted: if value {
                    old(self)@.controls_accepted | mask
                } else {
                    old(self)@.controls_accepted & !mask
                },
                ..old(self)@
            }),
    {
        if value {
            self.controls_accepted = self.controls_accepted | mask;
        } else {
            self.controls_accepted = self.controls_accepted & !mask;
        }
    }

    /// Declares whether stop requests are accepted.
    pub fn accepts_stop(&mut self, value: bool)
        requires
            old(self).wf(),
        ensures
            final(self).wf(),
            final(self)@ == (StatusView {
                controls_accepted: if value {
                    old(self)@.controls_accepted | SERVICE_ACCEPT_STOP
                } else {
                    old(self)@.controls_accepted & !SERVICE_ACCEPT_STOP
                },
                ..old(self)@
            }),
    {
        self.set_accept_bits(SERVICE_ACCEPT_STOP, value);
    }

    /// Declares whether shutdown notification is accepted.
    pub fn accepts_shutdown(&mut self, value: bool)
        requires
            old(self).wf(),
        ensures
            final(self).wf(),
            final(self)@ == (StatusView {
                controls_accepted: if value {
                    old(self)@.controls_accepted | SERVICE_ACCEPT_SHUTDOWN
                } else {
                    old(self)@.controls_accepted & !SERVICE_ACCEPT_SHUTDOWN
                },
                ..old(self)@
            }),
    {
        self.set_accept_bits(SERVICE_ACCEPT_SHUTDOWN, value);
    }

    /// Declares whether parameter-change notification is accepted.
    pub fn accepts_param_change(&mut self, value: bool)
        requires
            old(self).wf(),
        ensures
            final(self).wf(),
            final(self)@ == (StatusView {
                controls_accepted: if value {
                    old(self)@.controls_accepted | SERVICE_ACCEPT_PARAMCHANGE
                } else {
                    old(self)@.controls_accepted & !SERVICE_ACCEPT_PARAMCHANGE
                },
                ..old(self)@
            }),
    {
        self.set_accept_bits(SERVICE_ACCEPT_PARAMCHANGE, value);
    }

    /// Declares whether pause and continue requests are accepted.
    pub fn accepts_pause(&mut self, value: bool)
        requires
            old(self).wf(),
        ensures
            final(self).wf(),
            final(self)@ == (StatusView {
                controls_accepted: if value {
                    old(self)@.controls_accepted | SERVICE_ACCEPT_PAUSE_CONTINUE
                } else {
                    old(self)@.controls_accepted & !SERVICE_ACCEPT_PAUSE_CONTINUE
                },
                ..old(self)@
            }),
    {
        self.set_accept_bits(SERVICE_ACCEPT_PAUSE_CONTINUE, value);
    }

    /// Declares whether power events are accepted.
    pub fn accepts_power_event(&mut self, value: bool)
        requires
            old(self).wf(),
        ensures
            final(self).wf(),
            final(self)@ == (StatusView {
                controls_accepted: if value {
                    old(self)@.controls_accepted | SERVICE_ACCEPT_POWEREVENT
                } else {
                    old(self)@.controls_accepted & !SERVICE_ACCEPT_POWEREVENT
                },
                ..old(self)@
            }),
    {
        self.set_accept_bits(SERVICE_ACCEPT_POWEREVENT, value);
    }

    /// The current state.
    pub fn current_state(&self) -> (r: ServiceState)
        ensures
            r == self@.state,
    {
        self.current_state
    }

    /// True once the terminal stopped state is reached.
    pub fn is_stopped(&self) -> (r: bool)
        ensures
            r == (self@.state == ServiceState::Stopped),
    {
        self.current_state == ServiceState::Stopped
    }

    /// The live checkpoint counter.
    pub fn checkpoint_value(&self) -> (r: u32)
        ensures
            r == self@.checkpoint,
    {
        self.checkpoint
    }

    /// The accepted-controls bitmask.
    pub fn controls_accepted(&self) -> (r: u32)
        ensures
            r == self@.controls_accepted,
    {
        self.controls_accepted
    }

    /// Whether the registration handle has been recorded.
    pub fn is_registered(&self) -> (r: bool)
        ensures
            r == self@.registered,
    {
        self.registered
    }

    /// Every status report published so far, oldest first.
    pub fn published(&self) -> (r: &Vec<StatusReport>)
        ensures
            r@ == self@.published,
    {
        &self.published
    }
}

/// Within one state epoch, the checkpoint values published by checkpoint
/// calls strictly increase and begin at exactly 0; over all reports of the
/// epoch — interrogation replies republish the current status and may repeat
/// a value — the published checkpoints never decrease, and the first status
/// published after a state transition carries checkpoint exactly 0.
pub proof fn lemma_checkpoints_monotone_within_state(v: StatusView)
    requires
        wf_view(v),
    ensures
        forall|i: int, j: int|
            0 <= i < j < v.counter_published.len() ==> v.counter_published[i]
                < v.counter_published[j],
        v.counter_published.len() > 0 ==> v.counter_published[0] == 0,
        forall|i: int, j: int|
            v.epoch_start <= i <= j < v.published.len() ==> v.published[i].checkpoint
                <= v.published[j].checkpoint,
        v.epoch_start < v.published.len() ==> v.published[v.epoch_start].checkpoint == 0,
{
}

} // verus!
