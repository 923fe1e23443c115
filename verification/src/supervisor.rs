//! The thread-lifecycle supervisor: polled on a coarse heartbeat, it reacts
//! to operator requests, decides when to spawn a fresh analysis pipeline for
//! the selected audio device, and asks a running pipeline to abort when the
//! device changes — without ever blocking on the pipeline itself.
//!
//! The supervisor only decides: each heartbeat returns the actions (spawn,
//! abort, telemetry) for the embedding program to perform, and takes back the
//! control-word value it observed.

use vstd::prelude::*;

use crate::signals::{AudioThreadControlSignal, FromFrontend};

verus! {

/// Interval between two supervisor polls, in microseconds.
pub const HEARTBEAT_DELAY_US: u64 = 1_000_000;

/// Where the supervisor stands in a pipeline's lifecycle.
#[derive(Clone, Copy, Debug, PartialEq, Eq, Structural)]
pub enum SupervisorPhase {
    /// No audio device is selected; nothing runs.
    NoDevice,
    /// A device is selected; a pipeline is to be spawned on the next beat.
    DeviceSelected,
    /// A pipeline generation is live for the selected device.
    Running,
    /// The live generation was asked to abort; its death is awaited before
    /// the replacement is spawned.
    Aborting,
}

/// One action the embedding program performs on the supervisor's behalf.
#[derive(Debug, PartialEq, Eq)]
pub enum SupervisorAction {
    /// Send the current list of audio input devices to the observer.
    PublishDevicesView,
    /// Tell the observer which device is now selected.
    PublishSelected(Option<String>),
    /// Spawn a new analysis pipeline for the named device, handing it a
    /// fresh control word initialized to `CONTINUE`.
    SpawnPipeline(String),
    /// Set the live generation's control word to `ABORT`.
    SetAbort,
    /// Forward a serial-port selection to the DMX side.
    ChangeSerial(Option<String>),
}

/// The abstract value of a supervisor action.
#[verifier::ext_equal]
pub ghost enum SupervisorActionModel {
    PublishDevicesView,
    PublishSelected(Option<Seq<char>>),
    SpawnPipeline(Seq<char>),
    SetAbort,
    ChangeSerial(Option<Seq<char>>),
}

impl View for SupervisorAction {
    type V = SupervisorActionModel;

    open spec fn view(&self) -> SupervisorActionModel {
        match self {
            SupervisorAction::PublishDevicesView => SupervisorActionModel::PublishDevicesView,
            SupervisorAction::PublishSelected(d) => SupervisorActionModel::PublishSelected(
                opt_name_view(d),
            ),
            SupervisorAction::SpawnPipeline(d) => SupervisorActionModel::SpawnPipeline(d@),
            SupervisorAction::SetAbort => SupervisorActionModel::SetAbort,
            SupervisorAction::ChangeSerial(p) => SupervisorActionModel::ChangeSerial(
                opt_name_view(p),
            ),
        }
    }
}

/// The view of an optional device or port name.
pub open spec fn opt_name_view(o: &Option<String>) -> Option<Seq<char>> {
    match o {
        Some(s) => Some(s@),
        None => None,
    }
}

/// The abstract values of a list of actions.
pub open spec fn sup_actions_view(acts: Seq<SupervisorAction>) -> Seq<SupervisorActionModel> {
    acts.map_values(|a: SupervisorAction| a@)
}

/// The abstract value of an operator request.
#[verifier::ext_equal]
pub ghost enum RequestModel {
    SelectInputDevice(Option<Seq<char>>),
    SelectSerialDevice(Option<Seq<char>>),
}

/// The view of an operator request.
pub open spec fn request_view(r: &FromFrontend) -> RequestModel {
    match r {
        FromFrontend::SelectInputDevice(d) => RequestModel::SelectInputDevice(opt_name_view(d)),
        FromFrontend::SelectSerialDevice(p) => RequestModel::SelectSerialDevice(opt_name_view(p)),
    }
}

/// The view of the request a heartbeat polled, if it polled one.
pub open spec fn opt_request_view(r: &Option<FromFrontend>) -> Option<RequestModel> {
    match r {
        Some(req) => Some(request_view(req)),
        None => None,
    }
}

/// The abstract state of the supervisor.
#[verifier::ext_equal]
pub ghost struct SupervisorModel {
    pub phase: SupervisorPhase,
    /// The device the current or upcoming generation serves.
    pub device: Option<Seq<char>>,
    /// The device selected while a generation was still live.
    pub pending: Option<Seq<char>>,
}

/// What the request part of one heartbeat decides: the state after taking
/// the polled request in, and the actions it provokes.
pub open spec fn take_request_spec(pre: SupervisorModel, req: Option<RequestModel>) -> (
    SupervisorModel,
    Seq<SupervisorActionModel>,
) {
    match req {
        None => (pre, Seq::empty()),
        Some(RequestModel::SelectSerialDevice(p)) => (
            pre,
            seq![SupervisorActionModel::ChangeSerial(p)],
        ),
        Some(RequestModel::SelectInputDevice(d)) => {
            if pre.phase is Running {
                // A generation is live: ask it to die, keep the new choice
                // pending.
                (
                    SupervisorModel { phase: SupervisorPhase::Aborting, device: pre.device, pending: d },
                    seq![
                        SupervisorActionModel::PublishSelected(d),
                        SupervisorActionModel::SetAbort,
                    ],
                )
            } else if pre.phase is Aborting {
                // Already aborting: just replace the pending choice.
                (
                    SupervisorModel { phase: SupervisorPhase::Aborting, device: pre.device, pending: d },
                    seq![SupervisorActionModel::PublishSelected(d)],
                )
            } else {
                let phase = if d is Some {
                    SupervisorPhase::DeviceSelected
                } else {
                    SupervisorPhase::NoDevice
                };
                (
                    SupervisorModel { phase, device: d, pending: None },
                    seq![SupervisorActionModel::PublishSelected(d)],
                )
            }
        },
    }
}

/// What the lifecycle part of one heartbeat decides, after the request was
/// taken in: spawning, death collection, and the idle devices-view refresh.
pub open spec fn advance_spec(mid: SupervisorModel, control: u8) -> (
    SupervisorModel,
    Seq<SupervisorActionModel>,
) {
    match mid.phase {
        SupervisorPhase::NoDevice => (mid, seq![SupervisorActionModel::PublishDevicesView]),
        SupervisorPhase::DeviceSelected => {
            match mid.device {
                Some(d) => (
                    SupervisorModel {
                        phase: SupervisorPhase::Running,
                        device: mid.device,
                        pending: mid.pending,
                    },
                    seq![SupervisorActionModel::SpawnPipeline(d)],
                ),
                None => (
                    SupervisorModel {
                        phase: SupervisorPhase::NoDevice,
                        device: None,
                        pending: mid.pending,
                    },
                    Seq::empty(),
                ),
            }
        },
        SupervisorPhase::Running => (mid, Seq::empty()),
        SupervisorPhase::Aborting => {
            if control == AudioThreadControlSignal::DEAD {
                // The old generation is gone; adopt the pending choice.
                let phase = if mid.pending is Some {
                    SupervisorPhase::DeviceSelected
                } else {
                    SupervisorPhase::NoDevice
                };
                (SupervisorModel { phase, device: mid.pending, pending: None }, Seq::empty())
            } else {
                (mid, Seq::empty())
            }
        },
    }
}

/// What one supervisor heartbeat decides: first take in the polled request,
/// then advance the lifecycle under the observed control-word value.
pub open spec fn heartbeat_spec(pre: SupervisorModel, req: Option<RequestModel>, control: u8) -> (
    SupervisorModel,
    Seq<SupervisorActionModel>,
) {
    let taken = take_request_spec(pre, req);
    let advanced = advance_spec(taken.0, control);
    (advanced.0, taken.1 + advanced.1)
}

/// The supervisor: the device-selection state between heartbeats.
pub struct Supervisor {
    phase: SupervisorPhase,
    device: Option<String>,
    pending: Option<String>,
}

impl View for Supervisor {
    type V = SupervisorModel;

    closed spec fn view(&self) -> SupervisorModel {
        SupervisorModel {
            phase: self.phase,
            device: opt_name_view(&self.device),
            pending: opt_name_view(&self.pending),
        }
    }
}

impl Supervisor {
    /// The supervisor's observable phase.
    pub open spec fn phase_spec(&self) -> SupervisorPhase {
        self@.phase
    }

    /// The phase the supervisor currently stands in.
    pub fn phase(&self) -> (p: SupervisorPhase)
        ensures
            p == self@.phase,
    {
        self.phase
    }

    /// A fresh supervisor: no device, nothing running.
    pub fn new() -> (s: Supervisor)
        ensures
            s@ == (SupervisorModel {
                phase: SupervisorPhase::NoDevice,
                device: None,
                pending: None,
            }),
    {
        Supervisor { phase: SupervisorPhase::NoDevice, device: None, pending: None }
    }

    /// One heartbeat: take in the request polled this beat, if any, observe
    /// the live generation's control word, and return the actions to
    /// perform, in order.
    pub fn heartbeat(&mut self, request: Option<FromFrontend>, control: u8) -> (acts: Vec<
        SupervisorAction,
    >)
        ensures
            final(self)@ == heartbeat_spec(old(self)@, opt_request_view(&request), control).0,
            sup_actions_view(acts@) == heartbeat_spec(
                old(self)@,
                opt_request_view(&request),
                control,
            ).1,
    {
        let ghost pre = self@;
        let ghost model = heartbeat_spec(pre, opt_request_view(&request), control);
        let mut acts: Vec<SupervisorAction> = Vec::new();

        // Take the polled request in.
        match request {
            None => {},
            Some(FromFrontend::SelectSerialDevice(p)) => {
                acts.push(SupervisorAction::ChangeSerial(p));
            },
            Some(FromFrontend::SelectInputDevice(d)) => {
                match self.phase {
                    SupervisorPhase::Running => {
                        self.pending = clone_opt_name(&d);
                        self.phase = SupervisorPhase::Aborting;
                        acts.push(SupervisorAction::PublishSelected(d));
                        acts.push(SupervisorAction::SetAbort);
                    },
                    SupervisorPhase::Aborting => {
                        self.pending = clone_opt_name(&d);
                        acts.push(SupervisorAction::PublishSelected(d));
                    },
                    _ => {
                        self.phase = if d.is_some() {
                            SupervisorPhase::DeviceSelected
                        } else {
                            SupervisorPhase::NoDevice
                        };
                        self.device = clone_opt_name(&d);
                        self.pending = None;
                        acts.push(SupervisorAction::PublishSelected(d));
                    },
                }
            },
        }

        // Advance the lifecycle.
        match self.phase {
            SupervisorPhase::NoDevice => {
                acts.push(SupervisorAction::PublishDevicesView);
            },
            SupervisorPhase::DeviceSelected => {
                match &self.device {
                    Some(d) => {
                        acts.push(SupervisorAction::SpawnPipeline(d.clone()));
                        self.phase = SupervisorPhase::Running;
                    },
                    None => {
                        self.phase = SupervisorPhase::NoDevice;
                    },
                }
            },
            SupervisorPhase::Running => {},
            SupervisorPhase::Aborting => {
                if control == AudioThreadControlSignal::DEAD {
                    self.device = take_opt_name(&mut self.pending);
                    self.phase = if self.device.is_some() {
                        SupervisorPhase::DeviceSelected
                    } else {
                        SupervisorPhase::NoDevice
                    };
                }
            },
        }

        proof {
            assert(self@ =~= model.0);
            assert(sup_actions_view(acts@) =~= model.1);
        }
        acts
    }
}

/// A copy of an optional name.
fn clone_opt_name(o: &Option<String>) -> (r: Option<String>)
    ensures
        opt_name_view(&r) == opt_name_view(o),
{
    match o {
        Some(s) => Some(s.clone()),
        None => None,
    }
}

/// Move an optional name out, leaving none behind.
fn take_opt_name(o: &mut Option<String>) -> (r: Option<String>)
    ensures
        opt_name_view(&r) == opt_name_view(old(o)),
        *final(o) is None,
{
    o.take()
}

} // verus!
