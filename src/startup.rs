//! The order of startup: the device that backs the renderer is resolved and
//! opened before any window or output exists, and a failure there ends
//! startup for good.

use vstd::prelude::*;
use crate::allocator::{render_node_of, resolve_render_node, DrmProperties, PlatformError};

verus! {

#[derive(Clone, Copy, Debug, PartialEq, Eq, Structural)]
pub enum StartupStage {
    ResolvingDevice,
    OpeningDevice,
    CreatingOutput,
    Running,
    Aborted,
}

/// The outcome of the step that the last action asked for.
#[derive(Clone, Copy, Debug, PartialEq, Eq, Structural)]
pub enum StartupEvent {
    /// The renderer's device reported these DRM properties.
    DeviceProperties(DrmProperties),
    DeviceOpened,
    DeviceOpenFailed,
    OutputCreated,
}

/// The next step for the caller.
#[derive(Clone, Copy, Debug, PartialEq, Eq, Structural)]
pub enum StartupAction {
    /// Open the render node of this device number.
    OpenRenderNode { device: u64 },
    /// Create the window and its output.
    CreateOutput,
    /// Run the event loop.
    Run,
    /// Stop: no renderer can exist without a device.
    Abort(PlatformError),
    Nothing,
}

#[derive(Clone, Copy, Debug, PartialEq, Eq, Structural)]
pub struct Startup {
    pub stage: StartupStage,
}

/// The next stage and action from `stage` on `e`.
pub open spec fn spec_advance(stage: StartupStage, e: StartupEvent) -> (StartupStage, StartupAction) {
    match stage {
        StartupStage::ResolvingDevice => match e {
            StartupEvent::DeviceProperties(p) => match render_node_of(p) {
                Some(dev) => (StartupStage::OpeningDevice, StartupAction::OpenRenderNode { device: dev }),
                None => (StartupStage::Aborted, StartupAction::Abort(PlatformError::NoRenderNode)),
            },
            _ => (StartupStage::ResolvingDevice, StartupAction::Nothing),
        },
        StartupStage::OpeningDevice => match e {
            StartupEvent::DeviceOpened => (StartupStage::CreatingOutput, StartupAction::CreateOutput),
            StartupEvent::DeviceOpenFailed => (
                StartupStage::Aborted,
                StartupAction::Abort(PlatformError::DeviceOpenFailed),
            ),
            _ => (StartupStage::OpeningDevice, StartupAction::Nothing),
        },
        StartupStage::CreatingOutput => match e {
            StartupEvent::OutputCreated => (StartupStage::Running, StartupAction::Run),
            _ => (StartupStage::CreatingOutput, StartupAction::Nothing),
        },
        StartupStage::Running => (StartupStage::Running, StartupAction::Nothing),
        StartupStage::Aborted => (StartupStage::Aborted, StartupAction::Nothing),
    }
}

/// The actions that a run of events asks for, from `stage` on.
pub open spec fn actions(stage: StartupStage, events: Seq<StartupEvent>) -> Seq<StartupAction>
    decreases events.len(),
{
    if events.len() == 0 {
        Seq::empty()
    } else {
        let (next, a) = spec_advance(stage, events[0]);
        seq![a] + actions(next, events.drop_first())
    }
}

impl Startup {
    pub fn new() -> (r: Self)
        ensures
            r.stage == StartupStage::ResolvingDevice,
    {
        Startup { stage: StartupStage::ResolvingDevice }
    }

    pub fn advance(&mut self, e: StartupEvent) -> (a: StartupAction)
        ensures
            (final(self).stage, a) == spec_advance(old(self).stage, e),
    {
        match self.stage {
            StartupStage::ResolvingDevice => match e {
                StartupEvent::DeviceProperties(p) => match resolve_render_node(&p) {
                    Ok(dev) => {
                        self.stage = StartupStage::OpeningDevice;
                        StartupAction::OpenRenderNode { device: dev }
                    },
                    Err(err) => {
                        self.stage = StartupStage::Aborted;
                        StartupAction::Abort(err)
                    },
                },
                _ => StartupAction::Nothing,
            },
            StartupStage::OpeningDevice => match e {
                StartupEvent::DeviceOpened => {
                    self.stage = StartupStage::CreatingOutput;
                    StartupAction::CreateOutput
                },
                StartupEvent::DeviceOpenFailed => {
                    self.stage = StartupStage::Aborted;
                    StartupAction::Abort(PlatformError::DeviceOpenFailed)
                },
                _ => StartupAction::Nothing,
            },
            StartupStage::CreatingOutput => match e {
                StartupEvent::OutputCreated => {
                    self.stage = StartupStage::Running;
                    StartupAction::Run
                },
                _ => StartupAction::Nothing,
            },
            StartupStage::Running => StartupAction::Nothing,
            StartupStage::Aborted => StartupAction::Nothing,
        }
    }
}

proof fn lemma_actions_len(stage: StartupStage, events: Seq<StartupEvent>)
    ensures
        actions(stage, events).len() == events.len(),
    decreases events.len(),
{
    if events.len() > 0 {
        lemma_actions_len(spec_advance(stage, events[0]).0, events.drop_first());
    }
}

/// Once startup has aborted, nothing more is asked for, whatever happens.
pub proof fn lemma_aborted_stays_quiet(events: Seq<StartupEvent>)
    ensures
        forall|i: int|
            0 <= i < events.len() ==> #[trigger] actions(StartupStage::Aborted, events)[i]
                == StartupAction::Nothing,
    decreases events.len(),
{
    if events.len() > 0 {
        lemma_aborted_stays_quiet(events.drop_first());
        lemma_actions_len(StartupStage::Aborted, events.drop_first());
        assert(actions(StartupStage::Aborted, events) == seq![StartupAction::Nothing] + actions(
            StartupStage::Aborted,
            events.drop_first(),
        ));
        assert forall|i: int|
            0 <= i < events.len() implies #[trigger] actions(StartupStage::Aborted, events)[i]
            == StartupAction::Nothing by {
            if i > 0 {
                assert(actions(StartupStage::Aborted, events)[i] == actions(
                    StartupStage::Aborted,
                    events.drop_first(),
                )[i - 1]);
            }
        }
    }
}

/// When the renderer's device cannot be resolved, startup surfaces a
/// platform error and then never asks for an output, or for anything else.
pub proof fn lemma_unresolved_device_creates_no_output(p: DrmProperties, rest: Seq<StartupEvent>)
    requires
        render_node_of(p) is None,
    ensures
        actions(StartupStage::ResolvingDevice, seq![StartupEvent::DeviceProperties(p)] + rest)[0]
            == StartupAction::Abort(PlatformError::NoRenderNode),
        forall|i: int|
            0 <= i < rest.len() + 1 ==> #[trigger] actions(
                StartupStage::ResolvingDevice,
                seq![StartupEvent::DeviceProperties(p)] + rest,
            )[i] != StartupAction::CreateOutput,
{
    let events = seq![StartupEvent::DeviceProperties(p)] + rest;
    assert(events.drop_first() =~= rest);
    assert(events[0] == StartupEvent::DeviceProperties(p));
    lemma_aborted_stays_quiet(rest);
    lemma_actions_len(StartupStage::Aborted, rest);
    assert(actions(StartupStage::ResolvingDevice, events) == seq![
        StartupAction::Abort(PlatformError::NoRenderNode),
    ] + actions(StartupStage::Aborted, rest));
    assert forall|i: int|
        0 <= i < rest.len() + 1 implies #[trigger] actions(StartupStage::ResolvingDevice, events)[i]
        != StartupAction::CreateOutput by {
        if i > 0 {
            assert(actions(StartupStage::ResolvingDevice, events)[i] == actions(
                StartupStage::Aborted,
                rest,
            )[i - 1]);
        }
    }
}

} // verus!
