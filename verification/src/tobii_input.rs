//! The eye tracker's side of the pipeline: which of its samples become events, and
//! how its input loop goes on after each answer of the driver.

use vstd::prelude::*;
use crate::inputs::Input;

verus! {

/// The event for a gaze point that the tracker reports, in normalized screen
/// coordinates. A sample that the tracker marks as invalid is dropped.
pub open spec fn gaze_event(valid: bool, x: Option<i32>, y: Option<i32>) -> Option<Input> {
    if valid {
        Some(Input::TobiiGaze { x, y })
    } else {
        None
    }
}

/// The event for the positions of the two eyes, in millimeters. The sample is
/// dropped unless the tracker marks both eyes as valid.
pub open spec fn gaze_origin_event(
    left_valid: bool,
    right_valid: bool,
    left: (i32, i32, i32),
    right: (i32, i32, i32),
) -> Option<Input> {
    if left_valid && right_valid {
        Some(
            Input::TobiiGazeOrigin {
                rx: right.0,
                ry: right.1,
                rz: right.2,
                lx: left.0,
                ly: left.1,
                lz: left.2,
            },
        )
    } else {
        None
    }
}

/// The event for a head pose. The sample is dropped unless the tracker marks the
/// position as valid.
pub open spec fn head_pose_event(
    position_valid: bool,
    position: (i32, i32, i32),
    rotation: (i32, i32, i32),
) -> Option<Input> {
    if position_valid {
        Some(
            Input::TobiiHead {
                px: position.0,
                py: position.1,
                pz: position.2,
                rx: rotation.0,
                ry: rotation.1,
                rz: rotation.2,
            },
        )
    } else {
        None
    }
}

/// The event for a gaze point of the tracker, if the sample is valid.
pub fn gaze_callback(valid: bool, x: Option<i32>, y: Option<i32>) -> (event: Option<Input>)
    ensures
        event == gaze_event(valid, x, y),
{
    if !valid {
        return None;
    }
    Some(Input::TobiiGaze { x, y })
}

/// The event for the positions of the eyes, if both are valid.
pub fn gaze_origin_callback(
    left_valid: bool,
    right_valid: bool,
    left: (i32, i32, i32),
    right: (i32, i32, i32),
) -> (event: Option<Input>)
    ensures
        event == gaze_origin_event(left_valid, right_valid, left, right),
{
    if !right_valid || !left_valid {
        return None;
    }
    Some(
        Input::TobiiGazeOrigin {
            rx: right.0,
            ry: right.1,
            rz: right.2,
            lx: left.0,
            ly: left.1,
            lz: left.2,
        },
    )
}

/// The event for a head pose, if its position is valid.
pub fn head_pose_callback(
    position_valid: bool,
    position: (i32, i32, i32),
    rotation: (i32, i32, i32),
) -> (event: Option<Input>)
    ensures
        event == head_pose_event(position_valid, position, rotation),
{
    if !position_valid {
        return None;
    }
    Some(
        Input::TobiiHead {
            px: position.0,
            py: position.1,
            pz: position.2,
            rx: rotation.0,
            ry: rotation.1,
            rz: rotation.2,
        },
    )
}

/// What the driver answered to a request, as far as the input loop tells answers apart.
#[derive(Clone, Copy, Debug, PartialEq, Eq)]
pub enum DriverStatus {
    /// The request succeeded.
    NoError,
    /// Nothing arrived in time.
    TimedOut,
    /// The connection to the device is lost.
    ConnectionFailed,
    /// Any other error.
    Failed,
}

/// One thing that the input loop does, and so what it is waiting for an answer to.
#[derive(Clone, Copy, Debug, PartialEq, Eq)]
pub enum LoopStep {
    /// Look into the inbox for a command of the pool, without waiting.
    Poll,
    /// Wait, for a bounded time, until the device has samples.
    Wait,
    /// Let the driver hand the samples to the callbacks.
    Process,
    /// Connect to the device again.
    Reconnect,
    /// Leave the loop in good order.
    Finish,
    /// Leave the loop with the error that the driver gave last.
    Fail,
}

/// The answer to one step of the input loop.
#[derive(Clone, Copy, Debug, PartialEq, Eq)]
pub enum LoopEvent {
    /// The inbox was looked into: `shutdown` says whether the pool asked to stop.
    Inbox { shutdown: bool },
    /// The driver answered.
    Driver(DriverStatus),
}

/// The step that follows `step` once `event` has answered it.
///
/// A shutdown command ends the loop; without one the loop waits for samples. A
/// timeout while waiting starts the next round. A lost connection, while waiting or
/// while processing, is answered by connecting again, and the next round starts
/// once that has succeeded. Every other error ends the loop with that error, and so
/// does an answer that does not belong to the step.
pub open spec fn next_step(step: LoopStep, event: LoopEvent) -> LoopStep {
    match (step, event) {
        (LoopStep::Poll, LoopEvent::Inbox { shutdown }) => if shutdown {
            LoopStep::Finish
        } else {
            LoopStep::Wait
        },
        (LoopStep::Wait, LoopEvent::Driver(DriverStatus::NoError)) => LoopStep::Process,
        (LoopStep::Wait, LoopEvent::Driver(DriverStatus::TimedOut)) => LoopStep::Poll,
        (LoopStep::Wait, LoopEvent::Driver(DriverStatus::ConnectionFailed)) => LoopStep::Reconnect,
        (LoopStep::Process, LoopEvent::Driver(DriverStatus::NoError)) => LoopStep::Poll,
        (LoopStep::Process, LoopEvent::Driver(DriverStatus::ConnectionFailed)) => LoopStep::Reconnect,
        (LoopStep::Reconnect, LoopEvent::Driver(DriverStatus::NoError)) => LoopStep::Poll,
        _ => LoopStep::Fail,
    }
}

/// The first step of the input loop.
pub fn first_step() -> (step: LoopStep)
    ensures
        step == LoopStep::Poll,
{
    LoopStep::Poll
}

/// Decides how the input loop goes on after `event` has answered `step`.
pub fn input_loop(step: LoopStep, event: LoopEvent) -> (next: LoopStep)
    ensures
        next == next_step(step, event),
{
    match step {
        LoopStep::Poll => match event {
            LoopEvent::Inbox { shutdown: true } => LoopStep::Finish,
            LoopEvent::Inbox { shutdown: false } => LoopStep::Wait,
            _ => LoopStep::Fail,
        },
        LoopStep::Wait => match event {
            LoopEvent::Driver(DriverStatus::NoError) => LoopStep::Process,
            LoopEvent::Driver(DriverStatus::TimedOut) => LoopStep::Poll,
            LoopEvent::Driver(DriverStatus::ConnectionFailed) => LoopStep::Reconnect,
            _ => LoopStep::Fail,
        },
        LoopStep::Process => match event {
            LoopEvent::Driver(DriverStatus::NoError) => LoopStep::Poll,
            LoopEvent::Driver(DriverStatus::ConnectionFailed) => LoopStep::Reconnect,
            _ => LoopStep::Fail,
        },
        LoopStep::Reconnect => match event {
            LoopEvent::Driver(DriverStatus::NoError) => LoopStep::Poll,
            _ => LoopStep::Fail,
        },
        _ => LoopStep::Fail,
    }
}

/// A timeout and a lost connection never end the input loop while it waits for
/// samples: only a shutdown command or another error of the driver does.
pub proof fn lemma_transient_errors_are_retried(status: DriverStatus)
    requires
        status is TimedOut || status is ConnectionFailed,
    ensures
        next_step(LoopStep::Wait, LoopEvent::Driver(status)) != LoopStep::Fail,
        next_step(LoopStep::Wait, LoopEvent::Driver(status)) != LoopStep::Finish,
{
}

} // verus!
