//! The hardware control channel to a monitor's embedded controller.
//!
//! Every control-channel operation follows one discipline: open exactly one
//! physical handle from the logical monitor handle, perform its feature calls
//! over the channel, and close the handle exactly once on every exit path,
//! success or failure. The discipline is captured as a state machine: a state
//! names the pending action (open, a feature call, close, settle), an event
//! reports that action's result, and a step moves to the next state. A caller
//! performs the pending action, feeds the event back, and repeats until the
//! machine is finished.
//!
//! Feature calls are addressed by numeric VCP feature codes. A factory reset
//! applies four codes in a fixed order and stops at the first failure; a
//! brightness query is a soft operation whose unsupported outcome is a flag,
//! not an error; the automatic geometry adjustment has no completion signal,
//! so a fixed settle time follows it after the channel is closed.

use vstd::prelude::*;

use crate::display::MonitorReport;
use crate::errors::DisplayError;
use crate::errors::OsCall;

verus! {

/// VCP feature code: brightness.
pub const BRIGHTNESS_CODE: u32 = 0x10;

/// VCP feature code: trigger the monitor's automatic geometry adjustment.
pub const AUTO_ADJUST_CODE: u32 = 0x1E;

/// VCP feature code: restore factory color defaults.
pub const RESET_COLOR_CODE: u32 = 0x08;

/// VCP feature code: restore factory defaults.
pub const RESET_FACTORY_CODE: u32 = 0x04;

/// VCP feature code: restore factory geometry defaults.
pub const RESET_GEOMETRY_CODE: u32 = 0x06;

/// VCP feature code: restore factory luminance/contrast defaults.
pub const RESET_LUMINANCE_CODE: u32 = 0x05;

/// Settle time after triggering auto-adjust, in milliseconds: the monitor
/// adjusts on its own firmware and offers no completion signal to poll.
pub const AUTO_ADJUST_SETTLE_MILLIS: u64 = 3000;

/// One operation over the control channel.
#[derive(Debug, Clone, Copy, PartialEq, Eq, Structural)]
pub enum VcpRequest {
    /// Set brightness to a percentage.
    SetBrightness { percent: u32 },
    /// Trigger the automatic geometry adjustment, then wait out the settle time.
    AutoAdjust,
    /// Apply the four factory-reset codes in order, stopping at the first failure.
    Reset,
    /// Query brightness support and its current value.
    QueryBrightness,
}

/// An action the caller performs for the machine.
#[derive(Debug, Clone, Copy, PartialEq, Eq, Structural)]
pub enum VcpAction {
    /// Open one physical handle from the logical monitor handle.
    Open,
    /// Set a feature code to a value over the open channel.
    SetFeature { code: u32, value: u32 },
    /// Query a feature code over the open channel.
    GetFeature { code: u32 },
    /// Release the physical handle.
    Close,
    /// Block for the fixed settle time.
    Settle { millis: u64 },
}

/// What an action reported back.
#[derive(Debug, Clone, Copy, PartialEq, Eq, Structural)]
pub enum VcpEvent {
    /// The open yielded a physical handle.
    Opened,
    /// The open failed with an operating-system error code.
    OpenFailed { code: u32 },
    /// The feature-set call succeeded.
    FeatureSet,
    /// The feature-set call failed with an operating-system error code.
    FeatureSetFailed { code: u32 },
    /// The feature query replied: support flag, current value, maximum value.
    /// An unsupported code is a reply, not a failure.
    FeatureReply { supported: bool, value: u32, max: u32 },
    /// The handle was released.
    Closed,
    /// The settle time elapsed.
    Settled,
}

/// How a finished operation ended.
#[derive(Debug, Clone, Copy, PartialEq, Eq, Structural)]
pub enum VcpOutcome {
    /// Every feature call of the operation succeeded.
    Success,
    /// The brightness query replied.
    Brightness { supported: bool, value: u32 },
    /// An operating-system call failed; `call` names which one.
    Failure { code: u32, call: OsCall },
}

/// The machine's state. The channel is open exactly in `Running` and
/// `Closing`.
#[derive(Debug, Clone, Copy, PartialEq, Eq, Structural)]
pub enum VcpState {
    /// Nothing opened yet; the pending action is the open.
    Start,
    /// The channel is open; `step` counts the feature calls already made.
    Running { step: u32 },
    /// The feature calls are over; the pending action is the close.
    Closing { outcome: VcpOutcome },
    /// Closed, but the settle time is still owed.
    Settling { outcome: VcpOutcome },
    /// The operation is over and the channel is closed.
    Finished { outcome: VcpOutcome },
}

/// How many feature calls a request makes over the open channel.
pub open spec fn feature_steps(req: VcpRequest) -> nat {
    match req {
        VcpRequest::Reset => 4,
        _ => 1,
    }
}

/// The factory-reset code applied at step `i`.
pub open spec fn reset_code(i: int) -> u32 {
    if i == 0 {
        RESET_COLOR_CODE
    } else if i == 1 {
        RESET_FACTORY_CODE
    } else if i == 2 {
        RESET_GEOMETRY_CODE
    } else {
        RESET_LUMINANCE_CODE
    }
}

/// The feature call a request makes at step `i`.
pub open spec fn step_action(req: VcpRequest, i: int) -> VcpAction {
    match req {
        VcpRequest::SetBrightness { percent } => VcpAction::SetFeature {
            code: BRIGHTNESS_CODE,
            value: percent,
        },
        VcpRequest::AutoAdjust => VcpAction::SetFeature { code: AUTO_ADJUST_CODE, value: 1 },
        VcpRequest::Reset => VcpAction::SetFeature { code: reset_code(i), value: 1 },
        VcpRequest::QueryBrightness => VcpAction::GetFeature { code: BRIGHTNESS_CODE },
    }
}

/// The action pending in state `s`, if any.
pub open spec fn spec_action(req: VcpRequest, s: VcpState) -> Option<VcpAction> {
    match s {
        VcpState::Start => Some(VcpAction::Open),
        VcpState::Running { step } => if step < feature_steps(req) {
            Some(step_action(req, step as int))
        } else {
            None
        },
        VcpState::Closing { .. } => Some(VcpAction::Close),
        VcpState::Settling { .. } => Some(VcpAction::Settle { millis: AUTO_ADJUST_SETTLE_MILLIS }),
        VcpState::Finished { .. } => None,
    }
}

/// Whether an event can report the result of an action.
pub open spec fn event_matches(a: VcpAction, ev: VcpEvent) -> bool {
    match a {
        VcpAction::Open => ev is Opened || ev is OpenFailed,
        VcpAction::SetFeature { .. } => ev is FeatureSet || ev is FeatureSetFailed,
        VcpAction::GetFeature { .. } => ev is FeatureReply,
        VcpAction::Close => ev is Closed,
        VcpAction::Settle { .. } => ev is Settled,
    }
}

/// Advance the machine by one reported event. An event that cannot report
/// the pending action leaves the state unchanged.
pub open spec fn spec_step(req: VcpRequest, s: VcpState, ev: VcpEvent) -> VcpState {
    match spec_action(req, s) {
        None => s,
        Some(a) => if !event_matches(a, ev) {
            s
        } else {
            match s {
                VcpState::Start => match ev {
                    VcpEvent::Opened => VcpState::Running { step: 0 },
                    VcpEvent::OpenFailed { code } => VcpState::Finished {
                        outcome: VcpOutcome::Failure { code, call: OsCall::ChannelOpen },
                    },
                    _ => s,
                },
                VcpState::Running { step } => match ev {
                    VcpEvent::FeatureSet => if step + 1 < feature_steps(req) {
                        VcpState::Running { step: (step + 1) as u32 }
                    } else {
                        VcpState::Closing { outcome: VcpOutcome::Success }
                    },
                    VcpEvent::FeatureSetFailed { code } => VcpState::Closing {
                        outcome: VcpOutcome::Failure { code, call: OsCall::FeatureSet },
                    },
                    VcpEvent::FeatureReply { supported, value, .. } => VcpState::Closing {
                        outcome: VcpOutcome::Brightness { supported, value },
                    },
                    _ => s,
                },
                VcpState::Closing { outcome } => if req is AutoAdjust && outcome is Success {
                    VcpState::Settling { outcome }
                } else {
                    VcpState::Finished { outcome }
                },
                VcpState::Settling { outcome } => VcpState::Finished { outcome },
                VcpState::Finished { .. } => s,
            }
        },
    }
}

/// The action pending in state `s`, executable form.
pub fn vcp_action(req: &VcpRequest, s: &VcpState) -> (a: Option<VcpAction>)
    ensures
        a == spec_action(*req, *s),
{
    match *s {
        VcpState::Start => Some(VcpAction::Open),
        VcpState::Running { step } => {
            let n: u32 = match *req {
                VcpRequest::Reset => 4,
                _ => 1,
            };
            if step < n {
                match *req {
                    VcpRequest::SetBrightness { percent } => Some(
                        VcpAction::SetFeature { code: BRIGHTNESS_CODE, value: percent },
                    ),
                    VcpRequest::AutoAdjust => Some(
                        VcpAction::SetFeature { code: AUTO_ADJUST_CODE, value: 1 },
                    ),
                    VcpRequest::Reset => {
                        let code: u32 = if step == 0 {
                            RESET_COLOR_CODE
                        } else if step == 1 {
                            RESET_FACTORY_CODE
                        } else if step == 2 {
                            RESET_GEOMETRY_CODE
                        } else {
                            RESET_LUMINANCE_CODE
                        };
                        Some(VcpAction::SetFeature { code, value: 1 })
                    },
                    VcpRequest::QueryBrightness => Some(VcpAction::GetFeature { code: BRIGHTNESS_CODE }),
                }
            } else {
                None
            }
        },
        VcpState::Closing { .. } => Some(VcpAction::Close),
        VcpState::Settling { .. } => Some(VcpAction::Settle { millis: AUTO_ADJUST_SETTLE_MILLIS }),
        VcpState::Finished { .. } => None,
    }
}

/// Advance the machine by one reported event, executable form.
pub fn vcp_step(req: &VcpRequest, s: &VcpState, ev: &VcpEvent) -> (s2: VcpState)
    ensures
        s2 == spec_step(*req, *s, *ev),
{
    match *s {
        VcpState::Start => match *ev {
            VcpEvent::Opened => VcpState::Running { step: 0 },
            VcpEvent::OpenFailed { code } => VcpState::Finished {
                outcome: VcpOutcome::Failure { code, call: OsCall::ChannelOpen },
            },
            _ => *s,
        },
        VcpState::Running { step } => {
            let n: u32 = match *req {
                VcpRequest::Reset => 4,
                _ => 1,
            };
            let query = match *req {
                VcpRequest::QueryBrightness => true,
                _ => false,
            };
            if step < n {
                match *ev {
                    VcpEvent::FeatureSet => if query {
                        *s
                    } else if step + 1 < n {
                        VcpState::Running { step: step + 1 }
                    } else {
                        VcpState::Closing { outcome: VcpOutcome::Success }
                    },
                    VcpEvent::FeatureSetFailed { code } => if query {
                        *s
                    } else {
                        VcpState::Closing {
                            outcome: VcpOutcome::Failure { code, call: OsCall::FeatureSet },
                        }
                    },
                    VcpEvent::FeatureReply { supported, value, .. } => if query {
                        VcpState::Closing { outcome: VcpOutcome::Brightness { supported, value } }
                    } else {
                        *s
                    },
                    _ => *s,
                }
            } else {
                *s
            }
        },
        VcpState::Closing { outcome } => match *ev {
            VcpEvent::Closed => {
                let adjust = match *req {
                    VcpRequest::AutoAdjust => true,
                    _ => false,
                };
                let success = match outcome {
                    VcpOutcome::Success => true,
                    _ => false,
                };
                if adjust && success {
                    VcpState::Settling { outcome }
                } else {
                    VcpState::Finished { outcome }
                }
            },
            _ => *s,
        },
        VcpState::Settling { outcome } => match *ev {
            VcpEvent::Settled => VcpState::Finished { outcome },
            _ => *s,
        },
        VcpState::Finished { .. } => *s,
    }
}

/// One planned control-channel operation: the logical monitor handle token
/// of the resolved display, and the request to run over its channel.
#[derive(Debug, Clone, Copy, PartialEq, Eq, Structural)]
pub struct VcpPlan {
    pub handle: u64,
    pub request: VcpRequest,
}

/// `res` resolves `index` against the pass to the plan carrying `request`,
/// or fails with `NotFound` exactly when the ordinal is beyond the pass.
pub open spec fn vcp_planned(
    res: Result<VcpPlan, DisplayError>,
    handles: Seq<u64>,
    index: u32,
    request: VcpRequest,
) -> bool {
    match res {
        Ok(p) => index < handles.len() && p.handle == handles[index as int] && p.request == request,
        Err(e) => index >= handles.len() && e == (DisplayError::NotFound { index }),
    }
}

/// The handle tokens of one enumeration pass, in order.
pub open spec fn handles_of(reports: Seq<MonitorReport>) -> Seq<u64> {
    reports.map_values(|r: MonitorReport| r.handle)
}

fn plan_request(reports: &Vec<MonitorReport>, index: u32, request: VcpRequest) -> (res:
    Result<VcpPlan, DisplayError>)
    requires
        reports@.len() <= u32::MAX,
    ensures
        vcp_planned(res, handles_of(reports@), index, request),
{
    if (index as usize) < reports.len() {
        Ok(VcpPlan { handle: reports[index as usize].handle, request })
    } else {
        Err(DisplayError::NotFound { index })
    }
}

/// Plan a brightness change for the display at `index`: one set of the
/// brightness code to the percentage, over a freshly opened channel.
pub fn display_brightness(reports: &Vec<MonitorReport>, index: u32, percent: u32) -> (res:
    Result<VcpPlan, DisplayError>)
    requires
        reports@.len() <= u32::MAX,
    ensures
        vcp_planned(res, handles_of(reports@), index, VcpRequest::SetBrightness { percent }),
{
    plan_request(reports, index, VcpRequest::SetBrightness { percent })
}

/// Plan the automatic geometry adjustment for the display at `index`: one
/// set of the auto-adjust code, then the fixed settle time.
pub fn auto_adjust(reports: &Vec<MonitorReport>, index: u32) -> (res: Result<
    VcpPlan,
    DisplayError,
>)
    requires
        reports@.len() <= u32::MAX,
    ensures
        vcp_planned(res, handles_of(reports@), index, VcpRequest::AutoAdjust),
{
    plan_request(reports, index, VcpRequest::AutoAdjust)
}

/// Plan a factory reset for the display at `index`: the four reset codes in
/// their fixed order, stopping at the first failure.
pub fn reset_monitor(reports: &Vec<MonitorReport>, index: u32) -> (res: Result<
    VcpPlan,
    DisplayError,
>)
    requires
        reports@.len() <= u32::MAX,
    ensures
        vcp_planned(res, handles_of(reports@), index, VcpRequest::Reset),
{
    plan_request(reports, index, VcpRequest::Reset)
}

/// Plan a brightness query for the display at `index`: whether the monitor
/// supports the brightness code, and its current value.
pub fn verify_vcp(reports: &Vec<MonitorReport>, index: u32) -> (res: Result<
    VcpPlan,
    DisplayError,
>)
    requires
        reports@.len() <= u32::MAX,
    ensures
        vcp_planned(res, handles_of(reports@), index, VcpRequest::QueryBrightness),
{
    plan_request(reports, index, VcpRequest::QueryBrightness)
}

/// The machine after consuming a whole event trace.
pub open spec fn run(req: VcpRequest, s: VcpState, evs: Seq<VcpEvent>) -> VcpState
    decreases evs.len(),
{
    if evs.len() == 0 {
        s
    } else {
        run(req, spec_step(req, s, evs[0]), evs.skip(1))
    }
}

/// Whether the physical handle is held open in state `s`.
pub open spec fn channel_open(s: VcpState) -> bool {
    s is Running || s is Closing
}

/// How many closes state `s` still owes: one while the channel is open.
pub open spec fn closes_owed(s: VcpState) -> int {
    if channel_open(s) {
        1
    } else {
        0
    }
}

/// The event performs the pending open, and it succeeded.
pub open spec fn performs_open(req: VcpRequest, s: VcpState, ev: VcpEvent) -> bool {
    spec_action(req, s) == Some(VcpAction::Open) && ev is Opened
}

/// The event performs the pending close.
pub open spec fn performs_close(req: VcpRequest, s: VcpState, ev: VcpEvent) -> bool {
    spec_action(req, s) == Some(VcpAction::Close) && ev is Closed
}

/// The event performs a pending feature call (set or query).
pub open spec fn performs_feature(req: VcpRequest, s: VcpState, ev: VcpEvent) -> bool {
    match spec_action(req, s) {
        Some(a) => match a {
            VcpAction::SetFeature { .. } => ev is FeatureSet || ev is FeatureSetFailed,
            VcpAction::GetFeature { .. } => ev is FeatureReply,
            _ => false,
        },
        None => false,
    }
}

/// How many successful opens a trace performs from state `s`.
pub open spec fn opens_in(req: VcpRequest, s: VcpState, evs: Seq<VcpEvent>) -> int
    decreases evs.len(),
{
    if evs.len() == 0 {
        0
    } else {
        (if performs_open(req, s, evs[0]) {
            1int
        } else {
            0int
        }) + opens_in(req, spec_step(req, s, evs[0]), evs.skip(1))
    }
}

/// How many closes a trace performs from state `s`.
pub open spec fn closes_in(req: VcpRequest, s: VcpState, evs: Seq<VcpEvent>) -> int
    decreases evs.len(),
{
    if evs.len() == 0 {
        0
    } else {
        (if performs_close(req, s, evs[0]) {
            1int
        } else {
            0int
        }) + closes_in(req, spec_step(req, s, evs[0]), evs.skip(1))
    }
}

/// How many feature calls a trace performs from state `s`.
pub open spec fn features_in(req: VcpRequest, s: VcpState, evs: Seq<VcpEvent>) -> int
    decreases evs.len(),
{
    if evs.len() == 0 {
        0
    } else {
        (if performs_feature(req, s, evs[0]) {
            1int
        } else {
            0int
        }) + features_in(req, spec_step(req, s, evs[0]), evs.skip(1))
    }
}

/// Law: along any event trace, the successful opens exceed the closes by
/// exactly the closes the final state still owes, relative to the starting
/// state. In particular, a handle is never closed that was not opened.
pub proof fn lemma_open_close_balance(req: VcpRequest, s: VcpState, evs: Seq<VcpEvent>)
    ensures
        opens_in(req, s, evs) - closes_in(req, s, evs) == closes_owed(run(req, s, evs)) - closes_owed(s),
    decreases evs.len(),
{
    if evs.len() > 0 {
        lemma_open_close_balance(req, spec_step(req, s, evs[0]), evs.skip(1));
    }
}

/// Law: every operation run to completion closes the channel exactly as
/// often as it opened it, whether its feature calls succeeded or failed.
pub proof fn lemma_finished_balanced(req: VcpRequest, evs: Seq<VcpEvent>)
    requires
        run(req, VcpState::Start, evs) is Finished,
    ensures
        opens_in(req, VcpState::Start, evs) == closes_in(req, VcpState::Start, evs),
{
    lemma_open_close_balance(req, VcpState::Start, evs);
}

/// Once the feature calls are over — in particular after a failure — the
/// machine performs no further feature call, whatever events follow.
pub proof fn lemma_no_features_after_running(req: VcpRequest, s: VcpState, evs: Seq<VcpEvent>)
    requires
        !(s is Start),
        !(s is Running),
    ensures
        features_in(req, s, evs) == 0,
    decreases evs.len(),
{
    if evs.len() > 0 {
        lemma_no_features_after_running(req, spec_step(req, s, evs[0]), evs.skip(1));
    }
}

/// Law: a factory reset stops at the first failing code. The failure moves
/// the machine straight to the close, and no trace from there performs
/// another feature call: the remaining reset codes are never attempted.
pub proof fn lemma_reset_stops_at_failure(step: u32, code: u32, evs: Seq<VcpEvent>)
    requires
        step < feature_steps(VcpRequest::Reset),
    ensures
        ({
            let s2 = spec_step(
                VcpRequest::Reset,
                VcpState::Running { step },
                VcpEvent::FeatureSetFailed { code },
            );
            &&& s2 == (VcpState::Closing {
                outcome: VcpOutcome::Failure { code, call: OsCall::FeatureSet },
            })
            &&& features_in(VcpRequest::Reset, s2, evs) == 0
        }),
{
    lemma_no_features_after_running(
        VcpRequest::Reset,
        spec_step(VcpRequest::Reset, VcpState::Running { step }, VcpEvent::FeatureSetFailed { code }),
        evs,
    );
}

/// Map the outcome of a finished set-type operation (brightness set,
/// auto-adjust, reset) to the caller's result.
pub fn vcp_result(outcome: &VcpOutcome) -> (res: Result<(), DisplayError>)
    requires
        !(*outcome is Brightness),
    ensures
        *outcome is Success ==> res == Ok::<(), DisplayError>(()),
        *outcome matches VcpOutcome::Failure { code, call } ==> res == Err::<(), DisplayError>(
            DisplayError::OsCallFailed { code, call },
        ),
{
    match *outcome {
        VcpOutcome::Failure { code, call } => Err(DisplayError::OsCallFailed { code, call }),
        _ => Ok(()),
    }
}

/// Map the outcome of a finished brightness query to the caller's result:
/// the support flag and the current value. An unsupported code is a reply
/// with the flag cleared, not an error.
pub fn brightness_result(outcome: &VcpOutcome) -> (res: Result<(bool, u32), DisplayError>)
    requires
        !(*outcome is Success),
    ensures
        *outcome matches VcpOutcome::Brightness { supported, value } ==> res == Ok::<
            (bool, u32),
            DisplayError,
        >((supported, value)),
        *outcome matches VcpOutcome::Failure { code, call } ==> res == Err::<
            (bool, u32),
            DisplayError,
        >(DisplayError::OsCallFailed { code, call }),
{
    match *outcome {
        VcpOutcome::Brightness { supported, value } => Ok((supported, value)),
        VcpOutcome::Failure { code, call } => Err(DisplayError::OsCallFailed { code, call }),
        VcpOutcome::Success => Err(DisplayError::FeatureUnsupported),
    }
}

/// Read a queried brightness as a plain value: a reply with the support flag
/// cleared is the soft failure `FeatureUnsupported`.
pub fn brightness_value(outcome: &VcpOutcome) -> (res: Result<u32, DisplayError>)
    requires
        !(*outcome is Success),
    ensures
        *outcome matches VcpOutcome::Brightness { supported, value } ==> (if supported {
            res == Ok::<u32, DisplayError>(value)
        } else {
            res == Err::<u32, DisplayError>(DisplayError::FeatureUnsupported)
        }),
        *outcome matches VcpOutcome::Failure { code, call } ==> res == Err::<u32, DisplayError>(
            DisplayError::OsCallFailed { code, call },
        ),
{
    match *outcome {
        VcpOutcome::Brightness { supported, value } => if supported {
            Ok(value)
        } else {
            Err(DisplayError::FeatureUnsupported)
        },
        VcpOutcome::Failure { code, call } => Err(DisplayError::OsCallFailed { code, call }),
        VcpOutcome::Success => Err(DisplayError::FeatureUnsupported),
    }
}

} // verus!
