use display_manager::errors::DisplayError;
use display_manager::errors::OsCall;
use display_manager::vcp::AUTO_ADJUST_CODE;
use display_manager::vcp::BRIGHTNESS_CODE;
use display_manager::vcp::RESET_COLOR_CODE;
use display_manager::vcp::RESET_FACTORY_CODE;
use display_manager::vcp::RESET_GEOMETRY_CODE;
use display_manager::vcp::RESET_LUMINANCE_CODE;
use display_manager::vcp::VcpAction;
use display_manager::vcp::VcpEvent;
use display_manager::vcp::VcpOutcome;
use display_manager::vcp::VcpRequest;
use display_manager::vcp::VcpState;
use display_manager::vcp::brightness_result;
use display_manager::vcp::brightness_value;
use display_manager::vcp::vcp_action;
use display_manager::vcp::vcp_result;
use display_manager::vcp::vcp_step;

/// A monitor stand-in: it scripts the result of each channel call and counts
/// the opens and closes, like a handle-leak counter.
struct Fixture {
    fail_open: Option<u32>,
    /// Fail the n-th feature call (0-based) with this code.
    fail_feature_at: Option<(usize, u32)>,
    /// The reply of a feature query: (supported, value, max).
    reply: (bool, u32, u32),
    opens: usize,
    closes: usize,
    settles: usize,
    set_calls: Vec<(u32, u32)>,
    get_calls: Vec<u32>,
}

impl Fixture {
    fn new() -> Fixture {
        Fixture {
            fail_open: None,
            fail_feature_at: None,
            reply: (true, 50, 100),
            opens: 0,
            closes: 0,
            settles: 0,
            set_calls: Vec::new(),
            get_calls: Vec::new(),
        }
    }

    fn feature_calls(&self) -> usize {
        self.set_calls.len() + self.get_calls.len()
    }
}

/// Drive the machine against the fixture until it is finished.
fn run_machine(req: VcpRequest, fx: &mut Fixture) -> VcpOutcome {
    let mut s = VcpState::Start;
    let mut fuel = 0;
    loop {
        fuel += 1;
        assert!(fuel < 32, "machine did not finish");
        let action = match vcp_action(&req, &s) {
            Some(a) => a,
            None => break,
        };
        let ev = match action {
            VcpAction::Open => match fx.fail_open {
                Some(code) => VcpEvent::OpenFailed { code },
                None => {
                    fx.opens += 1;
                    VcpEvent::Opened
                }
            },
            VcpAction::SetFeature { code, value } => {
                let n = fx.feature_calls();
                fx.set_calls.push((code, value));
                match fx.fail_feature_at {
                    Some((at, ec)) if at == n => VcpEvent::FeatureSetFailed { code: ec },
                    _ => VcpEvent::FeatureSet,
                }
            }
            VcpAction::GetFeature { code } => {
                fx.get_calls.push(code);
                let (supported, value, max) = fx.reply;
                VcpEvent::FeatureReply { supported, value, max }
            }
            VcpAction::Close => {
                fx.closes += 1;
                VcpEvent::Closed
            }
            VcpAction::Settle { millis } => {
                assert_eq!(millis, 3000);
                fx.settles += 1;
                VcpEvent::Settled
            }
        };
        s = vcp_step(&req, &s, &ev);
    }
    match s {
        VcpState::Finished { outcome } => outcome,
        other => panic!("machine stopped in {:?}", other),
    }
}

#[test]
fn brightness_set_opens_once_and_closes_once() {
    let mut fx = Fixture::new();
    let outcome = run_machine(VcpRequest::SetBrightness { percent: 70 }, &mut fx);
    assert_eq!(outcome, VcpOutcome::Success);
    assert_eq!((fx.opens, fx.closes), (1, 1));
    assert_eq!(fx.set_calls, vec![(BRIGHTNESS_CODE, 70)]);
    assert_eq!(fx.settles, 0);
    assert_eq!(vcp_result(&outcome), Ok(()));
}

#[test]
fn failed_feature_call_still_closes_the_handle() {
    let mut fx = Fixture::new();
    fx.fail_feature_at = Some((0, 170));
    let outcome = run_machine(VcpRequest::SetBrightness { percent: 70 }, &mut fx);
    assert_eq!(outcome, VcpOutcome::Failure { code: 170, call: OsCall::FeatureSet });
    assert_eq!((fx.opens, fx.closes), (1, 1));
    assert_eq!(
        vcp_result(&outcome),
        Err(DisplayError::OsCallFailed { code: 170, call: OsCall::FeatureSet })
    );
}

#[test]
fn failed_open_owes_no_close() {
    let mut fx = Fixture::new();
    fx.fail_open = Some(5);
    let outcome = run_machine(VcpRequest::Reset, &mut fx);
    assert_eq!(outcome, VcpOutcome::Failure { code: 5, call: OsCall::ChannelOpen });
    assert_eq!((fx.opens, fx.closes), (0, 0));
    assert_eq!(fx.feature_calls(), 0);
}

#[test]
fn auto_adjust_settles_after_the_close() {
    let mut fx = Fixture::new();
    let outcome = run_machine(VcpRequest::AutoAdjust, &mut fx);
    assert_eq!(outcome, VcpOutcome::Success);
    assert_eq!(fx.set_calls, vec![(AUTO_ADJUST_CODE, 1)]);
    assert_eq!((fx.opens, fx.closes, fx.settles), (1, 1, 1));
}

#[test]
fn failed_auto_adjust_does_not_settle() {
    let mut fx = Fixture::new();
    fx.fail_feature_at = Some((0, 99));
    let outcome = run_machine(VcpRequest::AutoAdjust, &mut fx);
    assert_eq!(outcome, VcpOutcome::Failure { code: 99, call: OsCall::FeatureSet });
    assert_eq!((fx.opens, fx.closes, fx.settles), (1, 1, 0));
}

#[test]
fn reset_applies_all_four_codes_in_order() {
    let mut fx = Fixture::new();
    let outcome = run_machine(VcpRequest::Reset, &mut fx);
    assert_eq!(outcome, VcpOutcome::Success);
    assert_eq!(
        fx.set_calls,
        vec![
            (RESET_COLOR_CODE, 1),
            (RESET_FACTORY_CODE, 1),
            (RESET_GEOMETRY_CODE, 1),
            (RESET_LUMINANCE_CODE, 1),
        ]
    );
    assert_eq!((fx.opens, fx.closes), (1, 1));
}

#[test]
fn reset_stops_after_the_second_failing_code() {
    let mut fx = Fixture::new();
    fx.fail_feature_at = Some((1, 44));
    let outcome = run_machine(VcpRequest::Reset, &mut fx);
    assert_eq!(outcome, VcpOutcome::Failure { code: 44, call: OsCall::FeatureSet });
    assert_eq!(fx.set_calls, vec![(RESET_COLOR_CODE, 1), (RESET_FACTORY_CODE, 1)]);
    assert_eq!((fx.opens, fx.closes), (1, 1));
}

#[test]
fn every_open_is_matched_by_exactly_one_close() {
    let requests = [
        VcpRequest::SetBrightness { percent: 30 },
        VcpRequest::AutoAdjust,
        VcpRequest::Reset,
        VcpRequest::QueryBrightness,
    ];
    for req in requests {
        for failure in 0..6usize {
            let mut fx = Fixture::new();
            match failure {
                0 => fx.fail_open = Some(1),
                5 => {}
                n => fx.fail_feature_at = Some((n - 1, 13)),
            }
            run_machine(req, &mut fx);
            assert_eq!(fx.opens, fx.closes, "leak under {:?}, script {}", req, failure);
        }
    }
}

#[test]
fn brightness_query_reports_support_and_value() {
    let mut fx = Fixture::new();
    fx.reply = (true, 62, 100);
    let outcome = run_machine(VcpRequest::QueryBrightness, &mut fx);
    assert_eq!(outcome, VcpOutcome::Brightness { supported: true, value: 62 });
    assert_eq!(fx.get_calls, vec![BRIGHTNESS_CODE]);
    assert_eq!((fx.opens, fx.closes), (1, 1));
    assert_eq!(brightness_result(&outcome), Ok((true, 62)));
    assert_eq!(brightness_value(&outcome), Ok(62));
}

#[test]
fn unsupported_brightness_is_a_soft_failure() {
    let mut fx = Fixture::new();
    fx.reply = (false, 0, 0);
    let outcome = run_machine(VcpRequest::QueryBrightness, &mut fx);
    assert_eq!(outcome, VcpOutcome::Brightness { supported: false, value: 0 });
    assert_eq!((fx.opens, fx.closes), (1, 1));
    assert_eq!(brightness_result(&outcome), Ok((false, 0)));
    assert_eq!(brightness_value(&outcome), Err(DisplayError::FeatureUnsupported));
}

fn one_report() -> Vec<display_manager::display::MonitorReport> {
    vec![display_manager::display::MonitorReport {
        name: String::from("\\\\.\\DISPLAY1"),
        rect: display_manager::display::Rect { left: 0, top: 0, right: 1920, bottom: 1080 },
        flags: 1,
        handle: 4242,
        modes: Vec::new(),
    }]
}

#[test]
fn channel_operations_resolve_the_handle_of_the_pass() {
    let reports = one_report();
    assert_eq!(
        display_manager::vcp::display_brightness(&reports, 0, 55),
        Ok(display_manager::vcp::VcpPlan {
            handle: 4242,
            request: VcpRequest::SetBrightness { percent: 55 },
        })
    );
    assert_eq!(
        display_manager::vcp::auto_adjust(&reports, 0),
        Ok(display_manager::vcp::VcpPlan { handle: 4242, request: VcpRequest::AutoAdjust })
    );
    assert_eq!(
        display_manager::vcp::reset_monitor(&reports, 0),
        Ok(display_manager::vcp::VcpPlan { handle: 4242, request: VcpRequest::Reset })
    );
    assert_eq!(
        display_manager::vcp::verify_vcp(&reports, 0),
        Ok(display_manager::vcp::VcpPlan { handle: 4242, request: VcpRequest::QueryBrightness })
    );
}

#[test]
fn channel_operations_on_missing_index_fail_with_not_found() {
    let reports = one_report();
    assert_eq!(
        display_manager::vcp::reset_monitor(&reports, 1),
        Err(DisplayError::NotFound { index: 1 })
    );
    assert_eq!(
        display_manager::vcp::verify_vcp(&reports, 7),
        Err(DisplayError::NotFound { index: 7 })
    );
}

#[test]
fn mismatched_events_do_not_advance_the_machine() {
    let req = VcpRequest::Reset;
    let s = VcpState::Running { step: 2 };
    assert_eq!(vcp_step(&req, &s, &VcpEvent::Opened), s);
    assert_eq!(vcp_step(&req, &s, &VcpEvent::Closed), s);
    assert_eq!(vcp_step(&req, &s, &VcpEvent::Settled), s);
}
