//! The frame loop driver: per-frame decisions, the termination flag,
//! and the fatal-error scenario.
use shimbridge::AssetLedger;
use shimbridge::Driver;
use shimbridge::FrameDirective;
use shimbridge::ScriptOutcome;

#[test]
fn a_completed_frame_continues() {
    let mut driver = Driver::new();
    assert_eq!(driver.finish_frame(ScriptOutcome::Completed), FrameDirective::Continue);
    assert_eq!(driver.frames_done(), 1);
    assert!(!driver.is_halted());
}

#[test]
fn a_script_fault_is_fatal_and_reports_its_message() {
    let mut driver = Driver::new();
    let d = driver.finish_frame(ScriptOutcome::Fault("stack underflow".to_owned()));
    assert_eq!(d, FrameDirective::StopFault("stack underflow".to_owned()));
    assert!(driver.is_halted());
    assert_eq!(driver.frames_done(), 0);
}

#[test]
fn an_unknown_fault_is_fatal_with_a_generic_report() {
    let mut driver = Driver::new();
    assert_eq!(driver.finish_frame(ScriptOutcome::UnknownFault), FrameDirective::StopUnknown);
    assert!(driver.is_halted());
}

#[test]
fn the_termination_flag_takes_effect_after_the_frame() {
    let mut driver = Driver::new();
    assert_eq!(driver.finish_frame(ScriptOutcome::Completed), FrameDirective::Continue);
    driver.request_exit();
    let d = driver.finish_frame(ScriptOutcome::Completed);
    assert_eq!(d, FrameDirective::StopRequested);
    assert!(driver.is_halted());
    assert_eq!(driver.frames_done(), 1);
}

#[test]
fn a_fault_on_the_fifth_frame_stops_after_four_full_frames() {
    // End to end: each frame drains the ledger, then runs the script.
    // The script requests one load per frame and fails on frame five;
    // the driver must have run the full drain-then-invoke sequence
    // exactly once for each of frames one to four.
    let mut driver = Driver::new();
    let mut ledger: AssetLedger<u64> = AssetLedger::new();
    let mut drains = 0;
    let mut invocations = 0;
    let mut last = FrameDirective::Continue;

    for frame in 1..=10 {
        // Step one: drain every pending request into a finished load.
        while let Some((id, path)) = ledger.pop_pending() {
            assert!(!path.is_empty());
            if ledger.id_issued(id) && !ledger.is_queued(id) {
                ledger.finish_load(id, id);
            }
        }
        drains += 1;

        // Step two: the script's frame entry point.
        invocations += 1;
        let outcome = if frame == 5 {
            ScriptOutcome::Fault("boom".to_owned())
        } else {
            ledger.request(format!("frame-{frame}.png"));
            ScriptOutcome::Completed
        };

        // Steps three and four: fatal errors and the termination flag.
        last = driver.finish_frame(outcome);
        if last != FrameDirective::Continue {
            break;
        }
    }

    assert_eq!(last, FrameDirective::StopFault("boom".to_owned()));
    assert_eq!(driver.frames_done(), 4);
    assert_eq!(drains, 5);
    assert_eq!(invocations, 5);
    assert!(driver.is_halted());
}
