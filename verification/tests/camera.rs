use slint_demo::camera::{
    camera_model_update, camera_state_from_code, opened_after_state, CameraFrame,
    CameraModelUpdate, CameraState,
};
use slint_demo::camera_loop::{
    camera_loop_step, CameraLoopAction, CameraLoopEvent, CameraLoopFailure, CameraLoopPhase,
    FrameOutcome,
};

#[test]
fn state_codes_from_java() {
    assert_eq!(camera_state_from_code(1), CameraState::Opened);
    assert_eq!(camera_state_from_code(0), CameraState::Closed);
    assert_eq!(camera_state_from_code(-1), CameraState::Error);
    assert_eq!(camera_state_from_code(7), CameraState::Error);
}

#[test]
fn model_updates_for_each_state() {
    assert_eq!(
        camera_model_update(CameraState::Opening),
        CameraModelUpdate { opened_flag: None, opened: false, open_state: false }
    );
    assert_eq!(
        camera_model_update(CameraState::Opened),
        CameraModelUpdate { opened_flag: Some(true), opened: true, open_state: true }
    );
    assert_eq!(
        camera_model_update(CameraState::Closing),
        CameraModelUpdate { opened_flag: None, opened: false, open_state: false }
    );
    for s in [CameraState::Closed, CameraState::Error] {
        assert_eq!(
            camera_model_update(s),
            CameraModelUpdate { opened_flag: Some(false), opened: false, open_state: true }
        );
    }
}

#[test]
fn android_flag_agrees_with_ui_flag() {
    let states = [
        CameraState::Opening,
        CameraState::Closing,
        CameraState::Opened,
        CameraState::Closed,
        CameraState::Error,
    ];
    for prev in [false, true] {
        for s in states {
            let ui = camera_model_update(s).opened_flag.unwrap_or(prev);
            assert_eq!(opened_after_state(prev, s), ui);
        }
    }
}

fn notes(actions: &[CameraLoopAction]) -> Vec<CameraState> {
    actions
        .iter()
        .filter_map(|a| match a {
            CameraLoopAction::Notify(s) => Some(*s),
            _ => None,
        })
        .collect()
}

#[test]
fn capture_run_reports_opening_opened_closed() {
    let mut phase = CameraLoopPhase::Starting;
    let mut reported = Vec::new();
    let mut delivered = Vec::new();
    let events = vec![
        CameraLoopEvent::Start,
        CameraLoopEvent::CameraCreated(true),
        CameraLoopEvent::StreamOpened(true),
        CameraLoopEvent::StreamingFlag(true),
        CameraLoopEvent::StreamOpen(true),
        CameraLoopEvent::FrameCaptured(FrameOutcome::Decoded(CameraFrame {
            data: vec![1, 2, 3, 4, 5, 6],
            width: 2,
            height: 1,
        })),
        CameraLoopEvent::StreamingFlag(true),
        CameraLoopEvent::StreamOpen(true),
        CameraLoopEvent::FrameCaptured(FrameOutcome::CaptureFailed),
        CameraLoopEvent::StreamingFlag(false),
        CameraLoopEvent::StreamStopped(true),
    ];
    for e in events {
        let step = camera_loop_step(phase, e);
        reported.extend(notes(&step.actions));
        for a in step.actions {
            if let CameraLoopAction::DeliverFrame(f) = a {
                delivered.push(f);
            }
        }
        phase = step.phase;
    }
    assert_eq!(phase, CameraLoopPhase::Finished);
    assert_eq!(
        reported,
        vec![CameraState::Opening, CameraState::Opened, CameraState::Closed]
    );
    assert_eq!(delivered.len(), 1);
    assert_eq!(delivered[0].data, vec![4, 5, 6, 1, 2, 3]);
    assert_eq!((delivered[0].width, delivered[0].height), (2, 1));

    // A finished loop ignores anything else.
    let after = camera_loop_step(phase, CameraLoopEvent::Start);
    assert_eq!(after.phase, CameraLoopPhase::Finished);
    assert!(after.actions.is_empty());
}

#[test]
fn capture_run_failures() {
    let s = camera_loop_step(CameraLoopPhase::CreatingCamera, CameraLoopEvent::CameraCreated(false));
    assert_eq!(s.phase, CameraLoopPhase::Failed(CameraLoopFailure::CreateCamera));
    assert_eq!(notes(&s.actions), vec![CameraState::Error]);

    let s = camera_loop_step(CameraLoopPhase::OpeningStream, CameraLoopEvent::StreamOpened(false));
    assert_eq!(s.phase, CameraLoopPhase::Failed(CameraLoopFailure::OpenStream));
    assert_eq!(notes(&s.actions), vec![CameraState::Error]);

    // A frame that cannot be decoded ends the loop without notifying.
    let s = camera_loop_step(
        CameraLoopPhase::Capturing,
        CameraLoopEvent::FrameCaptured(FrameOutcome::DecodeFailed),
    );
    assert_eq!(s.phase, CameraLoopPhase::Failed(CameraLoopFailure::DecodeFrame));
    assert!(s.actions.is_empty());

    let s = camera_loop_step(CameraLoopPhase::Stopping, CameraLoopEvent::StreamStopped(false));
    assert_eq!(s.phase, CameraLoopPhase::Failed(CameraLoopFailure::StopStream));
    assert!(s.actions.is_empty());

    // A closed stream stops the loop.
    let s = camera_loop_step(CameraLoopPhase::CheckingStreamOpen, CameraLoopEvent::StreamOpen(false));
    assert_eq!(s.phase, CameraLoopPhase::Stopping);
    assert!(matches!(s.actions.as_slice(), [CameraLoopAction::StopStream]));
}

#[test]
fn unexpected_event_changes_nothing() {
    let s = camera_loop_step(CameraLoopPhase::CheckingStreaming, CameraLoopEvent::Start);
    assert_eq!(s.phase, CameraLoopPhase::CheckingStreaming);
    assert!(s.actions.is_empty());
    let s = camera_loop_step(CameraLoopPhase::Starting, CameraLoopEvent::StreamStopped(true));
    assert_eq!(s.phase, CameraLoopPhase::Starting);
    assert!(s.actions.is_empty());
}

#[test]
fn frames_are_paced_at_33_ms() {
    let frame = CameraFrame { data: vec![9, 8, 7], width: 1, height: 1 };
    let step = camera_loop_step(
        CameraLoopPhase::Capturing,
        CameraLoopEvent::FrameCaptured(FrameOutcome::Decoded(frame)),
    );
    assert!(matches!(step.actions[1], CameraLoopAction::Sleep(33)));
    let step = camera_loop_step(
        CameraLoopPhase::Capturing,
        CameraLoopEvent::FrameCaptured(FrameOutcome::CaptureFailed),
    );
    assert!(matches!(step.actions[0], CameraLoopAction::Sleep(33)));
}
