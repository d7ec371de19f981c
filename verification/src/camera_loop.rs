use vstd::prelude::*;
use crate::camera::{CameraFrame, CameraState};
use crate::pixels::{flip_rgb_horizontal, flipped_rgb, rgb_len};

verus! {

/// Why a capture loop ended without closing normally.
#[derive(Debug, Clone, Copy, PartialEq, Eq, Structural)]
pub enum CameraLoopFailure {
    /// The camera device could not be created.
    CreateCamera,
    /// The camera stream could not be opened.
    OpenStream,
    /// A captured frame could not be decoded to RGB.
    DecodeFrame,
    /// The stream could not be stopped.
    StopStream,
}

/// Where a desktop capture loop stands: each phase waits for one kind of
/// event.
#[derive(Debug, Clone, Copy, PartialEq, Eq, Structural)]
pub enum CameraLoopPhase {
    /// Waits for `Start`.
    Starting,
    /// Waits for `CameraCreated`.
    CreatingCamera,
    /// Waits for `StreamOpened`.
    OpeningStream,
    /// Waits for `StreamingFlag`.
    CheckingStreaming,
    /// Waits for `StreamOpen`.
    CheckingStreamOpen,
    /// Waits for `FrameCaptured`.
    Capturing,
    /// Waits for `StreamStopped`.
    Stopping,
    /// The loop ended after notifying `Closed`.
    Finished,
    /// The loop ended with an error.
    Failed(CameraLoopFailure),
}

/// Milliseconds the loop waits after each capture: about 30 frames per
/// second.
pub const FRAME_PERIOD_MS: u64 = 33;

/// What a frame capture produced.
#[derive(Debug)]
pub enum FrameOutcome {
    /// A frame decoded to RGB.
    Decoded(CameraFrame),
    /// A frame was captured but could not be decoded.
    DecodeFailed,
    /// No frame could be captured.
    CaptureFailed,
}

/// The outcome of the last action, handed back to the loop.
#[derive(Debug)]
pub enum CameraLoopEvent {
    Start,
    CameraCreated(bool),
    StreamOpened(bool),
    StreamingFlag(bool),
    StreamOpen(bool),
    FrameCaptured(FrameOutcome),
    StreamStopped(bool),
}

/// Work the driver performs, in order.
#[derive(Debug)]
pub enum CameraLoopAction {
    /// Tell the state callback, if one is registered.
    Notify(CameraState),
    /// Create camera 0 with RGB output at the highest frame rate up to 30.
    CreateCamera,
    /// Open the camera stream.
    OpenStream,
    /// Read the shared "streaming" flag.
    ReadStreamingFlag,
    /// Ask whether the camera stream is still open.
    CheckStreamOpen,
    /// Capture one frame and decode it to RGB.
    CaptureFrame,
    /// Hand the frame to the frame callback, if one is registered.
    DeliverFrame(CameraFrame),
    /// Sleep for the given number of milliseconds.
    Sleep(u64),
    /// Stop the camera stream.
    StopStream,
}

/// The next phase and the actions of one step.
#[derive(Debug)]
pub struct CameraLoopStep {
    pub phase: CameraLoopPhase,
    pub actions: Vec<CameraLoopAction>,
}

/// A frame that `flip_rgb_horizontal` can mirror.
pub open spec fn frame_fits(frame: CameraFrame) -> bool {
    &&& frame.data@.len() >= rgb_len(frame.width as nat, frame.height as nat)
    &&& frame.width as int * 3 <= usize::MAX
}

/// `mirrored` is `frame` mirrored left to right.
pub open spec fn is_mirror_of(mirrored: CameraFrame, frame: CameraFrame) -> bool {
    &&& mirrored.width == frame.width
    &&& mirrored.height == frame.height
    &&& mirrored.data@ == flipped_rgb(frame.data@, frame.width as nat, frame.height as nat)
}

/// The loop has ended.
pub open spec fn is_done(phase: CameraLoopPhase) -> bool {
    phase is Finished || phase is Failed
}

/// One step of the capture loop: from the phase and the outcome of the last
/// action, the next phase and the actions to perform. An event that the
/// phase does not wait for changes nothing.
pub open spec fn loop_step_spec(
    phase: CameraLoopPhase,
    event: CameraLoopEvent,
    out: CameraLoopStep,
) -> bool {
    let a = out.actions@;
    match (phase, event) {
        (CameraLoopPhase::Starting, CameraLoopEvent::Start) => {
            &&& out.phase == CameraLoopPhase::CreatingCamera
            &&& a.len() == 2
            &&& a[0] == CameraLoopAction::Notify(CameraState::Opening)
            &&& a[1] is CreateCamera
        },
        (CameraLoopPhase::CreatingCamera, CameraLoopEvent::CameraCreated(ok)) => if ok {
            &&& out.phase == CameraLoopPhase::OpeningStream
            &&& a.len() == 1
            &&& a[0] is OpenStream
        } else {
            &&& out.phase == CameraLoopPhase::Failed(CameraLoopFailure::CreateCamera)
            &&& a.len() == 1
            &&& a[0] == CameraLoopAction::Notify(CameraState::Error)
        },
        (CameraLoopPhase::OpeningStream, CameraLoopEvent::StreamOpened(ok)) => if ok {
            &&& out.phase == CameraLoopPhase::CheckingStreaming
            &&& a.len() == 2
            &&& a[0] == CameraLoopAction::Notify(CameraState::Opened)
            &&& a[1] is ReadStreamingFlag
        } else {
            &&& out.phase == CameraLoopPhase::Failed(CameraLoopFailure::OpenStream)
            &&& a.len() == 1
            &&& a[0] == CameraLoopAction::Notify(CameraState::Error)
        },
        (CameraLoopPhase::CheckingStreaming, CameraLoopEvent::StreamingFlag(on)) => if on {
            &&& out.phase == CameraLoopPhase::CheckingStreamOpen
            &&& a.len() == 1
            &&& a[0] is CheckStreamOpen
        } else {
            &&& out.phase == CameraLoopPhase::Stopping
            &&& a.len() == 1
            &&& a[0] is StopStream
        },
        (CameraLoopPhase::CheckingStreamOpen, CameraLoopEvent::StreamOpen(open)) => if open {
            &&& out.phase == CameraLoopPhase::Capturing
            &&& a.len() == 1
            &&& a[0] is CaptureFrame
        } else {
            &&& out.phase == CameraLoopPhase::Stopping
            &&& a.len() == 1
            &&& a[0] is StopStream
        },
        (CameraLoopPhase::Capturing, CameraLoopEvent::FrameCaptured(outcome)) => match outcome {
            FrameOutcome::Decoded(frame) => {
                &&& out.phase == CameraLoopPhase::CheckingStreaming
                &&& a.len() == 3
                &&& a[0] matches CameraLoopAction::DeliverFrame(mirrored) && is_mirror_of(
                    mirrored,
                    frame,
                )
                &&& a[1] == CameraLoopAction::Sleep(FRAME_PERIOD_MS)
                &&& a[2] is ReadStreamingFlag
            },
            FrameOutcome::DecodeFailed => {
                &&& out.phase == CameraLoopPhase::Failed(CameraLoopFailure::DecodeFrame)
                &&& a.len() == 0
            },
            FrameOutcome::CaptureFailed => {
                &&& out.phase == CameraLoopPhase::CheckingStreaming
                &&& a.len() == 2
                &&& a[0] == CameraLoopAction::Sleep(FRAME_PERIOD_MS)
                &&& a[1] is ReadStreamingFlag
            },
        },
        (CameraLoopPhase::Stopping, CameraLoopEvent::StreamStopped(ok)) => if ok {
            &&& out.phase == CameraLoopPhase::Finished
            &&& a.len() == 1
            &&& a[0] == CameraLoopAction::Notify(CameraState::Closed)
        } else {
            &&& out.phase == CameraLoopPhase::Failed(CameraLoopFailure::StopStream)
            &&& a.len() == 0
        },
        _ => {
            &&& out.phase == phase
            &&& a.len() == 0
        },
    }
}

/// The step function needs a mirrorable frame only where it mirrors one.
pub open spec fn loop_event_ok(phase: CameraLoopPhase, event: CameraLoopEvent) -> bool {
    match (phase, event) {
        (
            CameraLoopPhase::Capturing,
            CameraLoopEvent::FrameCaptured(FrameOutcome::Decoded(frame)),
        ) => frame_fits(frame),
        _ => true,
    }
}

/// The states that a list of actions reports to the state callback, in order.
pub open spec fn notified_states(actions: Seq<CameraLoopAction>) -> Seq<CameraState>
    decreases actions.len(),
{
    if actions.len() == 0 {
        Seq::empty()
    } else {
        let rest = notified_states(actions.drop_last());
        match actions.last() {
            CameraLoopAction::Notify(state) => rest.push(state),
            _ => rest,
        }
    }
}

/// The states reported to the state callback by the time a run reaches
/// `phase`.
pub open spec fn phase_history(phase: CameraLoopPhase) -> Seq<CameraState> {
    match phase {
        CameraLoopPhase::Starting => seq![],
        CameraLoopPhase::CreatingCamera | CameraLoopPhase::OpeningStream => seq![
            CameraState::Opening,
        ],
        CameraLoopPhase::Finished => seq![
            CameraState::Opening,
            CameraState::Opened,
            CameraState::Closed,
        ],
        CameraLoopPhase::Failed(CameraLoopFailure::CreateCamera)
        | CameraLoopPhase::Failed(CameraLoopFailure::OpenStream) => seq![
            CameraState::Opening,
            CameraState::Error,
        ],
        _ => seq![CameraState::Opening, CameraState::Opened],
    }
}

/// What a capture run may report: a prefix of Opening, Opened, Closed, or
/// Opening followed by Error.
pub open spec fn allowed_history(states: Seq<CameraState>) -> bool {
    let normal = seq![CameraState::Opening, CameraState::Opened, CameraState::Closed];
    ||| states.len() <= 3 && states == normal.take(states.len() as int)
    ||| states == seq![CameraState::Opening, CameraState::Error]
}

proof fn lemma_notified_states_small(actions: Seq<CameraLoopAction>)
    requires
        actions.len() <= 3,
    ensures
        actions.len() == 0 ==> notified_states(actions) == Seq::<CameraState>::empty(),
        actions.len() == 1 ==> notified_states(actions) == match actions[0] {
            CameraLoopAction::Notify(s) => seq![s],
            _ => Seq::<CameraState>::empty(),
        },
        actions.len() == 2 && !(actions[1] is Notify) ==> notified_states(actions)
            == notified_states(actions.take(1)),
        actions.len() == 3 && !(actions[1] is Notify) && !(actions[2] is Notify)
            ==> notified_states(actions) == notified_states(actions.take(1)),
{
    if actions.len() >= 1 {
        assert(actions.take(1).drop_last() =~= Seq::<CameraLoopAction>::empty());
        assert(notified_states(actions.take(1).drop_last()) == Seq::<CameraState>::empty());
    }
    if actions.len() == 1 {
        assert(actions.drop_last() =~= Seq::<CameraLoopAction>::empty());
    }
    if actions.len() == 2 {
        assert(actions.drop_last() =~= actions.take(1));
    }
    if actions.len() == 3 {
        assert(actions.drop_last().drop_last() =~= actions.take(1));
        assert(actions.drop_last().len() == 2);
        assert(actions.drop_last().last() == actions[1]);
        if !(actions[1] is Notify) && !(actions[2] is Notify) {
            assert(notified_states(actions) == notified_states(actions.drop_last()));
            assert(notified_states(actions.drop_last()) == notified_states(
                actions.drop_last().drop_last(),
            ));
        }
    }
}

/// Each step reports exactly the states that take the history of its phase
/// to the history of the next phase.
pub proof fn lemma_step_extends_history(
    phase: CameraLoopPhase,
    event: CameraLoopEvent,
    out: CameraLoopStep,
)
    requires
        loop_step_spec(phase, event, out),
    ensures
        phase_history(phase) + notified_states(out.actions@) == phase_history(out.phase),
{
    let a = out.actions@;
    lemma_notified_states_small(a);
    if a.len() == 2 {
        lemma_notified_states_small(a.take(1));
        assert(a.take(1)[0] == a[0]);
    }
    if a.len() == 3 {
        lemma_notified_states_small(a.take(1));
        assert(a.take(1)[0] == a[0]);
    }
    assert(phase_history(phase) + notified_states(a) =~= phase_history(out.phase));
}

/// Every phase has a history that a run may report.
pub proof fn lemma_history_allowed(phase: CameraLoopPhase)
    ensures
        allowed_history(phase_history(phase)),
{
    let normal = seq![CameraState::Opening, CameraState::Opened, CameraState::Closed];
    let h = phase_history(phase);
    if h.len() <= 3 && !(h == seq![CameraState::Opening, CameraState::Error]) {
        assert(h =~= normal.take(h.len() as int));
    }
}

/// A finished or failed loop ignores further events.
pub proof fn lemma_done_is_final(phase: CameraLoopPhase, event: CameraLoopEvent, out: CameraLoopStep)
    requires
        is_done(phase),
        loop_step_spec(phase, event, out),
    ensures
        out.phase == phase,
        out.actions@.len() == 0,
{
}

/// All states reported by a run of steps, in order.
pub open spec fn run_history(steps: Seq<CameraLoopStep>) -> Seq<CameraState>
    decreases steps.len(),
{
    if steps.len() == 0 {
        Seq::empty()
    } else {
        run_history(steps.drop_last()) + notified_states(steps.last().actions@)
    }
}

/// The phase in which step `i` of a run starts.
pub open spec fn phase_before(steps: Seq<CameraLoopStep>, i: int) -> CameraLoopPhase {
    if i == 0 {
        CameraLoopPhase::Starting
    } else {
        steps[i - 1].phase
    }
}

/// `steps` is a run from `Starting` driven by `events`.
pub open spec fn is_run(events: Seq<CameraLoopEvent>, steps: Seq<CameraLoopStep>) -> bool {
    &&& events.len() == steps.len()
    &&& forall|i: int|
        0 <= i < steps.len() ==> #[trigger] loop_step_spec(
            phase_before(steps, i),
            events[i],
            steps[i],
        )
}

/// The phase a run has reached.
pub open spec fn run_phase(steps: Seq<CameraLoopStep>) -> CameraLoopPhase {
    if steps.len() == 0 {
        CameraLoopPhase::Starting
    } else {
        steps.last().phase
    }
}

/// Whatever the camera does, a capture run reports to the state callback
/// either a prefix of Opening, Opened, Closed, or Opening then Error, and
/// what it has reported is determined by the phase it has reached.
pub proof fn lemma_run_history(events: Seq<CameraLoopEvent>, steps: Seq<CameraLoopStep>)
    requires
        is_run(events, steps),
    ensures
        run_history(steps) == phase_history(run_phase(steps)),
        allowed_history(run_history(steps)),
    decreases steps.len(),
{
    if steps.len() > 0 {
        let n = steps.len() - 1;
        let prefix = steps.drop_last();
        assert(is_run(events.drop_last(), prefix)) by {
            assert forall|i: int| 0 <= i < prefix.len() implies #[trigger] loop_step_spec(
                phase_before(prefix, i),
                events.drop_last()[i],
                prefix[i],
            ) by {
                assert(loop_step_spec(
                    phase_before(steps, i),
                    events[i],
                    steps[i],
                ));
            }
        }
        lemma_run_history(events.drop_last(), prefix);
        assert(loop_step_spec(
            phase_before(steps, n),
            events[n],
            steps[n],
        ));
        assert(run_phase(prefix) == (phase_before(steps, n)));
        lemma_step_extends_history(run_phase(prefix), events[n], steps[n]);
    }
    lemma_history_allowed(run_phase(steps));
}

/// Decides the next step of the desktop capture loop.
pub fn camera_loop_step(phase: CameraLoopPhase, event: CameraLoopEvent) -> (out: CameraLoopStep)
    requires
        loop_event_ok(phase, event),
    ensures
        loop_step_spec(phase, event, out),
{
    let mut actions: Vec<CameraLoopAction> = Vec::new();
    let next = match (phase, event) {
        (CameraLoopPhase::Starting, CameraLoopEvent::Start) => {
            actions.push(CameraLoopAction::Notify(CameraState::Opening));
            actions.push(CameraLoopAction::CreateCamera);
            CameraLoopPhase::CreatingCamera
        },
        (CameraLoopPhase::CreatingCamera, CameraLoopEvent::CameraCreated(ok)) => {
            if ok {
                actions.push(CameraLoopAction::OpenStream);
                CameraLoopPhase::OpeningStream
            } else {
                actions.push(CameraLoopAction::Notify(CameraState::Error));
                CameraLoopPhase::Failed(CameraLoopFailure::CreateCamera)
            }
        },
        (CameraLoopPhase::OpeningStream, CameraLoopEvent::StreamOpened(ok)) => {
            if ok {
                actions.push(CameraLoopAction::Notify(CameraState::Opened));
                actions.push(CameraLoopAction::ReadStreamingFlag);
                CameraLoopPhase::CheckingStreaming
            } else {
                actions.push(CameraLoopAction::Notify(CameraState::Error));
                CameraLoopPhase::Failed(CameraLoopFailure::OpenStream)
            }
        },
        (CameraLoopPhase::CheckingStreaming, CameraLoopEvent::StreamingFlag(on)) => {
            if on {
                actions.push(CameraLoopAction::CheckStreamOpen);
                CameraLoopPhase::CheckingStreamOpen
            } else {
                actions.push(CameraLoopAction::StopStream);
                CameraLoopPhase::Stopping
            }
        },
        (CameraLoopPhase::CheckingStreamOpen, CameraLoopEvent::StreamOpen(open)) => {
            if open {
                actions.push(CameraLoopAction::CaptureFrame);
                CameraLoopPhase::Capturing
            } else {
                actions.push(CameraLoopAction::StopStream);
                CameraLoopPhase::Stopping
            }
        },
        (CameraLoopPhase::Capturing, CameraLoopEvent::FrameCaptured(outcome)) => {
            match outcome {
                FrameOutcome::Decoded(frame) => {
                    let data = flip_rgb_horizontal(frame.data.as_slice(), frame.width, frame.height);
                    let mirrored = CameraFrame { data, width: frame.width, height: frame.height };
                    actions.push(CameraLoopAction::DeliverFrame(mirrored));
                    actions.push(CameraLoopAction::Sleep(FRAME_PERIOD_MS));
                    actions.push(CameraLoopAction::ReadStreamingFlag);
                    CameraLoopPhase::CheckingStreaming
                },
                FrameOutcome::DecodeFailed => CameraLoopPhase::Failed(
                    CameraLoopFailure::DecodeFrame,
                ),
                FrameOutcome::CaptureFailed => {
                    actions.push(CameraLoopAction::Sleep(FRAME_PERIOD_MS));
                    actions.push(CameraLoopAction::ReadStreamingFlag);
                    CameraLoopPhase::CheckingStreaming
                },
            }
        },
        (CameraLoopPhase::Stopping, CameraLoopEvent::StreamStopped(ok)) => {
            if ok {
                actions.push(CameraLoopAction::Notify(CameraState::Closed));
                CameraLoopPhase::Finished
            } else {
                CameraLoopPhase::Failed(CameraLoopFailure::StopStream)
            }
        },
        _ => phase,
    };
    CameraLoopStep { phase: next, actions }
}

/// Every frame that decodes is mirrored and delivered, and then, after one
/// frame period, the loop reads the streaming flag again before anything
/// else: clearing the flag is seen after each frame.
pub proof fn lemma_frame_then_flag_check(frame: CameraFrame, out: CameraLoopStep)
    requires
        loop_step_spec(
            CameraLoopPhase::Capturing,
            CameraLoopEvent::FrameCaptured(FrameOutcome::Decoded(frame)),
            out,
        ),
    ensures
        out.phase == CameraLoopPhase::CheckingStreaming,
        out.actions@.len() > 0,
        out.actions@.last() is ReadStreamingFlag,
        out.actions@[0] matches CameraLoopAction::DeliverFrame(m) && m.width == frame.width
            && m.height == frame.height && m.data@.len() == rgb_len(
            frame.width as nat,
            frame.height as nat,
        ),
        forall|i: int| 0 <= i < out.actions@.len() ==> !(#[trigger] out.actions@[i] is Notify),
{
}

/// Once the camera is running, each step either goes back to reading the
/// streaming flag, moves one step closer to it, or stops or fails: from
/// checking that the stream is open the loop captures or stops, and from
/// capturing it reads the flag again or fails.
pub proof fn lemma_running_steps(phase: CameraLoopPhase, event: CameraLoopEvent, out: CameraLoopStep)
    requires
        loop_step_spec(phase, event, out),
        phase is CheckingStreamOpen || phase is Capturing,
        out.phase != phase,
    ensures
        phase is CheckingStreamOpen ==> out.phase is Capturing || out.phase is Stopping,
        phase is Capturing ==> out.phase is CheckingStreaming || out.phase is Failed,
        out.phase is CheckingStreaming ==> out.actions@.len() > 0
            && out.actions@.last() is ReadStreamingFlag,
{
}

/// A streaming flag read as off stops the stream at once, and a stopped
/// stream reports Closed.
pub proof fn lemma_flag_off_stops(out: CameraLoopStep, stopped: CameraLoopStep)
    requires
        loop_step_spec(CameraLoopPhase::CheckingStreaming, CameraLoopEvent::StreamingFlag(false), out),
        loop_step_spec(out.phase, CameraLoopEvent::StreamStopped(true), stopped),
    ensures
        out.phase == CameraLoopPhase::Stopping,
        out.actions@.len() == 1,
        out.actions@[0] is StopStream,
        stopped.phase == CameraLoopPhase::Finished,
        notified_states(stopped.actions@) == seq![CameraState::Closed],
{
    lemma_step_extends_history(out.phase, CameraLoopEvent::StreamStopped(true), stopped);
    assert(phase_history(out.phase) == seq![CameraState::Opening, CameraState::Opened]);
    assert(notified_states(stopped.actions@) =~= seq![CameraState::Closed]) by {
        assert(phase_history(out.phase) + notified_states(stopped.actions@) == seq![
            CameraState::Opening,
            CameraState::Opened,
            CameraState::Closed,
        ]);
        assert(notified_states(stopped.actions@).len() == 1);
        assert(notified_states(stopped.actions@)[0] == (phase_history(out.phase) + notified_states(
            stopped.actions@,
        ))[2]);
    }
}

} // verus!