use vstd::prelude::*;

verus! {

/// Life cycle of a camera as reported to its state callback.
#[derive(Debug, Clone, Copy, PartialEq, Eq, Structural)]
pub enum CameraState {
    Opening,
    Closing,
    Opened,
    Closed,
    Error,
}

/// One RGB frame: `width * height` pixels of 3 bytes each.
#[derive(Debug, Clone)]
pub struct CameraFrame {
    pub data: Vec<u8>,
    pub width: u32,
    pub height: u32,
}

/// How the preview UI reacts to a camera state.
#[derive(Debug, Clone, Copy, PartialEq, Eq, Structural)]
pub struct CameraModelUpdate {
    /// New value of the shared "opened" flag; `None` leaves it as it is.
    pub opened_flag: Option<bool>,
    /// The model's `opened` property.
    pub opened: bool,
    /// The model's `open-state` property (whether the open button is enabled).
    pub open_state: bool,
}

/// The preview UI's reaction to each camera state.
pub open spec fn model_update_spec(state: CameraState) -> CameraModelUpdate {
    match state {
        CameraState::Opening => CameraModelUpdate { opened_flag: None, opened: false, open_state: false },
        CameraState::Opened => CameraModelUpdate {
            opened_flag: Some(true),
            opened: true,
            open_state: true,
        },
        CameraState::Closing => CameraModelUpdate { opened_flag: None, opened: false, open_state: false },
        CameraState::Closed | CameraState::Error => CameraModelUpdate {
            opened_flag: Some(false),
            opened: false,
            open_state: true,
        },
    }
}

/// What the preview UI does when the camera reports `state`.
pub fn camera_model_update(state: CameraState) -> (update: CameraModelUpdate)
    ensures
        update == model_update_spec(state),
{
    match state {
        CameraState::Opening => CameraModelUpdate { opened_flag: None, opened: false, open_state: false },
        CameraState::Opened => CameraModelUpdate {
            opened_flag: Some(true),
            opened: true,
            open_state: true,
        },
        CameraState::Closing => CameraModelUpdate { opened_flag: None, opened: false, open_state: false },
        CameraState::Closed | CameraState::Error => CameraModelUpdate {
            opened_flag: Some(false),
            opened: false,
            open_state: true,
        },
    }
}

/// The Android service's "opened" flag after the camera reports `state`.
pub open spec fn opened_after_spec(opened: bool, state: CameraState) -> bool {
    match state {
        CameraState::Opened => true,
        CameraState::Closed | CameraState::Error => false,
        _ => opened,
    }
}

/// Updates the Android service's "opened" flag on a state report.
pub fn opened_after_state(opened: bool, state: CameraState) -> (now: bool)
    ensures
        now == opened_after_spec(opened, state),
{
    match state {
        CameraState::Opened => true,
        CameraState::Closed | CameraState::Error => false,
        _ => opened,
    }
}

/// The state that the Java side reports as a number: 1 opened, 0 closed,
/// anything else an error.
pub open spec fn state_from_code_spec(code: i32) -> CameraState {
    if code == 1 {
        CameraState::Opened
    } else if code == 0 {
        CameraState::Closed
    } else {
        CameraState::Error
    }
}

/// Decodes the camera state that the Java side reports as a number.
pub fn camera_state_from_code(code: i32) -> (state: CameraState)
    ensures
        state == state_from_code_spec(code),
{
    match code {
        1 => CameraState::Opened,
        0 => CameraState::Closed,
        _ => CameraState::Error,
    }
}

/// The Android service's flag and the preview UI's flag follow the same
/// rule: every state report leaves them equal if they were equal.
pub proof fn lemma_opened_flags_agree(opened: bool, state: CameraState)
    ensures
        opened_after_spec(opened, state) == match model_update_spec(state).opened_flag {
            Some(flag) => flag,
            None => opened,
        },
{
}

/// The preview shows the camera as opened exactly when the flag says so,
/// after every state report that sets the flag.
pub proof fn lemma_model_opened_matches_flag(state: CameraState)
    ensures
        model_update_spec(state).opened_flag matches Some(flag) ==> flag == model_update_spec(
            state,
        ).opened,
        model_update_spec(state).opened ==> model_update_spec(state).open_state,
{
}

/// A state reported from Java is never a transition state.
pub proof fn lemma_code_state_is_settled(code: i32)
    ensures
        !(state_from_code_spec(code) is Opening),
        !(state_from_code_spec(code) is Closing),
{
}

} // verus!
