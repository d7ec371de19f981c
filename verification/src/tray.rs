use vstd::prelude::*;

verus! {

/// What the window and the tray icon show.
#[derive(Debug, Clone)]
pub struct TrayState {
    /// The window is hidden to the tray.
    pub in_tray: bool,
    /// A message arrived that the user has not seen.
    pub has_unread: bool,
    /// The tray icon is flashing.
    pub flashing: bool,
    /// The current phase of the flashing icon.
    pub flash_state: bool,
    /// The log line shown in the window.
    pub log_text: String,
}

/// What happened in the UI.
#[derive(Debug, Clone, Copy, PartialEq, Eq, Structural)]
pub enum TrayEvent {
    /// The window's "hide to tray" button.
    HideToTray,
    /// The window's close button; it is intercepted.
    CloseRequested,
    /// A click on the tray icon or its "show/hide" item, with whether the
    /// window is visible at that moment.
    ToggleWindow(bool),
    /// A message arrives.
    SimulateMessage,
    /// The window's "stop flashing" button.
    StopFlash,
    /// The 500 ms flash timer fired.
    TimerTick,
    /// "Quit" from the window or the tray menu.
    Quit,
}

/// What the driver does to the window and the event loop.
#[derive(Debug, Clone, Copy, PartialEq, Eq, Structural)]
pub enum TrayAction {
    HideWindow,
    ShowWindow,
    RequestRedraw,
    QuitEventLoop,
}

/// The next state and the actions of one event.
#[derive(Debug)]
pub struct TrayStep {
    pub state: TrayState,
    pub actions: Vec<TrayAction>,
}

/// The state with the log line replaced by its view, for contracts.
pub struct TrayView {
    pub in_tray: bool,
    pub has_unread: bool,
    pub flashing: bool,
    pub flash_state: bool,
    pub log_text: Seq<char>,
}

pub open spec fn tray_view(s: TrayState) -> TrayView {
    TrayView {
        in_tray: s.in_tray,
        has_unread: s.has_unread,
        flashing: s.flashing,
        flash_state: s.flash_state,
        log_text: s.log_text@,
    }
}

/// How one event changes the window, the tray icon and the log, and what
/// the driver must do.
pub open spec fn tray_step_spec(s: TrayView, event: TrayEvent) -> (TrayView, Seq<TrayAction>) {
    match event {
        TrayEvent::HideToTray => (
            TrayView { in_tray: true, log_text: "窗口已隐藏到托盘. 点击托盘图标恢复."@, ..s },
            seq![TrayAction::HideWindow],
        ),
        TrayEvent::CloseRequested => (
            TrayView { in_tray: true, log_text: "关闭按钮被拦截 → 隐藏到托盘."@, ..s },
            seq![TrayAction::HideWindow],
        ),
        TrayEvent::ToggleWindow(visible) => if visible {
            (
                TrayView { in_tray: true, log_text: "窗口已隐藏到托盘."@, ..s },
                seq![TrayAction::HideWindow],
            )
        } else {
            (
                TrayView {
                    in_tray: false,
                    has_unread: false,
                    flashing: false,
                    flash_state: false,
                    log_text: "窗口已恢复, 未读消息已清除."@,
                },
                seq![TrayAction::ShowWindow, TrayAction::RequestRedraw],
            )
        },
        TrayEvent::SimulateMessage => (
            TrayView {
                has_unread: true,
                flashing: true,
                log_text: "📩 收到新消息! 托盘图标开始闪烁..."@,
                ..s
            },
            seq![],
        ),
        TrayEvent::StopFlash => (
            TrayView {
                has_unread: false,
                flashing: false,
                flash_state: false,
                log_text: "已取消闪烁."@,
                ..s
            },
            seq![],
        ),
        TrayEvent::TimerTick => (
            TrayView { flash_state: if s.flashing { !s.flash_state } else { s.flash_state }, ..s },
            seq![],
        ),
        TrayEvent::Quit => (s, seq![TrayAction::QuitEventLoop]),
    }
}

/// Whether a step's state and actions are those of `tray_step_spec`.
pub open spec fn tray_step_ok(s: TrayState, event: TrayEvent, out: TrayStep) -> bool {
    let expected = tray_step_spec(tray_view(s), event);
    &&& tray_view(out.state) == expected.0
    &&& out.actions@ == expected.1
}

impl TrayState {
    /// A shown window, nothing unread, the icon not flashing.
    pub fn new() -> (s: TrayState)
        ensures
            !s.in_tray,
            !s.has_unread,
            !s.flashing,
            !s.flash_state,
            s.log_text@ == Seq::<char>::empty(),
    {
        TrayState {
            in_tray: false,
            has_unread: false,
            flashing: false,
            flash_state: false,
            log_text: String::new(),
        }
    }
}

/// Decides what one UI event does to the window and the tray icon.
pub fn tray_step(s: TrayState, event: TrayEvent) -> (out: TrayStep)
    ensures
        tray_step_ok(s, event, out),
{
    let mut actions: Vec<TrayAction> = Vec::new();
    let state = match event {
        TrayEvent::HideToTray => {
            actions.push(TrayAction::HideWindow);
            TrayState {
                in_tray: true,
                log_text: String::from_str("窗口已隐藏到托盘. 点击托盘图标恢复."),
                ..s
            }
        },
        TrayEvent::CloseRequested => {
            actions.push(TrayAction::HideWindow);
            TrayState { in_tray: true, log_text: String::from_str("关闭按钮被拦截 → 隐藏到托盘."), ..s }
        },
        TrayEvent::ToggleWindow(visible) => {
            if visible {
                actions.push(TrayAction::HideWindow);
                TrayState { in_tray: true, log_text: String::from_str("窗口已隐藏到托盘."), ..s }
            } else {
                actions.push(TrayAction::ShowWindow);
                actions.push(TrayAction::RequestRedraw);
                TrayState {
                    in_tray: false,
                    has_unread: false,
                    flashing: false,
                    flash_state: false,
                    log_text: String::from_str("窗口已恢复, 未读消息已清除."),
                }
            }
        },
        TrayEvent::SimulateMessage => TrayState {
            has_unread: true,
            flashing: true,
            log_text: String::from_str("📩 收到新消息! 托盘图标开始闪烁..."),
            ..s
        },
        TrayEvent::StopFlash => TrayState {
            has_unread: false,
            flashing: false,
            flash_state: false,
            log_text: String::from_str("已取消闪烁."),
            ..s
        },
        TrayEvent::TimerTick => {
            let phase = if s.flashing {
                !s.flash_state
            } else {
                s.flash_state
            };
            TrayState { flash_state: phase, ..s }
        },
        TrayEvent::Quit => {
            actions.push(TrayAction::QuitEventLoop);
            s
        },
    };
    let out = TrayStep { state, actions };
    assert(out.actions@ =~= tray_step_spec(tray_view(s), event).1);
    out
}

/// The tray's invariant: the icon flashes exactly while a message is unread,
/// and its lit phase only shows while it flashes.
pub open spec fn tray_inv(s: TrayView) -> bool {
    &&& s.has_unread == s.flashing
    &&& !s.flashing ==> !s.flash_state
}

/// Every event keeps the tray's invariant.
pub proof fn lemma_tray_inv_preserved(s: TrayView, event: TrayEvent)
    requires
        tray_inv(s),
    ensures
        tray_inv(tray_step_spec(s, event).0),
{
}

/// Bringing the window back clears the unread mark and stops the flashing;
/// a tick while not flashing changes nothing.
pub proof fn lemma_show_clears_flashing(s: TrayView)
    ensures
        ({
            let after = tray_step_spec(s, TrayEvent::ToggleWindow(false)).0;
            !after.has_unread && !after.flashing && !after.flash_state && !after.in_tray
        }),
        !s.flashing ==> tray_step_spec(s, TrayEvent::TimerTick).0 == s,
{
}

/// Two ticks while flashing bring the icon back to the same phase.
pub proof fn lemma_two_ticks(s: TrayView)
    requires
        s.flashing,
    ensures
        tray_step_spec(tray_step_spec(s, TrayEvent::TimerTick).0, TrayEvent::TimerTick).0 == s,
{
}

/// A new message always marks the tray unread and starts the flashing,
/// whether the window is shown or hidden, and leaves the window where it
/// is; the driver has nothing to do.
pub proof fn lemma_message_starts_flashing(s: TrayView)
    ensures
        ({
            let (after, actions) = tray_step_spec(s, TrayEvent::SimulateMessage);
            &&& after.has_unread
            &&& after.flashing
            &&& after.in_tray == s.in_tray
            &&& after.flash_state == s.flash_state
            &&& actions.len() == 0
        }),
{
}

} // verus!