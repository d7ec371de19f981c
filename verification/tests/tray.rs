use slint_demo::tray::{tray_step, TrayAction, TrayEvent, TrayState};

fn run(events: &[TrayEvent]) -> (TrayState, Vec<TrayAction>) {
    let mut state = TrayState::new();
    let mut actions = Vec::new();
    for e in events {
        let step = tray_step(state, *e);
        actions.extend(step.actions);
        state = step.state;
    }
    (state, actions)
}

#[test]
fn message_flashes_until_window_is_shown() {
    let (s, actions) = run(&[
        TrayEvent::HideToTray,
        TrayEvent::SimulateMessage,
        TrayEvent::TimerTick,
        TrayEvent::TimerTick,
        TrayEvent::TimerTick,
    ]);
    assert!(s.in_tray && s.has_unread && s.flashing && s.flash_state);
    assert_eq!(actions, vec![TrayAction::HideWindow]);

    let step = tray_step(s, TrayEvent::ToggleWindow(false));
    let s = step.state;
    assert!(!s.in_tray && !s.has_unread && !s.flashing && !s.flash_state);
    assert_eq!(s.log_text, "窗口已恢复, 未读消息已清除.");
    assert_eq!(step.actions, vec![TrayAction::ShowWindow, TrayAction::RequestRedraw]);
}

#[test]
fn tick_without_flashing_does_nothing() {
    let (s, _) = run(&[TrayEvent::TimerTick, TrayEvent::TimerTick]);
    assert!(!s.flash_state);
    assert_eq!(s.log_text, "");
}

#[test]
fn stop_flash_keeps_window_state() {
    let (s, _) = run(&[TrayEvent::CloseRequested, TrayEvent::SimulateMessage, TrayEvent::TimerTick, TrayEvent::StopFlash]);
    assert!(s.in_tray);
    assert!(!s.has_unread && !s.flashing && !s.flash_state);
    assert_eq!(s.log_text, "已取消闪烁.");
}

#[test]
fn close_toggle_and_quit() {
    let (s, actions) = run(&[TrayEvent::CloseRequested]);
    assert_eq!(s.log_text, "关闭按钮被拦截 → 隐藏到托盘.");
    assert_eq!(actions, vec![TrayAction::HideWindow]);

    let (s, actions) = run(&[TrayEvent::ToggleWindow(true)]);
    assert!(s.in_tray);
    assert_eq!(s.log_text, "窗口已隐藏到托盘.");
    assert_eq!(actions, vec![TrayAction::HideWindow]);

    let (s, actions) = run(&[TrayEvent::SimulateMessage, TrayEvent::Quit]);
    assert_eq!(s.log_text, "📩 收到新消息! 托盘图标开始闪烁...");
    assert_eq!(actions, vec![TrayAction::QuitEventLoop]);
}
