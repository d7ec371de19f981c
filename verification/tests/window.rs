use slint_demo::window::{
    center_window_plan, centered_coordinate, monitor_line, offscreen_guard_recovers, GuardEvent, monitors_summary, placement_status,
    recover_to_primary_plan, window_on_screen, Rect, WindowQuery,
};

fn rect(x: i32, y: i32, width: u32, height: u32) -> Rect {
    Rect { x, y, width, height }
}

#[test]
fn window_inside_a_monitor_is_on_screen() {
    let monitors = [rect(0, 0, 1920, 1080)];
    assert!(window_on_screen(Some(rect(100, 100, 800, 600)), &monitors));
}

#[test]
fn window_far_away_is_off_screen() {
    let monitors = [rect(0, 0, 1920, 1080), rect(1920, 0, 1280, 1024)];
    assert!(!window_on_screen(Some(rect(5000, 5000, 800, 600)), &monitors));
}

#[test]
fn thirty_percent_threshold() {
    let monitors = [rect(0, 0, 1000, 1000)];
    // 30% of the window on screen is not enough, 31% is.
    assert!(!window_on_screen(Some(rect(-70, 0, 100, 100)), &monitors));
    assert!(window_on_screen(Some(rect(-69, 0, 100, 100)), &monitors));
}

#[test]
fn window_spanning_two_monitors() {
    let monitors = [rect(0, 0, 100, 100), rect(100, 0, 100, 100)];
    assert!(window_on_screen(Some(rect(50, 0, 100, 100)), &monitors));
}

#[test]
fn unknown_or_empty_window_counts_as_on_screen() {
    assert!(window_on_screen(None, &[]));
    assert!(window_on_screen(Some(rect(9999, 9999, 0, 10)), &[rect(0, 0, 10, 10)]));
}

#[test]
fn centering_arithmetic() {
    assert_eq!(centered_coordinate(0, 1920, 800), 560);
    assert_eq!(centered_coordinate(1920, 1280, 801), 1920 + 239);
    // A window larger than the monitor: Rust's division rounds toward zero.
    assert_eq!(centered_coordinate(0, 100, 103), -1);
    assert_eq!(centered_coordinate(10, 500, 500), 10);
}

fn query(monitor: Option<Rect>) -> Option<WindowQuery> {
    Some(WindowQuery { monitor, outer_width: 800, outer_height: 600 })
}

#[test]
fn center_plan_outcomes() {
    let x11 = Some("x11".to_string());
    assert_eq!(
        center_window_plan(&x11, query(Some(rect(1920, 0, 1920, 1080)))),
        Ok((1920 + 560, 240))
    );
    assert_eq!(
        center_window_plan(&Some("wayland".to_string()), query(Some(rect(0, 0, 10, 10)))),
        Err("Wayland 不支持应用设置窗口位置, 窗口位置由合成器控制".to_string())
    );
    assert_eq!(center_window_plan(&None, None), Err("无法访问底层窗口".to_string()));
    assert_eq!(center_window_plan(&x11, query(None)), Err("无法获取当前显示器信息".to_string()));
    assert_eq!(recover_to_primary_plan(&x11, query(None)), Err("无法获取主显示器信息".to_string()));
    assert_eq!(
        recover_to_primary_plan(&Some("Wayland".to_string()), query(Some(rect(0, 0, 1000, 800)))),
        Ok((100, 100))
    );
}

#[test]
fn placement_status_lines() {
    assert_eq!(placement_status(Ok((1, 2)), "窗口已居中"), "窗口已居中");
    assert_eq!(
        placement_status(Err("无法访问底层窗口".to_string()), "窗口已居中"),
        "无法访问底层窗口"
    );
}

#[test]
fn monitor_line_marks_the_current_monitor() {
    let current = Some(String::from("DP-1"));
    let line = monitor_line(0, "DP-1", 1920, 1080, "1.0", 0, 0, &current);
    assert_eq!(line, "#0 \"DP-1\"  1920×1080px  缩放:1.0  位置:(0,0) ← 当前\n");
    let other = monitor_line(1, "HDMI-1", 2560, 1440, "1.5", -2560, 120, &current);
    assert_eq!(other, "#1 \"HDMI-1\"  2560×1440px  缩放:1.5  位置:(-2560,120)\n");
}

#[test]
fn monitor_line_without_current_monitor() {
    let line = monitor_line(2, "", 800, 600, "2.0", 10, -5, &None);
    assert_eq!(line, "#2 \"\"  800×600px  缩放:2.0  位置:(10,-5)\n");
}

#[test]
fn monitors_summary_joins_lines() {
    let lines = vec![String::from("a\n"), String::from("b\n")];
    assert_eq!(monitors_summary(&lines), "a\nb\n");
}

#[test]
fn monitors_summary_without_monitors() {
    assert_eq!(monitors_summary(&Vec::new()), "无法获取显示器信息");
}

#[test]
fn guard_recovers_only_after_move_or_resize_off_screen() {
    let monitors = [rect(0, 0, 1920, 1080)];
    let away = Some(rect(5000, 5000, 800, 600));
    let home = Some(rect(100, 100, 800, 600));
    assert!(offscreen_guard_recovers(GuardEvent::Moved, away, &monitors));
    assert!(offscreen_guard_recovers(GuardEvent::Resized, away, &monitors));
    assert!(!offscreen_guard_recovers(GuardEvent::Other, away, &monitors));
    assert!(!offscreen_guard_recovers(GuardEvent::Moved, home, &monitors));
    assert!(!offscreen_guard_recovers(GuardEvent::Moved, None, &monitors));
}
