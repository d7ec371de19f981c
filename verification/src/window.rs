use vstd::prelude::*;
use crate::text::{decimal, decimal_string};

verus! {

/// A rectangle on the virtual desktop in physical pixels: top-left corner
/// and size, as the windowing system reports windows and monitors.
#[derive(Debug, Clone, Copy, PartialEq, Eq, Structural)]
pub struct Rect {
    pub x: i32,
    pub y: i32,
    pub width: u32,
    pub height: u32,
}

/// Right edge: `x + width as i32`.
pub open spec fn right_edge(r: Rect) -> int {
    r.x + (r.width as i32)
}

/// Bottom edge: `y + height as i32`.
pub open spec fn bottom_edge(r: Rect) -> int {
    r.y + (r.height as i32)
}

pub open spec fn max(a: int, b: int) -> int {
    if a >= b {
        a
    } else {
        b
    }
}

pub open spec fn min(a: int, b: int) -> int {
    if a <= b {
        a
    } else {
        b
    }
}

/// Width of the overlap of `w` and `m` along x, or 0.
pub open spec fn overlap_width(w: Rect, m: Rect) -> int {
    let left = max(w.x as int, m.x as int);
    let right = min(right_edge(w), right_edge(m));
    if left < right {
        right - left
    } else {
        0
    }
}

/// Height of the overlap of `w` and `m` along y, or 0.
pub open spec fn overlap_height(w: Rect, m: Rect) -> int {
    let top = max(w.y as int, m.y as int);
    let bottom = min(bottom_edge(w), bottom_edge(m));
    if top < bottom {
        bottom - top
    } else {
        0
    }
}

/// Area shared by `w` and `m`.
pub open spec fn overlap_area(w: Rect, m: Rect) -> int {
    if overlap_width(w, m) > 0 && overlap_height(w, m) > 0 {
        overlap_width(w, m) * overlap_height(w, m)
    } else {
        0
    }
}

/// Sum of the areas that `w` shares with each monitor (overlaps of
/// monitors with each other are counted twice).
pub open spec fn total_overlap(w: Rect, monitors: Seq<Rect>) -> int
    decreases monitors.len(),
{
    if monitors.len() == 0 {
        0
    } else {
        total_overlap(w, monitors.drop_last()) + overlap_area(w, monitors.last())
    }
}

/// Area of a window.
pub open spec fn window_area(w: Rect) -> int {
    w.width * w.height
}

/// Whether a window counts as on screen: no position known, an empty
/// window, or more than 30% of its area on monitors.
pub open spec fn on_screen_spec(window: Option<Rect>, monitors: Seq<Rect>) -> bool {
    match window {
        None => true,
        Some(w) => window_area(w) == 0 || (total_overlap(w, monitors) * 100) / window_area(w)
            > 30,
    }
}

/// An edge of a rectangle fits in `i32`.
pub open spec fn edges_fit(r: Rect) -> bool {
    &&& i32::MIN <= right_edge(r) <= i32::MAX
    &&& i32::MIN <= bottom_edge(r) <= i32::MAX
}

/// The check's integer arithmetic does not overflow.
pub open spec fn on_screen_fits(window: Option<Rect>, monitors: Seq<Rect>) -> bool {
    match window {
        None => true,
        Some(w) => {
            &&& edges_fit(w)
            &&& window_area(w) <= i64::MAX
            &&& forall|i: int| 0 <= i < monitors.len() ==> edges_fit(#[trigger] monitors[i])
            &&& forall|i: int|
                0 <= i < monitors.len() ==> overlap_width(w, #[trigger] monitors[i]) <= i32::MAX
                    && overlap_height(w, monitors[i]) <= i32::MAX
            &&& total_overlap(w, monitors) * 100 <= i64::MAX
        },
    }
}

proof fn lemma_overlap_nonneg(w: Rect, m: Rect)
    ensures
        overlap_width(w, m) >= 0,
        overlap_height(w, m) >= 0,
        overlap_area(w, m) >= 0,
{
    if overlap_width(w, m) > 0 && overlap_height(w, m) > 0 {
        assert(overlap_width(w, m) * overlap_height(w, m) > 0) by (nonlinear_arith)
            requires
                overlap_width(w, m) > 0,
                overlap_height(w, m) > 0,
        ;
    }
}

proof fn lemma_total_monotone(w: Rect, monitors: Seq<Rect>, k: int)
    requires
        0 <= k <= monitors.len(),
    ensures
        0 <= total_overlap(w, monitors.take(k)) <= total_overlap(w, monitors),
    decreases monitors.len(),
{
    if monitors.len() > 0 {
        lemma_overlap_nonneg(w, monitors.last());
        if k == monitors.len() {
            assert(monitors.take(k) =~= monitors);
            lemma_total_nonneg(w, monitors);
        } else {
            lemma_total_monotone(w, monitors.drop_last(), k);
            assert(monitors.drop_last().take(k) =~= monitors.take(k));
        }
    }
}

proof fn lemma_total_nonneg(w: Rect, monitors: Seq<Rect>)
    ensures
        total_overlap(w, monitors) >= 0,
    decreases monitors.len(),
{
    if monitors.len() > 0 {
        lemma_total_nonneg(w, monitors.drop_last());
        lemma_overlap_nonneg(w, monitors.last());
    }
}

/// Whether the window is on screen: more than 30% of its area lies on the
/// monitors. An unknown position or an empty window counts as on screen.
pub fn window_on_screen(window: Option<Rect>, monitors: &[Rect]) -> (on: bool)
    requires
        on_screen_fits(window, monitors@),
    ensures
        on == on_screen_spec(window, monitors@),
{
    let w = match window {
        None => return true,
        Some(w) => w,
    };
    assert(edges_fit(w));
    let win_left = w.x;
    let win_top = w.y;
    let win_right = w.x + #[verifier::truncate] (w.width as i32);
    let win_bottom = w.y + #[verifier::truncate] (w.height as i32);
    let win_area = w.width as i64 * w.height as i64;
    if win_area == 0 {
        return true;
    }
    let mut intersection_area: i64 = 0;
    let mut i: usize = 0;
    proof {
        lemma_total_monotone(w, monitors@, 0);
        assert(monitors@.take(0) =~= Seq::<Rect>::empty());
    }
    while i < monitors.len()
        invariant
            on_screen_fits(Some(w), monitors@),
            win_left == w.x,
            win_top == w.y,
            win_right == right_edge(w),
            win_bottom == bottom_edge(w),
            0 <= i <= monitors@.len(),
            intersection_area == total_overlap(w, monitors@.take(i as int)),
        decreases monitors@.len() - i,
    {
        let m = monitors[i];
        assert(edges_fit(monitors@[i as int]));
        let m_left = m.x;
        let m_top = m.y;
        let m_right = m.x + #[verifier::truncate] (m.width as i32);
        let m_bottom = m.y + #[verifier::truncate] (m.height as i32);

        let ix = if win_left >= m_left { win_left } else { m_left };
        let iy = if win_top >= m_top { win_top } else { m_top };
        let ix2 = if win_right <= m_right { win_right } else { m_right };
        let iy2 = if win_bottom <= m_bottom { win_bottom } else { m_bottom };

        proof {
            assert(monitors@.take(i + 1).drop_last() =~= monitors@.take(i as int));
            assert(monitors@.take(i + 1).last() == m);
            lemma_total_monotone(w, monitors@, i + 1);
            lemma_overlap_nonneg(w, m);
        }
        if ix < ix2 && iy < iy2 {
            assert(overlap_width(w, m) <= i32::MAX);
            let dx = ix2 - ix;
            let dy = iy2 - iy;
            assert(dx as int * dy as int == overlap_area(w, m));
            assert(0 < dx as int * dy as int <= i32::MAX as int * i32::MAX as int) by (nonlinear_arith)
                requires
                    0 < dx <= i32::MAX,
                    0 < dy <= i32::MAX,
            ;
            let area = dx as i64 * dy as i64;
            intersection_area = intersection_area + area;
        }
        i = i + 1;
    }
    proof {
        assert(monitors@.take(i as int) =~= monitors@);
        assert(w.width as int * w.height as int == win_area);
    }
    intersection_area * 100 / win_area > 30
}

/// A window that lies inside one monitor, and is not empty, is on screen.
pub proof fn lemma_inside_monitor_is_on_screen(w: Rect, monitors: Seq<Rect>, k: int)
    requires
        0 <= k < monitors.len(),
        window_area(w) > 0,
        edges_fit(w),
        monitors[k].x <= w.x,
        monitors[k].y <= w.y,
        right_edge(w) <= right_edge(monitors[k]),
        bottom_edge(w) <= bottom_edge(monitors[k]),
        w.width <= i32::MAX,
        w.height <= i32::MAX,
    ensures
        on_screen_spec(Some(w), monitors),
{
    let m = monitors[k];
    assert((w.width as i32) as int == w.width as int);
    assert((w.height as i32) as int == w.height as int);
    assert(w.width > 0 && w.height > 0) by (nonlinear_arith)
        requires
            w.width as int * w.height as int > 0,
    ;
    assert(overlap_width(w, m) == w.width);
    assert(overlap_height(w, m) == w.height);
    assert(overlap_area(w, m) == window_area(w));
    lemma_total_at_least(w, monitors, k);
    let a = window_area(w);
    let t = total_overlap(w, monitors);
    assert((t * 100) / a > 30) by (nonlinear_arith)
        requires
            t >= a,
            a > 0,
    ;
}

proof fn lemma_total_at_least(w: Rect, monitors: Seq<Rect>, k: int)
    requires
        0 <= k < monitors.len(),
    ensures
        total_overlap(w, monitors) >= overlap_area(w, monitors[k]),
    decreases monitors.len(),
{
    if k == monitors.len() - 1 {
        lemma_total_nonneg(w, monitors.drop_last());
    } else {
        lemma_total_at_least(w, monitors.drop_last(), k);
        lemma_overlap_nonneg(w, monitors.last());
    }
}

/// A non-empty window that shares no area with any monitor is off screen.
pub proof fn lemma_disjoint_is_off_screen(w: Rect, monitors: Seq<Rect>)
    requires
        window_area(w) > 0,
        forall|i: int| 0 <= i < monitors.len() ==> overlap_area(w, #[trigger] monitors[i]) == 0,
    ensures
        !on_screen_spec(Some(w), monitors),
{
    lemma_total_zero(w, monitors);
}

proof fn lemma_total_zero(w: Rect, monitors: Seq<Rect>)
    requires
        forall|i: int| 0 <= i < monitors.len() ==> overlap_area(w, #[trigger] monitors[i]) == 0,
    ensures
        total_overlap(w, monitors) == 0,
    decreases monitors.len(),
{
    if monitors.len() > 0 {
        assert(overlap_area(w, monitors[monitors.len() - 1]) == 0);
        lemma_total_zero(w, monitors.drop_last());
    }
}

/// The window events that the off-screen guard tells apart.
#[derive(Debug, Clone, Copy, PartialEq, Eq, Structural)]
pub enum GuardEvent {
    Moved,
    Resized,
    Other,
}

/// Whether the off-screen guard brings the window back to the primary
/// monitor after `event`: after a move or a resize that leaves the window
/// off screen.
pub fn offscreen_guard_recovers(event: GuardEvent, window: Option<Rect>, monitors: &[Rect]) -> (recover:
    bool)
    requires
        event is Other || on_screen_fits(window, monitors@),
    ensures
        recover == (!(event is Other) && !on_screen_spec(window, monitors@)),
{
    match event {
        GuardEvent::Moved | GuardEvent::Resized => !window_on_screen(window, monitors),
        GuardEvent::Other => false,
    }
}

/// Two rectangles are apart: one lies wholly to the left of, to the right
/// of, above or below the other.
pub open spec fn apart(w: Rect, m: Rect) -> bool {
    ||| w.x + w.width <= m.x
    ||| m.x + m.width <= w.x
    ||| w.y + w.height <= m.y
    ||| m.y + m.height <= w.y
}

/// The overlap counted for a window and a monitor lies within both, in
/// each direction: it is no wider and no taller than either of them, it
/// starts and ends inside both, and there is none where they are apart.
pub proof fn lemma_overlap_within_both(w: Rect, m: Rect)
    requires
        w.width <= i32::MAX,
        w.height <= i32::MAX,
        m.width <= i32::MAX,
        m.height <= i32::MAX,
    ensures
        0 <= overlap_width(w, m) <= w.width,
        overlap_width(w, m) <= m.width,
        0 <= overlap_height(w, m) <= w.height,
        overlap_height(w, m) <= m.height,
        overlap_width(w, m) > 0 ==> overlap_width(w, m) <= (m.x + m.width) - w.x
            && overlap_width(w, m) <= (w.x + w.width) - m.x,
        overlap_height(w, m) > 0 ==> overlap_height(w, m) <= (m.y + m.height) - w.y
            && overlap_height(w, m) <= (w.y + w.height) - m.y,
        apart(w, m) ==> overlap_area(w, m) == 0,
{
    assert((w.width as i32) as int == w.width as int);
    assert((w.height as i32) as int == w.height as int);
    assert((m.width as i32) as int == m.width as int);
    assert((m.height as i32) as int == m.height as int);
}

/// A non-empty window that lies apart from every monitor, whether beside,
/// above or below it, is off screen.
pub proof fn lemma_apart_is_off_screen(w: Rect, monitors: Seq<Rect>)
    requires
        window_area(w) > 0,
        w.width <= i32::MAX,
        w.height <= i32::MAX,
        forall|i: int|
            0 <= i < monitors.len() ==> (#[trigger] monitors[i]).width <= i32::MAX
                && monitors[i].height <= i32::MAX && apart(w, monitors[i]),
    ensures
        !on_screen_spec(Some(w), monitors),
{
    assert forall|i: int| 0 <= i < monitors.len() implies overlap_area(w, #[trigger] monitors[i])
        == 0 by {
        lemma_overlap_within_both(w, monitors[i]);
    }
    lemma_disjoint_is_off_screen(w, monitors);
}

/// Rust's `/ 2` on integers: rounds toward zero.
pub open spec fn half_toward_zero(v: int) -> int {
    if v >= 0 {
        v / 2
    } else {
        -((-v) / 2)
    }
}

/// `monitor_start + (monitor_len as i32 - window_len as i32) / 2`.
pub open spec fn centered_coord(monitor_start: i32, monitor_len: u32, window_len: u32) -> int {
    monitor_start + half_toward_zero((monitor_len as i32) - (window_len as i32))
}

/// The centring arithmetic does not overflow.
pub open spec fn centering_fits(monitor_start: i32, monitor_len: u32, window_len: u32) -> bool {
    &&& i32::MIN <= (monitor_len as i32) - (window_len as i32) <= i32::MAX
    &&& i32::MIN <= centered_coord(monitor_start, monitor_len, window_len) <= i32::MAX
}

/// Start coordinate that centres a window of length `window_len` on a
/// monitor that starts at `monitor_start` and has length `monitor_len`.
pub fn centered_coordinate(monitor_start: i32, monitor_len: u32, window_len: u32) -> (c: i32)
    requires
        centering_fits(monitor_start, monitor_len, window_len),
    ensures
        c == centered_coord(monitor_start, monitor_len, window_len),
{
    let d: i32 = #[verifier::truncate] (monitor_len as i32) - #[verifier::truncate] (
    window_len as i32);
    let wide = d as i64;
    let half: i64 = if wide >= 0 {
        wide / 2
    } else {
        let magnitude: i64 = 0 - wide;
        0 - magnitude / 2
    };
    monitor_start + half as i32
}

/// What the winit window reports: the monitor asked about (current or
/// primary), if known, and the window's outer size.
#[derive(Debug, Clone, Copy, PartialEq, Eq, Structural)]
pub struct WindowQuery {
    pub monitor: Option<Rect>,
    pub outer_width: u32,
    pub outer_height: u32,
}

/// Both coordinates of a centring fit.
pub open spec fn query_fits(query: Option<WindowQuery>) -> bool {
    match query {
        Some(q) => match q.monitor {
            Some(m) => centering_fits(m.x, m.width, q.outer_width) && centering_fits(
                m.y,
                m.height,
                q.outer_height,
            ),
            None => true,
        },
        None => true,
    }
}

/// The session is a Wayland one: `XDG_SESSION_TYPE` is exactly "wayland".
pub open spec fn is_wayland_spec(session_type: Option<Seq<char>>) -> bool {
    session_type == Some("wayland"@)
}

/// Where to move the window, or why it cannot be moved. On Wayland the
/// compositor places windows; without a winit window or without the
/// monitor nothing can be computed.
pub open spec fn placement_spec(
    session_type: Option<Seq<char>>,
    query: Option<WindowQuery>,
    no_monitor: Seq<char>,
) -> Result<(int, int), Seq<char>> {
    if is_wayland_spec(session_type) {
        Err("Wayland 不支持应用设置窗口位置, 窗口位置由合成器控制"@)
    } else {
        match query {
            None => Err("无法访问底层窗口"@),
            Some(q) => match q.monitor {
                None => Err(no_monitor),
                Some(m) => Ok(
                    (
                        centered_coord(m.x, m.width, q.outer_width),
                        centered_coord(m.y, m.height, q.outer_height),
                    ),
                ),
            },
        }
    }
}

/// The views of an optional string.
pub open spec fn opt_view(s: Option<String>) -> Option<Seq<char>> {
    match s {
        Some(v) => Some(v@),
        None => None,
    }
}

/// The outcome of a placement with the texts viewed.
pub open spec fn placement_view(r: Result<(i32, i32), String>) -> Result<(int, int), Seq<char>> {
    match r {
        Ok((x, y)) => Ok((x as int, y as int)),
        Err(e) => Err(e@),
    }
}

fn is_wayland(session_type: &Option<String>) -> (b: bool)
    ensures
        b == is_wayland_spec(opt_view(*session_type)),
{
    match session_type {
        Some(v) => {
            let wayland = String::from_str("wayland");
            *v == wayland
        },
        None => false,
    }
}

fn place(session_type: &Option<String>, query: Option<WindowQuery>, no_monitor: &str) -> (r: Result<
    (i32, i32),
    String,
>)
    requires
        query_fits(query),
    ensures
        placement_view(r) == placement_spec(opt_view(*session_type), query, no_monitor@),
{
    if is_wayland(session_type) {
        return Err(String::from_str("Wayland 不支持应用设置窗口位置, 窗口位置由合成器控制"));
    }
    match query {
        None => Err(String::from_str("无法访问底层窗口")),
        Some(q) => match q.monitor {
            None => Err(String::from_str(no_monitor)),
            Some(m) => {
                let x = centered_coordinate(m.x, m.width, q.outer_width);
                let y = centered_coordinate(m.y, m.height, q.outer_height);
                Ok((x, y))
            },
        },
    }
}

/// Where to move the window to centre it on its current monitor, or why
/// that cannot be done.
pub fn center_window_plan(session_type: &Option<String>, query: Option<WindowQuery>) -> (r: Result<
    (i32, i32),
    String,
>)
    requires
        query_fits(query),
    ensures
        placement_view(r) == placement_spec(
            opt_view(*session_type),
            query,
            "无法获取当前显示器信息"@,
        ),
{
    place(session_type, query, "无法获取当前显示器信息")
}

/// Where to move the window to centre it on the primary monitor (to bring
/// back a window that went off screen), or why that cannot be done.
pub fn recover_to_primary_plan(session_type: &Option<String>, query: Option<WindowQuery>) -> (r:
    Result<(i32, i32), String>)
    requires
        query_fits(query),
    ensures
        placement_view(r) == placement_spec(
            opt_view(*session_type),
            query,
            "无法获取主显示器信息"@,
        ),
{
    place(session_type, query, "无法获取主显示器信息")
}

/// The status line after a placement: `done` on success, the reason
/// otherwise.
pub fn placement_status(r: Result<(i32, i32), String>, done: &str) -> (status: String)
    ensures
        status@ == (match r {
            Ok(_) => done@,
            Err(e) => e@,
        }),
{
    match r {
        Ok(_) => String::from_str(done),
        Err(e) => e,
    }
}

/// Centring leaves equal margins on both sides, or one pixel more on the
/// far side when the spare room is odd; a window as wide as the monitor
/// starts at the monitor's edge.
pub proof fn lemma_centered_margins(start: i32, monitor_len: u32, window_len: u32)
    requires
        window_len <= monitor_len <= i32::MAX,
    ensures
        ({
            let c = centered_coord(start, monitor_len, window_len);
            let near = c - start;
            let far = (start + monitor_len) - (c + window_len);
            &&& 0 <= near
            &&& 0 <= far - near <= 1
        }),
        monitor_len == window_len ==> centered_coord(start, monitor_len, window_len) == start,
{
    assert((monitor_len as i32) as int == monitor_len as int);
    assert((window_len as i32) as int == window_len as int);
}

/// One line of the monitor list: index, name, size, scale, position, and a
/// marker on the monitor that holds the window. `scale` is the scale factor
/// already written with one decimal; `current_name` is the name of the
/// window's current monitor, if known.
pub open spec fn monitor_line_spec(
    index: u32,
    name: Seq<char>,
    width: u32,
    height: u32,
    scale: Seq<char>,
    x: i32,
    y: i32,
    current_name: Option<Seq<char>>,
) -> Seq<char> {
    "#"@ + decimal(index as int) + " \""@ + name + "\"  "@ + decimal(width as int) + "×"@ + decimal(
        height as int,
    ) + "px  缩放:"@ + scale + "  位置:("@ + decimal(x as int) + ","@ + decimal(y as int) + ")"@
        + (if current_name == Some(name) {
        " ← 当前"@
    } else {
        ""@
    }) + "\n"@
}

/// One line of the monitor list shown in the window.
pub fn monitor_line(
    index: u32,
    name: &str,
    width: u32,
    height: u32,
    scale: &str,
    x: i32,
    y: i32,
    current_name: &Option<String>,
) -> (line: String)
    ensures
        line@ == monitor_line_spec(index, name@, width, height, scale@, x, y, opt_view(*current_name)),
{
    let mut line = String::from_str("#");
    line.append(decimal_string(index as i64).as_str());
    line.append(" \"");
    line.append(name);
    line.append("\"  ");
    line.append(decimal_string(width as i64).as_str());
    line.append("×");
    line.append(decimal_string(height as i64).as_str());
    line.append("px  缩放:");
    line.append(scale);
    line.append("  位置:(");
    line.append(decimal_string(x as i64).as_str());
    line.append(",");
    line.append(decimal_string(y as i64).as_str());
    line.append(")");
    let this = String::from_str(name);
    let current = match current_name {
        Some(c) => *c == this,
        None => false,
    };
    if current {
        line.append(" ← 当前");
    }
    line.append("\n");
    proof {
        reveal_strlit("");
        if !current {
            assert(line@ =~= monitor_line_spec(
                index,
                name@,
                width,
                height,
                scale@,
                x,
                y,
                opt_view(*current_name),
            ));
        }
    }
    line
}

/// The monitor list shown in the window: the lines one after the other, or a
/// notice where that gives no text.
pub fn monitors_summary(lines: &Vec<String>) -> (text: String)
    ensures
        text@ == (if lines_joined(lines@).len() == 0 {
            "无法获取显示器信息"@
        } else {
            lines_joined(lines@)
        }),
{
    let mut text = String::new();
    let mut i: usize = 0;
    while i < lines.len()
        invariant
            0 <= i <= lines@.len(),
            text@ == lines_joined(lines@.take(i as int)),
        decreases lines@.len() - i,
    {
        assert(lines@.take(i + 1).drop_last() =~= lines@.take(i as int));
        text.append(lines[i].as_str());
        i = i + 1;
    }
    assert(lines@.take(lines@.len() as int) =~= lines@);
    if text.unicode_len() == 0 {
        String::from_str("无法获取显示器信息")
    } else {
        text
    }
}

/// The lines one after the other.
pub open spec fn lines_joined(lines: Seq<String>) -> Seq<char>
    decreases lines.len(),
{
    if lines.len() == 0 {
        Seq::empty()
    } else {
        lines_joined(lines.drop_last()) + lines.last()@
    }
}


} // verus!
