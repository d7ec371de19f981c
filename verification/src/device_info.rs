use vstd::prelude::*;
use crate::text::{
    chars_of, decimal, decimal_string, split_words, string_from_chars, trim_spec, trim_string,
    words,
};

verus! {

/// Label of the charging status that Android's battery broadcast reports
/// (`BatteryManager.BATTERY_STATUS_*`): 2 charging, 5 full, anything else
/// not charging.
pub open spec fn battery_status_label(status: i32) -> Seq<char> {
    if status == 2 {
        "充电中"@
    } else if status == 5 {
        "已充满"@
    } else {
        "未充电"@
    }
}

/// The Android battery text: level in percent, and the charging status, or
/// "未知" where no battery broadcast was available.
pub open spec fn android_battery_spec(level: i32, status: Option<i32>) -> Seq<char> {
    "Android 电池信息\n电量: "@ + decimal(level as int) + "%\n状态: "@ + match status {
        Some(s) => battery_status_label(s),
        None => "未知"@,
    }
}

/// Text of the Android battery panel.
pub fn android_battery_report(level: i32, status: Option<i32>) -> (text: String)
    ensures
        text@ == android_battery_spec(level, status),
{
    let label = match status {
        Some(2) => "充电中",
        Some(5) => "已充满",
        Some(_) => "未充电",
        None => "未知",
    };
    let mut text = String::from_str("Android 电池信息\n电量: ");
    let level_text = decimal_string(level as i64);
    text.append(level_text.as_str());
    text.append("%\n状态: ");
    text.append(label);
    text
}

/// Text of the Android device panel.
pub fn android_device_report(model: &str, manufacturer: &str, release: &str, sdk: i32) -> (text:
    String)
    ensures
        text@ == "Android 设备信息\n型号: "@ + model@ + "\n制造商: "@ + manufacturer@ + "\n版本: "@
            + release@ + " (API "@ + decimal(sdk as int) + ")"@,
{
    let mut text = String::from_str("Android 设备信息\n型号: ");
    text.append(model);
    text.append("\n制造商: ");
    text.append(manufacturer);
    text.append("\n版本: ");
    text.append(release);
    text.append(" (API ");
    let sdk_text = decimal_string(sdk as i64);
    text.append(sdk_text.as_str());
    text.append(")");
    text
}

/// What Android's ConnectivityManager reports about the active network.
#[derive(Debug, Clone)]
pub enum AndroidNetwork {
    /// No active network.
    NoActiveNetwork,
    /// An active network that is not connected.
    NotConnected,
    /// A connected network with its type name ("WIFI", "MOBILE", ...).
    Connected(String),
}

/// The label shown for an Android network type name.
pub open spec fn network_type_label(kind_name: Seq<char>) -> Seq<char> {
    if kind_name == "WIFI"@ {
        "WiFi"@
    } else if kind_name == "MOBILE"@ {
        "移动数据"@
    } else {
        kind_name
    }
}

/// The Android network text.
pub open spec fn android_network_spec(network: AndroidNetwork) -> Seq<char> {
    match network {
        AndroidNetwork::NoActiveNetwork => "Android 网络信息\n状态: 无网络连接"@,
        AndroidNetwork::NotConnected => "Android 网络信息\n状态: 网络未连接"@,
        AndroidNetwork::Connected(t) => "Android 网络信息\n类型: "@ + network_type_label(t@)
            + "\n状态: 已连接"@,
    }
}

/// Text of the Android network panel.
pub fn android_network_report(network: AndroidNetwork) -> (text: String)
    ensures
        text@ == android_network_spec(network),
{
    match network {
        AndroidNetwork::NoActiveNetwork => String::from_str("Android 网络信息\n状态: 无网络连接"),
        AndroidNetwork::NotConnected => String::from_str("Android 网络信息\n状态: 网络未连接"),
        AndroidNetwork::Connected(kind_name) => {
            let wifi = String::from_str("WIFI");
            let mobile = String::from_str("MOBILE");
            let label = if kind_name == wifi {
                String::from_str("WiFi")
            } else if kind_name == mobile {
                String::from_str("移动数据")
            } else {
                kind_name
            };
            let mut text = String::from_str("Android 网络信息\n类型: ");
            text.append(label.as_str());
            text.append("\n状态: 已连接");
            text
        },
    }
}

/// Text shown when a JNI call fails: "JNI 错误: " and the error.
pub fn jni_error_text(error: &str) -> (text: String)
    ensures
        text@ == "JNI 错误: "@ + error@,
{
    let mut text = String::from_str("JNI 错误: ");
    text.append(error);
    text
}

/// Result of showing a toast on Android: the message, or the error.
pub fn android_toast_text(outcome: Result<&str, &str>) -> (text: String)
    ensures
        text@ == (match outcome {
            Ok(message) => "Toast 已弹出: "@ + message@,
            Err(error) => "Toast 失败: "@ + error@,
        }),
{
    match outcome {
        Ok(message) => {
            let mut text = String::from_str("Toast 已弹出: ");
            text.append(message);
            text
        },
        Err(error) => {
            let mut text = String::from_str("Toast 失败: ");
            text.append(error);
            text
        },
    }
}

/// Result of the desktop stand-in for a toast.
pub fn desktop_toast_text(message: &str) -> (text: String)
    ensures
        text@ == "Toast 模拟: "@ + message@,
{
    let mut text = String::from_str("Toast 模拟: ");
    text.append(message);
    text
}

/// The desktop battery text. `capacity` and `status` are the contents of
/// the Linux battery files, where they could be read.
pub open spec fn desktop_battery_spec(capacity: Option<Seq<char>>, status: Option<Seq<char>>) -> Seq<
    char,
> {
    match capacity {
        Some(c) => match status {
            Some(s) => "模拟电池信息 (Linux)\n电量: "@ + trim_spec(c) + "%\n状态: "@ + trim_spec(s),
            None => "模拟电池信息 (Linux)\n电量: "@ + trim_spec(c) + "%"@,
        },
        None => "模拟电池信息 (Desktop)\n电量: 85%\n状态: 充电中\n注意: 真实电池信息需要在 Android 上运行"@,
    }
}

/// The views of an optional string.
pub open spec fn opt_text(s: Option<String>) -> Option<Seq<char>> {
    match s {
        Some(v) => Some(v@),
        None => None,
    }
}

/// Text of the desktop battery panel.
pub fn desktop_battery_report(capacity: Option<String>, status: Option<String>) -> (text: String)
    ensures
        text@ == desktop_battery_spec(opt_text(capacity), opt_text(status)),
{
    match capacity {
        Some(c) => {
            let level = trim_string(c.as_str());
            let mut text = String::from_str("模拟电池信息 (Linux)\n电量: ");
            text.append(level.as_str());
            match status {
                Some(s) => {
                    let state = trim_string(s.as_str());
                    text.append("%\n状态: ");
                    text.append(state.as_str());
                },
                None => {
                    text.append("%");
                },
            }
            text
        },
        None => String::from_str(
            "模拟电池信息 (Desktop)\n电量: 85%\n状态: 充电中\n注意: 真实电池信息需要在 Android 上运行",
        ),
    }
}

/// What the standard library reports about the platform.
#[derive(Debug, Clone)]
pub struct PlatformConsts {
    pub os: String,
    pub arch: String,
    pub family: String,
}

/// The desktop device text. `product_name` and `vendor` are the contents of
/// the DMI files (empty where they could not be read).
pub open spec fn desktop_device_spec(product_name: Seq<char>, vendor: Seq<char>, p: PlatformConsts) -> Seq<
    char,
> {
    let model = trim_spec(product_name);
    if model.len() > 0 {
        "模拟 Android 设备信息 (Desktop)\n型号: "@ + model + "\n制造商: "@ + trim_spec(vendor)
            + "\n硬件: "@ + p.arch@ + "\n系统: "@ + p.os@ + " ("@ + p.family@ + ")\n架构: "@
            + p.arch@ + "\n\n真实数据请在 Android 设备上运行"@
    } else {
        "模拟 Android 设备信息 (Desktop)\n型号: Unknown (Desktop)\n制造商: Rust Developer\n系统: "@
            + p.os@ + " ("@ + p.family@ + ")\n架构: "@ + p.arch@ + "\n\n真实数据请在 Android 设备上运行"@
    }
}

/// Text of the desktop device panel.
pub fn desktop_device_report(product_name: &str, vendor: &str, platform: &PlatformConsts) -> (text:
    String)
    ensures
        text@ == desktop_device_spec(product_name@, vendor@, *platform),
{
    let model = trim_string(product_name);
    if model.unicode_len() > 0 {
        let manufacturer = trim_string(vendor);
        let mut text = String::from_str("模拟 Android 设备信息 (Desktop)\n型号: ");
        text.append(model.as_str());
        text.append("\n制造商: ");
        text.append(manufacturer.as_str());
        text.append("\n硬件: ");
        text.append(platform.arch.as_str());
        text.append("\n系统: ");
        text.append(platform.os.as_str());
        text.append(" (");
        text.append(platform.family.as_str());
        text.append(")\n架构: ");
        text.append(platform.arch.as_str());
        text.append("\n\n真实数据请在 Android 设备上运行");
        text
    } else {
        let mut text = String::from_str(
            "模拟 Android 设备信息 (Desktop)\n型号: Unknown (Desktop)\n制造商: Rust Developer\n系统: ",
        );
        text.append(platform.os.as_str());
        text.append(" (");
        text.append(platform.family.as_str());
        text.append(")\n架构: ");
        text.append(platform.arch.as_str());
        text.append("\n\n真实数据请在 Android 设备上运行");
        text
    }
}

/// Index of the first word equal to `key`, or -1.
pub open spec fn first_position(ws: Seq<Seq<char>>, key: Seq<char>) -> int
    decreases ws.len(),
{
    if ws.len() == 0 {
        -1
    } else if ws[0] == key {
        0
    } else {
        let p = first_position(ws.skip(1), key);
        if p < 0 {
            -1
        } else {
            p + 1
        }
    }
}

/// The word after the first word equal to `key`, if there is one.
pub open spec fn word_after(ws: Seq<Seq<char>>, key: Seq<char>) -> Option<Seq<char>> {
    let p = first_position(ws, key);
    if 0 <= p && p + 1 < ws.len() {
        Some(ws[p + 1])
    } else {
        None
    }
}

proof fn lemma_first_position(ws: Seq<Seq<char>>, key: Seq<char>)
    ensures
        -1 <= first_position(ws, key) < ws.len(),
        first_position(ws, key) >= 0 ==> ws[first_position(ws, key)] == key,
        forall|i: int|
            0 <= i < ws.len() && (first_position(ws, key) < 0 || i < first_position(ws, key))
                ==> #[trigger] ws[i] != key,
    decreases ws.len(),
{
    if ws.len() > 0 && ws[0] != key {
        lemma_first_position(ws.skip(1), key);
        assert forall|i: int|
            0 <= i < ws.len() && (first_position(ws, key) < 0 || i < first_position(ws, key))
                implies #[trigger] ws[i] != key by {
            if i > 0 {
                assert(ws[i] == ws.skip(1)[i - 1]);
            }
        }
    }
}

/// Text equality of two character lists.
fn same_chars(a: &Vec<char>, b: &[char]) -> (eq: bool)
    ensures
        eq == (a@ == b@),
{
    if a.len() != b.len() {
        return false;
    }
    let mut i: usize = 0;
    while i < a.len()
        invariant
            a@.len() == b@.len(),
            0 <= i <= a@.len(),
            forall|k: int| 0 <= k < i ==> a@[k] == b@[k],
        decreases a@.len() - i,
    {
        if a[i] != b[i] {
            return false;
        }
        i = i + 1;
    }
    assert(a@ =~= b@);
    true
}

/// The word after the first word `key` in `text`.
fn find_word_after(text: &str, key: &[char]) -> (found: Option<Vec<char>>)
    ensures
        found matches Some(w) ==> word_after(words(text@), key@) == Some(w@),
        found is None ==> word_after(words(text@), key@) is None,
{
    let ws = split_words(chars_of(text).as_slice());
    let ghost all = words(text@);
    proof {
        lemma_first_position(all, key@);
    }
    let mut i: usize = 0;
    while i < ws.len()
        invariant
            all == words(text@),
            ws@.len() == all.len(),
            forall|k: int| 0 <= k < ws@.len() ==> #[trigger] ws@[k]@ == all[k],
            -1 <= first_position(all, key@) < all.len(),
            first_position(all, key@) >= 0 ==> all[first_position(all, key@)] == key@,
            forall|k: int|
                0 <= k < all.len() && (first_position(all, key@) < 0 || k < first_position(
                    all,
                    key@,
                )) ==> #[trigger] all[k] != key@,
            0 <= i <= ws@.len(),
            forall|k: int| 0 <= k < i ==> #[trigger] all[k] != key@,
        decreases ws@.len() - i,
    {
        if same_chars(&ws[i], key) {
            assert(all[i as int] == key@);
            assert(first_position(all, key@) == i);
            if i + 1 < ws.len() {
                let mut w: Vec<char> = Vec::new();
                let next = &ws[i + 1];
                let mut k: usize = 0;
                while k < next.len()
                    invariant
                        0 <= k <= next@.len(),
                        w@ =~= next@.take(k as int),
                    decreases next@.len() - k,
                {
                    w.push(next[k]);
                    k = k + 1;
                }
                assert(next@.take(next@.len() as int) =~= next@);
                assert(ws@[i + 1]@ == all[i + 1]);
                assert(w@ == all[i + 1]);
                assert(word_after(all, key@) == Some(all[i + 1]));
                return Some(w);
            } else {
                assert(word_after(all, key@) is None);
                return None;
            }
        }
        i = i + 1;
    }
    None
}

/// The network interface of the default route in `ip route show default`
/// output: the word after "dev", or "unknown".
pub open spec fn route_interface_spec(route: Seq<char>) -> Seq<char> {
    match word_after(words(route), "dev"@) {
        Some(w) => w,
        None => "unknown"@,
    }
}

/// The interface of the default route.
pub fn route_interface(route: &str) -> (iface: String)
    ensures
        iface@ == route_interface_spec(route@),
{
    let key: Vec<char> = vec!['d', 'e', 'v'];
    proof {
        reveal_strlit("dev");
        assert(key@ =~= "dev"@);
    }
    match find_word_after(route, key.as_slice()) {
        Some(w) => string_from_chars(w.as_slice()),
        None => String::from_str("unknown"),
    }
}

/// `s` begins with `prefix`.
pub open spec fn starts_with(s: Seq<char>, prefix: Seq<char>) -> bool {
    prefix.len() <= s.len() && s.take(prefix.len() as int) == prefix
}

fn chars_start_with(s: &Vec<char>, prefix: &[char]) -> (b: bool)
    ensures
        b == starts_with(s@, prefix@),
{
    if prefix.len() > s.len() {
        return false;
    }
    let mut i: usize = 0;
    while i < prefix.len()
        invariant
            prefix@.len() <= s@.len(),
            0 <= i <= prefix@.len(),
            forall|k: int| 0 <= k < i ==> s@[k] == prefix@[k],
        decreases prefix@.len() - i,
    {
        if s[i] != prefix[i] {
            assert(s@.take(prefix@.len() as int)[i as int] != prefix@[i as int]);
            return false;
        }
        i = i + 1;
    }
    assert(s@.take(prefix@.len() as int) =~= prefix@);
    true
}

/// A wireless interface name: "wlan..." or "wlp...".
pub open spec fn is_wifi_interface_spec(iface: Seq<char>) -> bool {
    starts_with(iface, "wlan"@) || starts_with(iface, "wlp"@)
}

/// Whether the interface is a wireless one.
pub fn is_wifi_interface(iface: &str) -> (b: bool)
    ensures
        b == is_wifi_interface_spec(iface@),
{
    let chars = chars_of(iface);
    let wlan: Vec<char> = vec!['w', 'l', 'a', 'n'];
    let wlp: Vec<char> = vec!['w', 'l', 'p'];
    proof {
        reveal_strlit("wlan");
        reveal_strlit("wlp");
        assert(wlan@ =~= "wlan"@);
        assert(wlp@ =~= "wlp"@);
    }
    chars_start_with(&chars, wlan.as_slice()) || chars_start_with(&chars, wlp.as_slice())
}

/// Index of the first `c` in `s`, or its length.
pub open spec fn index_of_char(s: Seq<char>, c: char) -> int
    decreases s.len(),
{
    if s.len() == 0 {
        0
    } else if s[0] == c {
        0
    } else {
        1 + index_of_char(s.skip(1), c)
    }
}

proof fn lemma_index_of_char(s: Seq<char>, c: char, k: int)
    requires
        0 <= k <= s.len(),
        forall|j: int| 0 <= j < k ==> #[trigger] s[j] != c,
        k == s.len() || s[k] == c,
    ensures
        index_of_char(s, c) == k,
    decreases k,
{
    if k > 0 {
        lemma_index_of_char(s.skip(1), c, k - 1);
    }
}

/// The address in `ip addr show` output: the part before "/" of the word
/// after "inet", or "无 IP".
pub open spec fn address_spec(addr_info: Seq<char>) -> Seq<char> {
    match word_after(words(addr_info), "inet"@) {
        Some(w) => w.take(index_of_char(w, '/')),
        None => "无 IP"@,
    }
}

/// The IPv4 address of an interface, from `ip addr show` output.
pub fn interface_address(addr_info: &str) -> (ip: String)
    ensures
        ip@ == address_spec(addr_info@),
{
    let key: Vec<char> = vec!['i', 'n', 'e', 't'];
    proof {
        reveal_strlit("inet");
        assert(key@ =~= "inet"@);
    }
    match find_word_after(addr_info, key.as_slice()) {
        Some(w) => {
            let mut k: usize = 0;
            while k < w.len() && w[k] != '/'
                invariant
                    0 <= k <= w@.len(),
                    forall|j: int| 0 <= j < k ==> #[trigger] w@[j] != '/',
                decreases w@.len() - k,
            {
                k = k + 1;
            }
            proof {
                lemma_index_of_char(w@, '/', k as int);
            }
            let mut head: Vec<char> = Vec::new();
            let mut t: usize = 0;
            while t < k
                invariant
                    0 <= t <= k <= w@.len(),
                    head@ =~= w@.take(t as int),
                decreases k - t,
            {
                head.push(w[t]);
                t = t + 1;
            }
            string_from_chars(head.as_slice())
        },
        None => String::from_str("无 IP"),
    }
}

/// The desktop network text. `route` is the output of
/// `ip route show default` and `addr` that of `ip addr show <interface>`,
/// where the commands could be run.
pub open spec fn desktop_network_spec(route: Option<Seq<char>>, addr: Option<Seq<char>>) -> Seq<char> {
    match route {
        Some(r) => {
            let iface = route_interface_spec(r);
            let kind = if is_wifi_interface_spec(iface) {
                "WiFi"@
            } else {
                "以太网"@
            };
            let ip = match addr {
                Some(a) => address_spec(a),
                None => "未知"@,
            };
            "模拟 Android 网络信息 (Desktop)\n类型: "@ + kind + "\n接口: "@ + iface + "\nIP 地址: "@
                + ip + "\n状态: 已连接\n\n真实数据请在 Android 设备上运行"@
        },
        None => "模拟 Android 网络信息 (Desktop)\n类型: WiFi\n状态: 已连接\n\n真实数据请在 Android 设备上运行"@,
    }
}

/// Text of the desktop network panel.
pub fn desktop_network_report(route: Option<String>, addr: Option<String>) -> (text: String)
    ensures
        text@ == desktop_network_spec(opt_text(route), opt_text(addr)),
{
    match route {
        Some(r) => {
            let iface = route_interface(r.as_str());
            let kind = if is_wifi_interface(iface.as_str()) {
                "WiFi"
            } else {
                "以太网"
            };
            let ip = match addr {
                Some(a) => interface_address(a.as_str()),
                None => String::from_str("未知"),
            };
            let mut text = String::from_str("模拟 Android 网络信息 (Desktop)\n类型: ");
            text.append(kind);
            text.append("\n接口: ");
            text.append(iface.as_str());
            text.append("\nIP 地址: ");
            text.append(ip.as_str());
            text.append("\n状态: 已连接\n\n真实数据请在 Android 设备上运行");
            text
        },
        None => String::from_str(
            "模拟 Android 网络信息 (Desktop)\n类型: WiFi\n状态: 已连接\n\n真实数据请在 Android 设备上运行",
        ),
    }
}

/// Texts that an event from the Java side sets in the window; `None`
/// leaves a text as it is.
#[derive(Debug, Clone)]
pub struct JavaEventUpdate {
    pub status_text: Option<String>,
    pub device_info: Option<String>,
    pub battery_info: Option<String>,
}

/// How the window reacts to the Java event `name` with `value`.
pub open spec fn java_event_spec(name: Seq<char>, value: Seq<char>) -> (
    Option<Seq<char>>,
    Option<Seq<char>>,
    Option<Seq<char>>,
) {
    if name == "toast"@ {
        (
            Some("Java→Rust: Toast '"@ + value + "'"@),
            Some("收到 Java 事件: toast = "@ + value),
            None,
        )
    } else if name == "battery"@ {
        (Some("收到 Java 电池推送"@), None, Some("Java 推送电量: "@ + value))
    } else {
        (Some("Java→Rust 未知事件: "@ + name), None, None)
    }
}

/// The views of an update, in the order status, device, battery.
pub open spec fn update_view(u: JavaEventUpdate) -> (
    Option<Seq<char>>,
    Option<Seq<char>>,
    Option<Seq<char>>,
) {
    (opt_text(u.status_text), opt_text(u.device_info), opt_text(u.battery_info))
}

/// Decides what an event from the Java side changes in the window.
pub fn handle_java_event(name: &str, value: &str) -> (update: JavaEventUpdate)
    ensures
        update_view(update) == java_event_spec(name@, value@),
{
    let event = String::from_str(name);
    let toast = String::from_str("toast");
    let battery = String::from_str("battery");
    if event == toast {
        let mut status = String::from_str("Java→Rust: Toast '");
        status.append(value);
        status.append("'");
        let mut device = String::from_str("收到 Java 事件: toast = ");
        device.append(value);
        JavaEventUpdate { status_text: Some(status), device_info: Some(device), battery_info: None }
    } else if event == battery {
        let mut level = String::from_str("Java 推送电量: ");
        level.append(value);
        JavaEventUpdate {
            status_text: Some(String::from_str("收到 Java 电池推送")),
            device_info: None,
            battery_info: Some(level),
        }
    } else {
        let mut status = String::from_str("Java→Rust 未知事件: ");
        status.append(name);
        JavaEventUpdate { status_text: Some(status), device_info: None, battery_info: None }
    }
}

/// The information buttons of the device window.
#[derive(Debug, Clone, Copy, PartialEq, Eq, Structural)]
pub enum InfoRequest {
    Device,
    Battery,
    Network,
}

/// What an information button puts in the window: the text in its own
/// panel, and a status line. `None` leaves a panel as it is.
#[derive(Debug, Clone)]
pub struct PanelUpdate {
    pub device_info: Option<String>,
    pub battery_info: Option<String>,
    pub network_info: Option<String>,
    pub status_text: String,
}

/// The status line after an information button.
pub open spec fn info_status_spec(request: InfoRequest) -> Seq<char> {
    match request {
        InfoRequest::Device => "设备信息已获取"@,
        InfoRequest::Battery => "电池信息已获取"@,
        InfoRequest::Network => "网络信息已获取"@,
    }
}

/// The panel texts of an update, in the order device, battery, network.
pub open spec fn panels_view(u: PanelUpdate) -> (Option<Seq<char>>, Option<Seq<char>>, Option<Seq<char>>) {
    (opt_text(u.device_info), opt_text(u.battery_info), opt_text(u.network_info))
}

/// Where an information button puts `info`: its own panel only.
pub open spec fn panels_spec(request: InfoRequest, info: Seq<char>) -> (
    Option<Seq<char>>,
    Option<Seq<char>>,
    Option<Seq<char>>,
) {
    match request {
        InfoRequest::Device => (Some(info), None, None),
        InfoRequest::Battery => (None, Some(info), None),
        InfoRequest::Network => (None, None, Some(info)),
    }
}

/// What an information button does with the text it fetched.
pub fn panel_update(request: InfoRequest, info: String) -> (update: PanelUpdate)
    ensures
        panels_view(update) == panels_spec(request, info@),
        update.status_text@ == info_status_spec(request),
{
    match request {
        InfoRequest::Device => PanelUpdate {
            device_info: Some(info),
            battery_info: None,
            network_info: None,
            status_text: String::from_str("设备信息已获取"),
        },
        InfoRequest::Battery => PanelUpdate {
            device_info: None,
            battery_info: Some(info),
            network_info: None,
            status_text: String::from_str("电池信息已获取"),
        },
        InfoRequest::Network => PanelUpdate {
            device_info: None,
            battery_info: None,
            network_info: Some(info),
            status_text: String::from_str("网络信息已获取"),
        },
    }
}

/// Permissions that the device-information demo asks for.
pub fn required_permissions() -> (names: Vec<String>)
    ensures
        names@.len() == 3,
        names@[0]@ == "android.permission.ACCESS_NETWORK_STATE"@,
        names@[1]@ == "android.permission.INTERNET"@,
        names@[2]@ == "android.permission.ACCESS_WIFI_STATE"@,
{
    let mut names: Vec<String> = Vec::new();
    names.push(String::from_str("android.permission.ACCESS_NETWORK_STATE"));
    names.push(String::from_str("android.permission.INTERNET"));
    names.push(String::from_str("android.permission.ACCESS_WIFI_STATE"));
    names
}

/// Whether permissions must be requested: some check, in order, found a
/// permission not granted. `granted` holds the answers of the checks made
/// so far.
pub fn permission_request_needed(granted: &[bool]) -> (needed: bool)
    ensures
        needed == (exists|i: int| 0 <= i < granted@.len() && !granted@[i]),
{
    let mut i: usize = 0;
    while i < granted.len()
        invariant
            0 <= i <= granted@.len(),
            forall|k: int| 0 <= k < i ==> granted@[k],
        decreases granted@.len() - i,
    {
        if !granted[i] {
            return true;
        }
        i = i + 1;
    }
    false
}

/// Status line after the desktop "save settings" button.
pub fn desktop_save_status(username: &str) -> (status: String)
    ensures
        status@ == "Desktop 模拟保存: 用户名="@ + username@,
{
    let mut status = String::from_str("Desktop 模拟保存: 用户名=");
    status.append(username);
    status
}

} // verus!
