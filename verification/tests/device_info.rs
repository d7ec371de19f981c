use slint_demo::device_info::{
    android_battery_report, android_device_report, android_network_report, android_toast_text,
    desktop_battery_report, desktop_device_report, desktop_network_report, desktop_save_status,
    desktop_toast_text, handle_java_event, interface_address, is_wifi_interface, jni_error_text, panel_update,
    permission_request_needed, required_permissions, route_interface, AndroidNetwork,
    PlatformConsts, InfoRequest,
};

#[test]
fn android_battery_texts() {
    assert_eq!(android_battery_report(85, Some(2)), "Android 电池信息\n电量: 85%\n状态: 充电中");
    assert_eq!(android_battery_report(100, Some(5)), "Android 电池信息\n电量: 100%\n状态: 已充满");
    assert_eq!(android_battery_report(7, Some(3)), "Android 电池信息\n电量: 7%\n状态: 未充电");
    assert_eq!(android_battery_report(-1, None), "Android 电池信息\n电量: -1%\n状态: 未知");
}

#[test]
fn android_device_text() {
    assert_eq!(
        android_device_report("Pixel 8", "Google", "14", 34),
        "Android 设备信息\n型号: Pixel 8\n制造商: Google\n版本: 14 (API 34)"
    );
}

#[test]
fn android_network_texts() {
    assert_eq!(
        android_network_report(AndroidNetwork::NoActiveNetwork),
        "Android 网络信息\n状态: 无网络连接"
    );
    assert_eq!(
        android_network_report(AndroidNetwork::NotConnected),
        "Android 网络信息\n状态: 网络未连接"
    );
    assert_eq!(
        android_network_report(AndroidNetwork::Connected("WIFI".to_string())),
        "Android 网络信息\n类型: WiFi\n状态: 已连接"
    );
    assert_eq!(
        android_network_report(AndroidNetwork::Connected("MOBILE".to_string())),
        "Android 网络信息\n类型: 移动数据\n状态: 已连接"
    );
    assert_eq!(
        android_network_report(AndroidNetwork::Connected("ETHERNET".to_string())),
        "Android 网络信息\n类型: ETHERNET\n状态: 已连接"
    );
}

#[test]
fn toast_and_error_texts() {
    assert_eq!(android_toast_text(Ok("Hello from Slint!")), "Toast 已弹出: Hello from Slint!");
    assert_eq!(android_toast_text(Err("boom")), "Toast 失败: boom");
    assert_eq!(desktop_toast_text("Hello from Slint!"), "Toast 模拟: Hello from Slint!");
    assert_eq!(jni_error_text("no class"), "JNI 错误: no class");
    assert_eq!(desktop_save_status("alice"), "Desktop 模拟保存: 用户名=alice");
}

#[test]
fn desktop_battery_texts() {
    assert_eq!(
        desktop_battery_report(Some(" 57\n".to_string()), Some("Discharging\n".to_string())),
        "模拟电池信息 (Linux)\n电量: 57%\n状态: Discharging"
    );
    assert_eq!(
        desktop_battery_report(Some("57\n".to_string()), None),
        "模拟电池信息 (Linux)\n电量: 57%"
    );
    assert_eq!(
        desktop_battery_report(None, Some("Full".to_string())),
        "模拟电池信息 (Desktop)\n电量: 85%\n状态: 充电中\n注意: 真实电池信息需要在 Android 上运行"
    );
}

#[test]
fn desktop_device_texts() {
    let p = PlatformConsts {
        os: "linux".to_string(),
        arch: "x86_64".to_string(),
        family: "unix".to_string(),
    };
    assert_eq!(
        desktop_device_report("ThinkPad X1\n", " LENOVO \n", &p),
        "模拟 Android 设备信息 (Desktop)\n型号: ThinkPad X1\n制造商: LENOVO\n硬件: x86_64\n系统: linux (unix)\n架构: x86_64\n\n真实数据请在 Android 设备上运行"
    );
    assert_eq!(
        desktop_device_report(" \n", "LENOVO", &p),
        "模拟 Android 设备信息 (Desktop)\n型号: Unknown (Desktop)\n制造商: Rust Developer\n系统: linux (unix)\n架构: x86_64\n\n真实数据请在 Android 设备上运行"
    );
}

#[test]
fn route_and_address_parsing() {
    let route = "default via 192.168.1.1 dev wlp3s0 proto dhcp metric 600\n";
    assert_eq!(route_interface(route), "wlp3s0");
    assert_eq!(route_interface("default via 10.0.0.1"), "unknown");
    assert_eq!(route_interface("x dev"), "unknown");
    assert_eq!(route_interface(""), "unknown");
    assert!(is_wifi_interface("wlp3s0"));
    assert!(is_wifi_interface("wlan0"));
    assert!(!is_wifi_interface("eth0"));
    assert!(!is_wifi_interface("wl"));

    let addr = "2: eth0: <BROADCAST,MULTICAST,UP>\n    inet 10.1.2.3/24 brd 10.1.2.255 scope global\n    inet6 fe80::1/64";
    assert_eq!(interface_address(addr), "10.1.2.3");
    assert_eq!(interface_address("inet 10.0.0.9"), "10.0.0.9");
    assert_eq!(interface_address("no address here"), "无 IP");
}

#[test]
fn desktop_network_texts() {
    let route = "default via 10.0.0.1 dev eth0 proto static".to_string();
    let addr = "    inet 10.0.0.5/8 scope global eth0".to_string();
    assert_eq!(
        desktop_network_report(Some(route.clone()), Some(addr)),
        "模拟 Android 网络信息 (Desktop)\n类型: 以太网\n接口: eth0\nIP 地址: 10.0.0.5\n状态: 已连接\n\n真实数据请在 Android 设备上运行"
    );
    assert_eq!(
        desktop_network_report(Some("default dev wlan0".to_string()), None),
        "模拟 Android 网络信息 (Desktop)\n类型: WiFi\n接口: wlan0\nIP 地址: 未知\n状态: 已连接\n\n真实数据请在 Android 设备上运行"
    );
    assert_eq!(
        desktop_network_report(None, None),
        "模拟 Android 网络信息 (Desktop)\n类型: WiFi\n状态: 已连接\n\n真实数据请在 Android 设备上运行"
    );
}

#[test]
fn java_events() {
    let u = handle_java_event("toast", "Hello from Java!");
    assert_eq!(u.status_text.as_deref(), Some("Java→Rust: Toast 'Hello from Java!'"));
    assert_eq!(u.device_info.as_deref(), Some("收到 Java 事件: toast = Hello from Java!"));
    assert!(u.battery_info.is_none());

    let u = handle_java_event("battery", "42");
    assert_eq!(u.status_text.as_deref(), Some("收到 Java 电池推送"));
    assert_eq!(u.battery_info.as_deref(), Some("Java 推送电量: 42"));
    assert!(u.device_info.is_none());

    let u = handle_java_event("other", "x");
    assert_eq!(u.status_text.as_deref(), Some("Java→Rust 未知事件: other"));
    assert!(u.device_info.is_none() && u.battery_info.is_none());
}

#[test]
fn permissions() {
    let names = required_permissions();
    assert_eq!(
        names,
        vec![
            "android.permission.ACCESS_NETWORK_STATE",
            "android.permission.INTERNET",
            "android.permission.ACCESS_WIFI_STATE"
        ]
    );
    assert!(!permission_request_needed(&[true, true, true]));
    assert!(permission_request_needed(&[true, false]));
    assert!(!permission_request_needed(&[]));
}

#[test]
fn info_buttons_fill_their_own_panel() {
    let u = panel_update(InfoRequest::Device, "设备".to_string());
    assert_eq!(u.device_info.as_deref(), Some("设备"));
    assert!(u.battery_info.is_none() && u.network_info.is_none());
    assert_eq!(u.status_text, "设备信息已获取");
    let u = panel_update(InfoRequest::Battery, "电池".to_string());
    assert_eq!(u.battery_info.as_deref(), Some("电池"));
    assert!(u.device_info.is_none() && u.network_info.is_none());
    assert_eq!(u.status_text, "电池信息已获取");
    let u = panel_update(InfoRequest::Network, "网络".to_string());
    assert_eq!(u.network_info.as_deref(), Some("网络"));
    assert!(u.device_info.is_none() && u.battery_info.is_none());
    assert_eq!(u.status_text, "网络信息已获取");
}
