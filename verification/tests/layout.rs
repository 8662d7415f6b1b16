use server_bootstrap::layout;

#[test]
fn bundled_runtime_is_preferred() {
    assert_eq!(
        layout::find_node_executable("C:\\app\\resources\\node.exe", true),
        "C:\\app\\resources\\node.exe"
    );
}

#[test]
fn system_runtime_is_the_fallback() {
    assert_eq!(layout::find_node_executable("C:\\app\\resources\\node.exe", false), "node");
    assert_eq!(layout::find_node_executable("", false), "node");
}

#[test]
fn data_root_prefers_roaming_then_local_then_current_directory() {
    let roaming = Some("C:\\Users\\a\\AppData\\Roaming".to_string());
    let local = Some("C:\\Users\\a\\AppData\\Local".to_string());
    assert_eq!(
        layout::app_data_root(roaming.clone(), local.clone()),
        "C:\\Users\\a\\AppData\\Roaming"
    );
    assert_eq!(layout::app_data_root(roaming, None), "C:\\Users\\a\\AppData\\Roaming");
    assert_eq!(layout::app_data_root(None, local), "C:\\Users\\a\\AppData\\Local");
    assert_eq!(layout::app_data_root(None, None), ".");
}

#[test]
fn names_are_fixed() {
    assert_eq!(layout::APP_DIR_NAME, "tour-analytics-dashboard");
    assert_eq!(layout::BUNDLE_FILE_NAME, "server-bundle.zip");
    assert_eq!(layout::SERVER_DIR_NAME, "server");
    assert_eq!(layout::ENTRY_POINT_NAME, "server.js");
    assert_eq!(layout::VERSION_MARKER_NAME, ".version");
    assert_eq!(layout::BUNDLED_RUNTIME_NAME, "node.exe");
    assert_eq!(layout::SYSTEM_RUNTIME, "node");
}

#[test]
fn server_address_is_loopback_on_the_fixed_port() {
    assert_eq!(layout::SERVER_PORT, 13210);
    assert_eq!(layout::SERVER_HOST, "127.0.0.1");
    assert_eq!(layout::server_port_text(), "13210");
    assert_eq!(layout::server_address(), "127.0.0.1:13210");
    assert_eq!(layout::server_url(), "http://127.0.0.1:13210");
}
