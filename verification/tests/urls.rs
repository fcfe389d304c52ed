use rustwii::urls::{build_ws_url, connection_mode, pairing_url, remote_page_url, server_info_update, ws_url, ConnectionMode};

#[test]
fn test_build_ws_url_format() {
    let url = build_ws_url("ROOM123", "remote");
    assert!(url.contains("/ws/ROOM123?role=remote"));
}

#[test]
fn local_ws_url_is_exact() {
    assert_eq!(build_ws_url("WII-001", "screen"), "ws://localhost:8080/ws/WII-001?role=screen");
}

#[test]
fn ws_url_follows_page_protocol() {
    assert_eq!(ws_url("https:", "10.0.0.2:8443", "R", "remote"), "wss://10.0.0.2:8443/ws/R?role=remote");
    assert_eq!(ws_url("http:", "localhost:8080", "R", "screen"), "ws://localhost:8080/ws/R?role=screen");
}

#[test]
fn remote_page_url_is_exact() {
    assert_eq!(remote_page_url("http:", "localhost:8080", "WII-001"), "http://localhost:8080/remote/WII-001");
}

#[test]
fn tab_names_select_modes() {
    assert_eq!(connection_mode("internet"), ConnectionMode::Internet);
    assert_eq!(connection_mode("localhost"), ConnectionMode::Localhost);
    assert_eq!(connection_mode("wifi"), ConnectionMode::Wifi);
    assert_eq!(connection_mode("anything"), ConnectionMode::Wifi);
}

#[test]
fn wifi_pairing_uses_lan_address() {
    assert_eq!(
        pairing_url(ConnectionMode::Wifi, "", None, "x", "192.168.0.7", "WII-001"),
        "https://192.168.0.7:8443/remote/WII-001"
    );
    assert_eq!(
        pairing_url(ConnectionMode::Wifi, "", None, "x", "127.0.0.1", "WII-001"),
        "https://localhost:8443/remote/WII-001"
    );
    assert_eq!(pairing_url(ConnectionMode::Wifi, "", None, "x", "", "R"), "https://localhost:8443/remote/R");
}

#[test]
fn localhost_pairing() {
    assert_eq!(
        pairing_url(ConnectionMode::Localhost, "tunnel", Some("https://p"), "x", "1.2.3.4", "R"),
        "http://localhost:8080/remote/R"
    );
}

#[test]
fn internet_pairing_prefers_typed_tunnel() {
    assert_eq!(
        pairing_url(ConnectionMode::Internet, "  my.tunnel.dev//  ", Some("https://pub"), "x", "", "R"),
        "https://my.tunnel.dev/remote/R"
    );
    assert_eq!(
        pairing_url(ConnectionMode::Internet, "http://t.dev/", None, "x", "", "R"),
        "http://t.dev/remote/R"
    );
    assert_eq!(
        pairing_url(ConnectionMode::Internet, "https://t.dev", None, "x", "", "R"),
        "https://t.dev/remote/R"
    );
}

#[test]
fn internet_pairing_falls_back() {
    assert_eq!(
        pairing_url(ConnectionMode::Internet, " \t ", Some("https://pub.example/"), "x", "", "R"),
        "https://pub.example/remote/R"
    );
    assert_eq!(pairing_url(ConnectionMode::Internet, "", None, "http://fallback", "", "R"), "http://fallback");
}

#[test]
fn server_info_gives_lan_pairing() {
    let u = server_info_update(Some("192.168.1.5"), Some(8443), None, "WII-001");
    assert_eq!(u.local_ip.as_deref(), Some("192.168.1.5"));
    assert_eq!(u.public_url, None);
    assert_eq!(u.pairing_url.as_deref(), Some("https://192.168.1.5:8443/remote/WII-001"));
    let u = server_info_update(Some("10.0.0.1"), None, None, "R");
    assert_eq!(u.pairing_url.as_deref(), Some("https://10.0.0.1:8443/remote/R"));
    let u = server_info_update(Some("10.0.0.1"), Some(9), None, "R");
    assert_eq!(u.pairing_url.as_deref(), Some("https://10.0.0.1:9/remote/R"));
}

#[test]
fn server_info_ignores_loopback_and_prefers_public() {
    let u = server_info_update(Some("127.0.0.1"), Some(8443), None, "R");
    assert_eq!(u.local_ip, None);
    assert_eq!(u.pairing_url, None);
    let u = server_info_update(Some("10.0.0.1"), Some(8443), Some("https://pub.example//"), "R");
    assert_eq!(u.local_ip.as_deref(), Some("10.0.0.1"));
    assert_eq!(u.public_url.as_deref(), Some("https://pub.example//"));
    assert_eq!(u.pairing_url.as_deref(), Some("https://pub.example/remote/R"));
    let u = server_info_update(None, None, Some(""), "R");
    assert_eq!(u.public_url, None);
    assert_eq!(u.pairing_url, None);
}
