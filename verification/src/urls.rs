use vstd::prelude::*;

use crate::text::{decimal_string, same_text, starts_with, trim, trim_trailing_slashes};

verus! {

/// The WebSocket scheme that goes with a page protocol: `wss:` for
/// `https:`, `ws:` for anything else.
pub open spec fn ws_scheme(protocol: Seq<char>) -> Seq<char> {
    if protocol == "https:"@ {
        "wss:"@
    } else {
        "ws:"@
    }
}

/// The WebSocket address of room `room_id` for a page served with
/// `protocol` (such as `https:`) from `host` (such as `example.org:8443`).
pub fn ws_url(protocol: &str, host: &str, room_id: &str, role: &str) -> (url: String)
    ensures
        url@ == ws_scheme(protocol@) + "//"@ + host@ + "/ws/"@ + room_id@ + "?role="@ + role@,
{
    let scheme = if same_text(protocol, "https:") {
        "wss:"
    } else {
        "ws:"
    };
    let mut url = String::from_str(scheme);
    url.append("//");
    url.append(host);
    url.append("/ws/");
    url.append(room_id);
    url.append("?role=");
    url.append(role);
    url
}

/// The WebSocket address of room `room_id` on the local development server.
pub fn build_ws_url(room_id: &str, role: &str) -> (url: String)
    ensures
        url@ == "ws://localhost:8080/ws/"@ + room_id@ + "?role="@ + role@,
{
    let mut url = String::from_str("ws://localhost:8080/ws/");
    url.append(room_id);
    url.append("?role=");
    url.append(role);
    url
}

/// The address of the remote page of room `room_code` for a page served
/// with `protocol` from `host`.
pub fn remote_page_url(protocol: &str, host: &str, room_code: &str) -> (url: String)
    ensures
        url@ == protocol@ + "//"@ + host@ + "/remote/"@ + room_code@,
{
    let mut url = String::from_str(protocol);
    url.append("//");
    url.append(host);
    url.append("/remote/");
    url.append(room_code);
    url
}

/// How phones reach the server, as chosen in the pairing dialog.
#[derive(Debug, Clone, Copy, PartialEq, Eq, Structural)]
pub enum ConnectionMode {
    /// The local network, over HTTPS on port 8443.
    Wifi,
    /// A public tunnel.
    Internet,
    /// This computer only.
    Localhost,
}

/// The mode a tab name selects: `internet`, `localhost`, and Wi-Fi for
/// anything else.
pub open spec fn mode_named(name: Seq<char>) -> ConnectionMode {
    if name == "internet"@ {
        ConnectionMode::Internet
    } else if name == "localhost"@ {
        ConnectionMode::Localhost
    } else {
        ConnectionMode::Wifi
    }
}

/// The mode a tab name selects.
pub fn connection_mode(name: &str) -> (mode: ConnectionMode)
    ensures
        mode == mode_named(name@),
{
    if same_text(name, "internet") {
        ConnectionMode::Internet
    } else if same_text(name, "localhost") {
        ConnectionMode::Localhost
    } else {
        ConnectionMode::Wifi
    }
}

/// The address that the pairing dialog offers for room `room_code`.
///
/// - Internet: the tunnel typed by the user (white space trimmed, trailing
///   slashes dropped, `https://` added unless it names `http://` or
///   `https://`), else the public address of the server (trailing slashes
///   dropped), else `remote_url`.
/// - Localhost: `http://localhost:8080/remote/<room>`.
/// - Wi-Fi: `https://<local ip>:8443/remote/<room>`, with `localhost` for
///   an unknown or loopback address.
pub open spec fn pairing_address(
    mode: ConnectionMode,
    tunnel_input: Seq<char>,
    public_url: Option<Seq<char>>,
    remote_url: Seq<char>,
    local_ip: Seq<char>,
    room_code: Seq<char>,
) -> Seq<char> {
    match mode {
        ConnectionMode::Internet => {
            let typed = crate::text::trimmed(tunnel_input);
            if typed.len() > 0 {
                let base = crate::text::without_trailing(typed, '/');
                if crate::text::has_prefix(base, "http://"@) || crate::text::has_prefix(base, "https://"@) {
                    base + "/remote/"@ + room_code
                } else {
                    "https://"@ + base + "/remote/"@ + room_code
                }
            } else {
                match public_url {
                    Some(public) => crate::text::without_trailing(public, '/') + "/remote/"@ + room_code,
                    None => remote_url,
                }
            }
        },
        ConnectionMode::Localhost => "http://localhost:8080/remote/"@ + room_code,
        ConnectionMode::Wifi => {
            let host = if local_ip.len() == 0 || local_ip == "127.0.0.1"@ {
                "localhost"@
            } else {
                local_ip
            };
            "https://"@ + host + ":8443/remote/"@ + room_code
        },
    }
}

/// The address that the pairing dialog offers; see [`pairing_address`].
pub fn pairing_url(
    mode: ConnectionMode,
    tunnel_input: &str,
    public_url: Option<&str>,
    remote_url: &str,
    local_ip: &str,
    room_code: &str,
) -> (url: String)
    ensures
        url@ == pairing_address(
            mode,
            tunnel_input@,
            match public_url {
                Some(p) => Some(p@),
                None => None,
            },
            remote_url@,
            local_ip@,
            room_code@,
        ),
{
    match mode {
        ConnectionMode::Internet => {
            let typed = trim(tunnel_input);
            if !typed.is_empty() {
                let base = trim_trailing_slashes(typed);
                if starts_with(base, "http://") || starts_with(base, "https://") {
                    let mut url = String::from_str(base);
                    url.append("/remote/");
                    url.append(room_code);
                    url
                } else {
                    let mut url = String::from_str("https://");
                    url.append(base);
                    url.append("/remote/");
                    url.append(room_code);
                    url
                }
            } else {
                match public_url {
                    Some(public) => {
                        let mut url = String::from_str(trim_trailing_slashes(public));
                        url.append("/remote/");
                        url.append(room_code);
                        url
                    },
                    None => String::from_str(remote_url),
                }
            }
        },
        ConnectionMode::Localhost => {
            let mut url = String::from_str("http://localhost:8080/remote/");
            url.append(room_code);
            url
        },
        ConnectionMode::Wifi => {
            let host = if local_ip.is_empty() || same_text(local_ip, "127.0.0.1") {
                "localhost"
            } else {
                local_ip
            };
            let mut url = String::from_str("https://");
            url.append(host);
            url.append(":8443/remote/");
            url.append(room_code);
            url
        },
    }
}

/// What a screen learns from the server's self-description.
#[derive(Debug, Clone, PartialEq)]
pub struct ServerInfoUpdate {
    /// The server's address on the local network, when it has a usable one.
    pub local_ip: Option<String>,
    /// The server's public address, when it has one.
    pub public_url: Option<String>,
    /// The new pairing address, when the information gives one.
    pub pairing_url: Option<String>,
}

/// The server's LAN address is usable unless it is empty or the loopback
/// address.
pub open spec fn usable_ip(ip: Seq<char>) -> bool {
    ip.len() > 0 && ip != "127.0.0.1"@
}

/// What a screen takes from the server's self-description: the LAN address
/// (unless empty or loopback) gives `https://<ip>:<port>/remote/<room>`
/// with port 8443 unless the server names another, and a non-empty public
/// address gives `<public>/remote/<room>` (trailing slashes dropped), which
/// wins over the LAN address.
pub fn server_info_update(
    local_ip: Option<&str>,
    https_port: Option<u64>,
    public_url: Option<&str>,
    room_code: &str,
) -> (update: ServerInfoUpdate)
    ensures
        match local_ip {
            Some(ip) if usable_ip(ip@) => update.local_ip matches Some(kept) && kept@ == ip@,
            _ => update.local_ip is None,
        },
        match public_url {
            Some(public) if public@.len() > 0 => update.public_url matches Some(kept) && kept@
                == public@,
            _ => update.public_url is None,
        },
        match (local_ip, public_url) {
            (_, Some(public)) if public@.len() > 0 => update.pairing_url matches Some(url) && url@
                == crate::text::without_trailing(public@, '/') + "/remote/"@ + room_code@,
            (Some(ip), _) if usable_ip(ip@) => update.pairing_url matches Some(url) && url@
                == "https://"@ + ip@ + ":"@ + crate::text::decimal(
                match https_port {
                    Some(port) => port as nat,
                    None => 8443nat,
                },
            ) + "/remote/"@ + room_code@,
            _ => update.pairing_url is None,
        },
{
    let mut update = ServerInfoUpdate { local_ip: None, public_url: None, pairing_url: None };
    if let Some(ip) = local_ip {
        if !ip.is_empty() && !same_text(ip, "127.0.0.1") {
            let port = match https_port {
                Some(port) => port,
                None => 8443,
            };
            let mut url = String::from_str("https://");
            url.append(ip);
            url.append(":");
            url.append(decimal_string(port).as_str());
            url.append("/remote/");
            url.append(room_code);
            update.local_ip = Some(String::from_str(ip));
            update.pairing_url = Some(url);
        }
    }
    if let Some(public) = public_url {
        if !public.is_empty() {
            let mut url = String::from_str(trim_trailing_slashes(public));
            url.append("/remote/");
            url.append(room_code);
            update.public_url = Some(String::from_str(public));
            update.pairing_url = Some(url);
        }
    }
    update
}

} // verus!
