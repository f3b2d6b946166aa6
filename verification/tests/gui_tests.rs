use aether::gui::{bind_check, lan_bind, tunnel_closing_line, tunnel_env_vars, tunnel_intro_lines, AetherGui, ButtonAction, LocalOptions, ProxyToggle, Status};
use aether::preset::{Preset, PresetStore};

fn gui() -> AetherGui {
    AetherGui::new(PresetStore::default())
}

fn strings(a: &[&str]) -> Vec<String> {
    a.iter().map(|s| s.to_string()).collect()
}

#[test]
fn new_window_edits_active_preset() {
    let g = gui();
    assert_eq!(g.selected_preset_name, "Default MASQUE");
    assert_eq!(g.editing.name, "Default MASQUE");
    assert!(matches!(g.status, Status::Idle));
    assert!(g.logs.is_empty());
    assert!(!g.tunnel_running);
}

#[test]
fn is_builtin_names() {
    let g = gui();
    for n in ["Default MASQUE", "Fast WireGuard", "Stealth MASQUE", "WARP-in-WARP"] {
        assert!(g.is_builtin(n));
    }
    assert!(!g.is_builtin("Default"));
    assert!(!g.is_builtin("default masque"));
    assert!(!g.is_builtin(""));
}

#[test]
fn connect_then_disconnect() {
    let mut g = gui();
    g.logs.push("old line".to_string());
    let p = g.connect();
    assert_eq!(p.name, "Default MASQUE");
    assert!(matches!(g.status, Status::Connecting));
    assert_eq!(g.logs, strings(&["[GUI] Starting..."]));
    assert!(g.tunnel_running);
    assert_eq!(g.button_action(), ButtonAction::Disconnect);
    assert_eq!(g.button_label(), "Disconnect");
    assert!(g.disconnect());
    assert!(matches!(g.status, Status::Idle));
    assert!(!g.tunnel_running);
    assert_eq!(g.logs, strings(&["[GUI] Starting...", "[GUI] Disconnected."]));
    assert_eq!(g.button_action(), ButtonAction::Connect);
    assert_eq!(g.button_label(), "Connect");
}

#[test]
fn disconnect_without_tunnel_sends_nothing() {
    let mut g = gui();
    assert!(!g.disconnect());
    assert_eq!(g.logs, strings(&["[GUI] Disconnected."]));
}

#[test]
fn button_for_each_status() {
    let mut g = gui();
    g.status = Status::Disconnecting;
    assert_eq!(g.button_action(), ButtonAction::Nothing);
    assert_eq!(g.button_label(), "Disconnecting...");
    g.status = Status::Error("boom".to_string());
    assert_eq!(g.button_action(), ButtonAction::Connect);
    assert_eq!(g.button_label(), "Connect");
    g.status = Status::Connected;
    assert_eq!(g.button_action(), ButtonAction::Disconnect);
}

#[test]
fn status_texts() {
    let mut g = gui();
    assert_eq!(g.status_text(0), "Ready");
    g.status = Status::Connecting;
    assert_eq!(g.status_text(0), "Connecting...");
    g.status = Status::Connected;
    assert_eq!(g.status_text(0), "Connected (00:00)");
    assert_eq!(g.status_text(65), "Connected (01:05)");
    assert_eq!(g.status_text(3599), "Connected (59:59)");
    assert_eq!(g.status_text(6000), "Connected (100:00)");
    g.status = Status::Disconnecting;
    assert_eq!(g.status_text(5), "Disconnecting...");
    g.status = Status::Error("no peer".to_string());
    assert_eq!(g.status_text(5), "Error: no peer");
}

#[test]
fn merge_logs_keeps_each_message_once() {
    let mut g = gui();
    g.logs = strings(&["a"]);
    let incoming = strings(&["b", "a", "c", "b"]);
    g.merge_logs(&incoming);
    assert_eq!(g.logs, strings(&["a", "b", "c"]));
    g.merge_logs(&incoming);
    assert_eq!(g.logs, strings(&["a", "b", "c"]));
}

#[test]
fn select_preset_edits_first_match() {
    let mut g = gui();
    g.select_preset("Fast WireGuard");
    assert_eq!(g.selected_preset_name, "Fast WireGuard");
    assert_eq!(g.editing.protocol, "wg");
    g.select_preset("unknown");
    assert_eq!(g.selected_preset_name, "unknown");
    assert_eq!(g.editing.name, "Fast WireGuard");
}

#[test]
fn create_preset_copies_edited_settings() {
    let mut g = gui();
    g.open_new_preset_dialog();
    assert!(g.show_new_preset_dialog);
    assert!(g.new_preset_name.is_empty());
    assert!(!g.create_preset());
    assert_eq!(g.preset_store.presets.len(), 4);
    g.editing.scan_mode = "stealth".to_string();
    g.new_preset_name = "Mine".to_string();
    assert!(g.create_preset());
    assert_eq!(g.preset_store.presets.len(), 5);
    let added = &g.preset_store.presets[4];
    assert_eq!(added.name, "Mine");
    assert_eq!(added.scan_mode, "stealth");
    assert_eq!(g.selected_preset_name, "Mine");
    assert!(!g.show_new_preset_dialog);
    assert_eq!(g.editing.name, "Default MASQUE");
}

#[test]
fn builtin_preset_cannot_be_requested_for_deletion() {
    let mut g = gui();
    assert!(!g.request_delete("Stealth MASQUE"));
    assert!(!g.show_delete_confirm);
    assert!(g.delete_target.is_empty());
}

#[test]
fn confirm_delete_selects_new_active() {
    let mut g = gui();
    let mut mine = Preset::default();
    mine.name = "Mine".to_string();
    g.preset_store.presets.insert(0, mine);
    g.preset_store.active = Some("Mine".to_string());
    assert!(g.request_delete("Mine"));
    assert!(g.show_delete_confirm);
    assert_eq!(g.delete_target, "Mine");
    assert!(g.can_confirm_delete());
    g.confirm_delete();
    assert_eq!(g.preset_store.presets.len(), 4);
    assert_eq!(g.preset_store.active.as_deref(), Some("Default MASQUE"));
    assert_eq!(g.selected_preset_name, "Default MASQUE");
    assert_eq!(g.editing.name, "Default MASQUE");
    assert!(!g.show_delete_confirm);
}

#[test]
fn cannot_confirm_delete_of_only_name() {
    let mut only = Preset::default();
    only.name = "solo".to_string();
    let mut g = AetherGui::new(PresetStore { presets: vec![only], active: None });
    assert!(g.request_delete("solo"));
    assert!(!g.can_confirm_delete());
}

#[test]
fn lan_bind_replaces_loopback() {
    assert_eq!(lan_bind("127.0.0.1:1819"), "0.0.0.0:1819");
    assert_eq!(lan_bind("0.0.0.0:1819"), "0.0.0.0:1819");
    assert_eq!(lan_bind("127.0.0.1127.0.0.1"), "0.0.0.00.0.0.0");
    assert_eq!(lan_bind("127.0.0.2:1"), "127.0.0.2:1");
    assert_eq!(lan_bind(""), "");
}

#[test]
fn apply_lan_setting_only_when_on() {
    let mut g = gui();
    g.apply_lan_setting();
    assert_eq!(g.editing.bind, "127.0.0.1:1819");
    g.options.allow_lan = true;
    g.apply_lan_setting();
    assert_eq!(g.editing.bind, "0.0.0.0:1819");
}

#[test]
fn tunnel_env_for_shipped_default() {
    let p = Preset::default();
    let env = tunnel_env_vars(&p);
    let want: Vec<(String, String)> = vec![
        ("AETHER_SOCKS", "127.0.0.1:1819"),
        ("AETHER_PROTOCOL", "masq"),
        ("AETHER_SCAN", "balanced"),
        ("AETHER_IP", "v4"),
        ("AETHER_NOIZE", "firewall"),
        ("AETHER_CONFIG", "aether.toml"),
        ("AETHER_WG_KEEPALIVE", "5"),
    ]
    .into_iter()
    .map(|(k, v)| (k.to_string(), v.to_string()))
    .collect();
    assert_eq!(env, want);
}

#[test]
fn tunnel_env_optional_entries() {
    let mut p = Preset::default();
    p.peer = "1.1.1.1:2408".to_string();
    p.ech = "auto".to_string();
    p.wg_keepalive = 120;
    p.wg_no_profile_retry = true;
    p.verbose = true;
    let env = tunnel_env_vars(&p);
    let keys: Vec<&str> = env.iter().map(|(k, _)| k.as_str()).collect();
    assert_eq!(
        keys,
        vec![
            "AETHER_SOCKS",
            "AETHER_PROTOCOL",
            "AETHER_SCAN",
            "AETHER_IP",
            "AETHER_NOIZE",
            "AETHER_CONFIG",
            "AETHER_PEER",
            "AETHER_ECH",
            "AETHER_WG_KEEPALIVE",
            "AETHER_WG_NO_PROFILE_RETRY",
            "RUST_LOG",
        ]
    );
    assert_eq!(env[6].1, "1.1.1.1:2408");
    assert_eq!(env[7].1, "auto");
    assert_eq!(env[8].1, "120");
    assert_eq!(env[9].1, "1");
    assert_eq!(env[10].1, "debug");
}

#[test]
fn tunnel_intro_modes() {
    let p = Preset::default();
    let mut o = LocalOptions::default();
    assert_eq!(
        tunnel_intro_lines(&p, &o),
        strings(&["[GUI] Protocol: masq", "[GUI] Mode: HTTP+SOCKS5 on 127.0.0.1:1819"])
    );
    o.auth_enabled = true;
    o.allow_lan = true;
    assert_eq!(
        tunnel_intro_lines(&p, &o)[1],
        "[GUI] Mode: HTTP+SOCKS5 on 127.0.0.1:1819 (auth enabled) (LAN)"
    );
    o.tun_mode = true;
    assert_eq!(tunnel_intro_lines(&p, &o)[1], "[GUI] Mode: TUN");
}

#[test]
fn proxy_toggle_decisions() {
    let mut g = gui();
    g.options.system_proxy = true;
    assert_eq!(g.proxy_toggle_action(true), ProxyToggle::Enable);
    assert_eq!(g.proxy_toggle_action(false), ProxyToggle::Nothing);
    g.options.system_proxy = false;
    assert_eq!(g.proxy_toggle_action(true), ProxyToggle::Disable);
    assert_eq!(g.proxy_toggle_action(false), ProxyToggle::Disable);
}

#[test]
fn bad_bind_stops_the_tunnel() {
    assert_eq!(bind_check(None), None);
    assert_eq!(
        bind_check(Some("invalid socket address syntax")),
        Some("[GUI] Bad bind: invalid socket address syntax".to_string())
    );
}

#[test]
fn tunnel_closing_lines() {
    assert_eq!(tunnel_closing_line(&Ok(())), "[GUI] Tunnel closed.");
    assert_eq!(tunnel_closing_line(&Err("peer unreachable".to_string())), "[GUI] Error: peer unreachable");
}

#[test]
fn colours_and_switch_caption() {
    let mut g = gui();
    assert_eq!(g.status_color(), (160, 160, 160));
    assert_eq!(g.button_color(), (50, 160, 50));
    g.status = Status::Connecting;
    assert_eq!(g.status_color(), (220, 180, 50));
    assert_eq!(g.button_color(), (180, 50, 50));
    g.status = Status::Connected;
    assert_eq!(g.status_color(), (60, 200, 60));
    g.status = Status::Disconnecting;
    assert_eq!(g.status_color(), (220, 150, 50));
    assert_eq!(g.button_color(), (150, 120, 50));
    g.status = Status::Error("x".to_string());
    assert_eq!(g.status_color(), (220, 60, 60));
    assert_eq!(g.button_color(), (50, 160, 50));
    assert_eq!(g.proxy_switch_caption(), "System Proxy: OFF");
    assert_eq!(g.proxy_switch_color(), (160, 160, 160));
    g.options.system_proxy = true;
    assert_eq!(g.proxy_switch_caption(), "System Proxy: ON");
    assert_eq!(g.proxy_switch_color(), (60, 180, 60));
}
