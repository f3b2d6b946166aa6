use aether::preset::{dirs, PathParts, Preset, PresetStore};

fn names(store: &PresetStore) -> Vec<String> {
    store.presets.iter().map(|p| p.name.clone()).collect()
}

fn custom(name: &str) -> Preset {
    let mut p = Preset::default();
    p.name = name.to_string();
    p
}

#[test]
fn built_in_has_four_presets_in_order() {
    let b = PresetStore::built_in();
    let got: Vec<&str> = b.iter().map(|p| p.name.as_str()).collect();
    assert_eq!(got, vec!["Default MASQUE", "Fast WireGuard", "Stealth MASQUE", "WARP-in-WARP"]);
    assert_eq!(b[1].protocol, "wg");
    assert_eq!(b[1].scan_mode, "turbo");
    assert_eq!(b[1].wg_obfuscation, "light");
    assert_eq!(b[2].ip_version, "both");
    assert_eq!(b[2].masque_obfuscation, "gfw");
    assert_eq!(b[2].ech, "auto");
    assert_eq!(b[3].protocol, "gool");
    for p in &b {
        assert_eq!(p.bind, "127.0.0.1:1819");
        assert_eq!(p.peer, "");
        assert_eq!(p.config_path, "aether.toml");
        assert_eq!(p.wg_keepalive, 5);
        assert!(!p.wg_no_profile_retry);
        assert!(!p.verbose);
    }
}

#[test]
fn default_preset_values() {
    let p = Preset::default();
    assert_eq!(p.name, "Default");
    assert_eq!(p.protocol, "masq");
    assert_eq!(p.bind, "127.0.0.1:1819");
    assert_eq!(p.scan_mode, "balanced");
    assert_eq!(p.ip_version, "v4");
    assert_eq!(p.masque_obfuscation, "firewall");
    assert_eq!(p.wg_obfuscation, "balanced");
    assert_eq!(p.ech, "off");
    assert_eq!(p.peer, "");
    assert_eq!(p.config_path, "aether.toml");
    assert_eq!(p.wg_keepalive, 5);
}

#[test]
fn fresh_store_activates_default_masque() {
    let s = PresetStore::default();
    assert_eq!(s.active.as_deref(), Some("Default MASQUE"));
    assert_eq!(s.active_preset().name, "Default MASQUE");
    assert_eq!(s.presets.len(), 4);
}

#[test]
fn active_preset_follows_active_name() {
    let mut s = PresetStore::default();
    s.active = Some("Stealth MASQUE".to_string());
    assert_eq!(s.active_preset().name, "Stealth MASQUE");
}

#[test]
fn active_preset_falls_back_to_first() {
    let mut s = PresetStore::default();
    s.active = Some("nope".to_string());
    assert_eq!(s.active_preset().name, "Default MASQUE");
    s.active = None;
    assert_eq!(s.active_preset().name, "Default MASQUE");
}

#[test]
fn active_preset_picks_first_of_duplicates() {
    let mut a = custom("dup");
    a.scan_mode = "turbo".to_string();
    let mut b = custom("dup");
    b.scan_mode = "stealth".to_string();
    let s = PresetStore { presets: vec![custom("x"), a, b], active: Some("dup".to_string()) };
    assert_eq!(s.active_preset().scan_mode, "turbo");
}

#[test]
fn delete_removes_every_preset_of_the_name() {
    let mut s = PresetStore {
        presets: vec![custom("a"), custom("b"), custom("a"), custom("c")],
        active: Some("c".to_string()),
    };
    assert!(s.delete("a"));
    assert_eq!(names(&s), vec!["b", "c"]);
    assert_eq!(s.active.as_deref(), Some("c"));
}

#[test]
fn delete_absent_name_changes_nothing() {
    let mut s = PresetStore::default();
    assert!(!s.delete("missing"));
    assert_eq!(names(&s).len(), 4);
    assert_eq!(s.active.as_deref(), Some("Default MASQUE"));
}

#[test]
fn delete_twice_second_is_noop() {
    let mut s = PresetStore::default();
    assert!(s.delete("Fast WireGuard"));
    let after_once = names(&s);
    assert!(!s.delete("Fast WireGuard"));
    assert_eq!(names(&s), after_once);
}

#[test]
fn delete_active_moves_active_to_first_remaining() {
    let mut s = PresetStore::default();
    assert!(s.delete("Default MASQUE"));
    assert_eq!(s.active.as_deref(), Some("Fast WireGuard"));
    assert_eq!(s.active_preset().name, "Fast WireGuard");
}

#[test]
fn delete_last_preset_clears_active() {
    let mut s = PresetStore { presets: vec![custom("only")], active: Some("only".to_string()) };
    assert!(s.delete("only"));
    assert!(s.presets.is_empty());
    assert_eq!(s.active, None);
}

#[test]
fn delete_absent_keeps_dangling_active() {
    let mut s = PresetStore { presets: vec![custom("a")], active: Some("gone".to_string()) };
    assert!(!s.delete("gone"));
    assert_eq!(s.active.as_deref(), Some("gone"));
}

fn parts(p: &PathParts) -> (String, Vec<String>) {
    (p.base.clone(), p.components.clone())
}

fn expect(base: &str, comps: &[&str]) -> (String, Vec<String>) {
    (base.to_string(), comps.iter().map(|c| c.to_string()).collect())
}

#[test]
fn config_path_prefers_xdg() {
    let p = PresetStore::config_path(Some("/x/cfg"), Some("/home/u"), Some("C:/AppData"));
    assert_eq!(parts(&p), expect("/x/cfg", &["aether", "presets.toml"]));
}

#[test]
fn config_path_uses_home_then_appdata() {
    assert_eq!(
        parts(&PresetStore::config_path(None, Some("/home/u"), None)),
        expect("/home/u", &[".config", "aether", "presets.toml"])
    );
    assert_eq!(
        parts(&PresetStore::config_path(None, None, Some("D:\\Roaming"))),
        expect("D:\\Roaming", &["aether", "presets.toml"])
    );
    assert_eq!(parts(&PresetStore::config_path(None, None, None)), expect("aether", &["presets.toml"]));
}

#[test]
fn config_path_with_empty_xdg() {
    assert_eq!(
        parts(&PresetStore::config_path(Some(""), Some("/home/u"), None)),
        expect("", &["aether", "presets.toml"])
    );
}

#[test]
fn dirs_always_finds_a_directory() {
    assert_eq!(parts(&dirs(None, Some("/h"), Some("/a")).unwrap()), expect("/h", &[".config", "aether"]));
    assert_eq!(parts(&dirs(None, None, None).unwrap()), expect("aether", &[]));
    assert_eq!(parts(&dirs(Some("\\\\?\\C:\\cfg"), None, None).unwrap()), expect("\\\\?\\C:\\cfg", &["aether"]));
}

#[test]
fn load_keeps_parsed_store_or_starts_fresh() {
    let parsed = PresetStore { presets: vec![custom("mine")], active: None };
    let s = PresetStore::load(Some(parsed));
    assert_eq!(names(&s), vec!["mine"]);
    assert_eq!(s.active, None);
    let fresh = PresetStore::load(None);
    assert_eq!(names(&fresh).len(), 4);
    assert_eq!(fresh.active.as_deref(), Some("Default MASQUE"));
}

#[test]
fn preset_clone_is_equal() {
    let mut p = custom("c");
    p.peer = "1.2.3.4:443".to_string();
    p.verbose = true;
    let q = p.clone();
    assert_eq!(q.name, "c");
    assert_eq!(q.peer, "1.2.3.4:443");
    assert!(q.verbose);
}
