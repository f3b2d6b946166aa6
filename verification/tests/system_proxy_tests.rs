use aether::system_proxy::{clear_proxy, first_step, macos_service, set_proxy, start_failure, step_after, Host, PlanStep, ProxyCommand};

fn words(c: &ProxyCommand) -> Vec<String> {
    let mut v = vec![c.program.clone()];
    v.extend(c.args.iter().cloned());
    v
}

fn line(c: &ProxyCommand) -> String {
    words(c).join(" ")
}

#[test]
fn linux_set_with_both_desktops() {
    let plan = set_proxy(&Host::Linux { gnome: true, kde: true }, "127.0.0.1", 1819, "127.0.0.1:1819").unwrap();
    assert_eq!(plan.commands.len(), 17);
    assert_eq!(line(&plan.commands[0]), "gsettings set org.gnome.system.proxy mode manual");
    assert_eq!(line(&plan.commands[2]), "gsettings set org.gnome.system.proxy.http port 1819");
    assert_eq!(line(&plan.commands[5]), "gsettings set org.gnome.system.proxy.socks host 127.0.0.1");
    assert_eq!(line(&plan.commands[7]), "kwriteconfig5 KDE HttpProxyEnabled true");
    assert_eq!(line(&plan.commands[15]), "kwriteconfig5 KDE SocksPort 1819");
    assert_eq!(plan.commands[16].program, "dbus-send");
    assert_eq!(plan.commands[16].args.last().unwrap(), "string:''");
    assert!(!plan.stop_on_failure);
    assert!(!plan.refresh_internet_settings);
    let names: Vec<&str> = plan.set_env.iter().map(|(k, _)| k.as_str()).collect();
    assert_eq!(names, vec!["http_proxy", "https_proxy", "HTTP_PROXY", "HTTPS_PROXY", "ALL_PROXY"]);
    assert!(plan.set_env.iter().all(|(_, v)| v == "http://127.0.0.1:1819"));
    assert!(plan.remove_env.is_empty());
}

#[test]
fn linux_set_without_desktops_only_sets_env() {
    let plan = set_proxy(&Host::Linux { gnome: false, kde: false }, "::1", 8080, "[::1]:8080").unwrap();
    assert!(plan.commands.is_empty());
    assert_eq!(plan.set_env.len(), 5);
    assert_eq!(plan.set_env[0].1, "http://[::1]:8080");
}

#[test]
fn linux_clear_removes_what_set_sets() {
    let host = Host::Linux { gnome: true, kde: false };
    let on = set_proxy(&host, "1.2.3.4", 1, "1.2.3.4:1").unwrap();
    let off = clear_proxy(&host).unwrap();
    let set_names: Vec<String> = on.set_env.iter().map(|(k, _)| k.clone()).collect();
    assert_eq!(set_names, off.remove_env);
    assert_eq!(off.commands.len(), 1);
    assert_eq!(line(&off.commands[0]), "gsettings set org.gnome.system.proxy mode none");
    let kde_off = clear_proxy(&Host::Linux { gnome: false, kde: true }).unwrap();
    assert_eq!(kde_off.commands.len(), 3);
    assert_eq!(line(&kde_off.commands[1]), "kwriteconfig5 KDE HttpsProxyEnabled false");
}

#[test]
fn macos_plans_use_second_listing_line() {
    let listing = "An asterisk (*) denotes that a network service is disabled.\nUSB LAN\nWi-Fi\n".to_string();
    let host = Host::MacOs { services: Ok(listing) };
    let on = set_proxy(&host, "127.0.0.1", 1819, "127.0.0.1:1819").unwrap();
    assert_eq!(on.commands.len(), 3);
    assert_eq!(words(&on.commands[0]), vec!["networksetup", "-setwebproxy", "USB LAN", "127.0.0.1", "1819"]);
    assert_eq!(on.commands[2].args[0], "-setsocksfirewallproxy");
    assert!(on.stop_on_failure);
    let off = clear_proxy(&host).unwrap();
    assert_eq!(words(&off.commands[1]), vec!["networksetup", "-setsecurewebproxystate", "USB LAN", "off"]);
}

#[test]
fn macos_listing_failure_is_an_error() {
    let host = Host::MacOs { services: Err("No such file or directory (os error 2)".to_string()) };
    assert_eq!(
        set_proxy(&host, "1.1.1.1", 1, "1.1.1.1:1").unwrap_err(),
        "failed to run networksetup: No such file or directory (os error 2)"
    );
    assert_eq!(
        clear_proxy(&host).unwrap_err(),
        "failed to run networksetup: No such file or directory (os error 2)"
    );
}

#[test]
fn macos_service_choice() {
    assert_eq!(macos_service("note\nEthernet\nWi-Fi"), "Ethernet");
    assert_eq!(macos_service("note\r\nEthernet\r\nWi-Fi\r\n"), "Ethernet");
    assert_eq!(macos_service("note\nLast"), "Last");
    assert_eq!(macos_service("note\n"), "Wi-Fi");
    assert_eq!(macos_service("note"), "Wi-Fi");
    assert_eq!(macos_service(""), "Wi-Fi");
    assert_eq!(macos_service("note\n\nX"), "");
    assert_eq!(macos_service("note\nEnds with cr\r"), "Ends with cr\r");
}

#[test]
fn windows_plans() {
    let on = set_proxy(&Host::Windows, "127.0.0.1", 1819, "127.0.0.1:1819").unwrap();
    assert_eq!(on.commands.len(), 3);
    let key = "HKCU\\Software\\Microsoft\\Windows\\CurrentVersion\\Internet Settings";
    assert_eq!(words(&on.commands[0]), vec!["reg", "add", key, "/v", "ProxyEnable", "/t", "REG_DWORD", "/d", "1", "/f"]);
    assert_eq!(on.commands[1].args[7], "http://127.0.0.1:1819");
    assert!(on.commands[2].args[7].starts_with("localhost;127.*;10.*;172.16.*"));
    assert!(on.commands[2].args[7].ends_with("192.168.*;<local>"));
    assert!(on.refresh_internet_settings);
    assert!(on.stop_on_failure);
    let off = clear_proxy(&Host::Windows).unwrap();
    assert_eq!(off.commands.len(), 1);
    assert_eq!(off.commands[0].args[7], "0");
    assert!(off.refresh_internet_settings);
}

#[test]
fn unsupported_platform_errors() {
    assert_eq!(clear_proxy(&Host::Other).unwrap_err(), "system proxy not supported on this platform");
    assert_eq!(
        set_proxy(&Host::Other, "127.0.0.1", 1819, "127.0.0.1:1819").unwrap_err(),
        "system proxy not supported on this platform"
    );
}

#[test]
fn start_failure_message() {
    assert_eq!(start_failure("reg", "denied"), "failed to run reg: denied");
}

#[test]
fn carrying_out_a_plan_step_by_step() {
    let strict = set_proxy(&Host::Windows, "127.0.0.1", 1819, "127.0.0.1:1819").unwrap();
    assert!(matches!(first_step(&strict), PlanStep::RunCommand(0)));
    assert!(matches!(step_after(&strict, 0, None), PlanStep::RunCommand(1)));
    assert!(matches!(step_after(&strict, 2, None), PlanStep::Finish));
    match step_after(&strict, 1, Some("access denied")) {
        PlanStep::Fail(m) => assert_eq!(m, "failed to run reg: access denied"),
        _ => panic!("a strict plan stops at a command that cannot be started"),
    }
    let lenient = set_proxy(&Host::Linux { gnome: true, kde: false }, "127.0.0.1", 1819, "127.0.0.1:1819").unwrap();
    assert!(matches!(step_after(&lenient, 0, Some("not found")), PlanStep::RunCommand(1)));
    assert!(matches!(step_after(&lenient, 6, Some("not found")), PlanStep::Finish));
    let empty = set_proxy(&Host::Linux { gnome: false, kde: false }, "127.0.0.1", 1819, "127.0.0.1:1819").unwrap();
    assert!(matches!(first_step(&empty), PlanStep::Finish));
}
