//! Plans for switching the desktop's proxy settings.

use vstd::prelude::*;

use crate::text::{
    concat2,
    decimal,
    decimal_string,
    find_char,
    find_first,
    lemma_find_char,
    lemma_find_first_at,
    owned,
    pair_views,
    views,
};

verus! {

/// A program to run with its arguments.
#[derive(Debug)]
pub struct ProxyCommand {
    pub program: String,
    pub args: Vec<String>,
}

/// A program and its arguments as character sequences.
#[verifier::ext_equal]
pub struct CommandView {
    pub program: Seq<char>,
    pub args: Seq<Seq<char>>,
}

impl View for ProxyCommand {
    type V = CommandView;

    open spec fn view(&self) -> CommandView {
        CommandView { program: self.program@, args: views(self.args@) }
    }
}

/// The command `program` with `args`.
pub open spec fn cmd(program: Seq<char>, args: Seq<Seq<char>>) -> CommandView {
    CommandView { program, args }
}

/// The views of a list of commands.
pub open spec fn cmd_views(v: Seq<ProxyCommand>) -> Seq<CommandView> {
    v.map_values(|c: ProxyCommand| c@)
}

/// What the caller found out about the machine before planning.
#[derive(Debug)]
pub enum Host {
    /// Linux, with whether `gsettings` (GNOME) and `kwriteconfig5` (KDE)
    /// could be started.
    Linux { gnome: bool, kde: bool },
    /// macOS, with what `networksetup -listallnetworkservices` printed, or
    /// why it could not be started.
    MacOs { services: Result<String, String> },
    /// Windows.
    Windows,
    /// A platform without support for a system proxy.
    Other,
}

/// The work that switches the system proxy: commands to run in order,
/// environment variables to set and to remove, and whether Windows must be
/// told that its Internet settings changed.
#[derive(Debug)]
pub struct ProxyPlan {
    pub commands: Vec<ProxyCommand>,
    /// A command that cannot be started ends the work with an error;
    /// otherwise such failures are ignored.
    pub stop_on_failure: bool,
    pub set_env: Vec<(String, String)>,
    pub remove_env: Vec<String>,
    pub refresh_internet_settings: bool,
}

/// A plan with its strings as character sequences.
#[verifier::ext_equal]
pub struct PlanView {
    pub commands: Seq<CommandView>,
    pub stop_on_failure: bool,
    pub set_env: Seq<(Seq<char>, Seq<char>)>,
    pub remove_env: Seq<Seq<char>>,
    pub refresh_internet_settings: bool,
}

impl View for ProxyPlan {
    type V = PlanView;

    open spec fn view(&self) -> PlanView {
        PlanView {
            commands: cmd_views(self.commands@),
            stop_on_failure: self.stop_on_failure,
            set_env: pair_views(self.set_env@),
            remove_env: views(self.remove_env@),
            refresh_internet_settings: self.refresh_internet_settings,
        }
    }
}

/// The error on a platform without support.
pub open spec fn unsupported_message() -> Seq<char> {
    "system proxy not supported on this platform"@
}

/// The variables that point programs started later at the proxy.
pub open spec fn proxy_env_names() -> Seq<Seq<char>> {
    seq!["http_proxy"@, "https_proxy"@, "HTTP_PROXY"@, "HTTPS_PROXY"@, "ALL_PROXY"@]
}

/// The URL of the proxy listening on `addr`.
pub open spec fn proxy_url(addr: Seq<char>) -> Seq<char> {
    "http://"@ + addr
}

/// Each proxy variable set to the URL of `addr`.
pub open spec fn proxy_env(addr: Seq<char>) -> Seq<(Seq<char>, Seq<char>)> {
    proxy_env_names().map_values(|n: Seq<char>| (n, proxy_url(addr)))
}

/// GNOME: manual mode, then host and port for HTTP, HTTPS and SOCKS.
pub open spec fn gnome_set(ip: Seq<char>, port: Seq<char>) -> Seq<CommandView> {
    seq![
        cmd("gsettings"@, seq!["set"@, "org.gnome.system.proxy"@, "mode"@, "manual"@]),
        cmd("gsettings"@, seq!["set"@, "org.gnome.system.proxy.http"@, "host"@, ip]),
        cmd("gsettings"@, seq!["set"@, "org.gnome.system.proxy.http"@, "port"@, port]),
        cmd("gsettings"@, seq!["set"@, "org.gnome.system.proxy.https"@, "host"@, ip]),
        cmd("gsettings"@, seq!["set"@, "org.gnome.system.proxy.https"@, "port"@, port]),
        cmd("gsettings"@, seq!["set"@, "org.gnome.system.proxy.socks"@, "host"@, ip]),
        cmd("gsettings"@, seq!["set"@, "org.gnome.system.proxy.socks"@, "port"@, port]),
    ]
}

/// KDE: each of HTTP, HTTPS and SOCKS enabled with host and port, then the
/// signal that makes KDE read its settings again.
pub open spec fn kde_set(ip: Seq<char>, port: Seq<char>) -> Seq<CommandView> {
    seq![
        cmd("kwriteconfig5"@, seq!["KDE"@, "HttpProxyEnabled"@, "true"@]),
        cmd("kwriteconfig5"@, seq!["KDE"@, "HttpProxy"@, ip]),
        cmd("kwriteconfig5"@, seq!["KDE"@, "HttpPort"@, port]),
        cmd("kwriteconfig5"@, seq!["KDE"@, "HttpsProxyEnabled"@, "true"@]),
        cmd("kwriteconfig5"@, seq!["KDE"@, "HttpsProxy"@, ip]),
        cmd("kwriteconfig5"@, seq!["KDE"@, "HttpsPort"@, port]),
        cmd("kwriteconfig5"@, seq!["KDE"@, "SocksProxyEnabled"@, "true"@]),
        cmd("kwriteconfig5"@, seq!["KDE"@, "SocksProxy"@, ip]),
        cmd("kwriteconfig5"@, seq!["KDE"@, "SocksPort"@, port]),
        cmd(
            "dbus-send"@,
            seq![
                "--session"@,
                "--type=signal"@,
                "--dest=org.kde.kioslave.net"@,
                "/KIO/Scheduler"@,
                "org.kde.KIOSlave.Scheduler.reparseConfiguration"@,
                "string:''"@,
            ],
        ),
    ]
}

/// GNOME: proxy mode off.
pub open spec fn gnome_clear() -> Seq<CommandView> {
    seq![cmd("gsettings"@, seq!["set"@, "org.gnome.system.proxy"@, "mode"@, "none"@])]
}

/// KDE: HTTP, HTTPS and SOCKS proxies disabled.
pub open spec fn kde_clear() -> Seq<CommandView> {
    seq![
        cmd("kwriteconfig5"@, seq!["KDE"@, "HttpProxyEnabled"@, "false"@]),
        cmd("kwriteconfig5"@, seq!["KDE"@, "HttpsProxyEnabled"@, "false"@]),
        cmd("kwriteconfig5"@, seq!["KDE"@, "SocksProxyEnabled"@, "false"@]),
    ]
}

/// The commands for the desktops found (GNOME first), from `gnome_part` and
/// `kde_part`.
pub open spec fn for_desktops(
    gnome: bool,
    kde: bool,
    gnome_part: Seq<CommandView>,
    kde_part: Seq<CommandView>,
) -> Seq<CommandView> {
    (if gnome {
        gnome_part
    } else {
        Seq::empty()
    }) + (if kde {
        kde_part
    } else {
        Seq::empty()
    })
}

/// The second line of `s` as `str::lines` splits it (at `\n`, dropping a
/// `\r` before the `\n`), if `s` has one.
pub open spec fn second_line(s: Seq<char>) -> Option<Seq<char>> {
    let k = find_char(s, '\n', 0);
    if k < 0 || k + 1 >= s.len() {
        None
    } else {
        let rest = s.skip(k + 1);
        let e = find_char(rest, '\n', 0);
        if e < 0 {
            Some(rest)
        } else {
            let line = rest.take(e);
            if line.len() > 0 && line.last() == '\r' {
                Some(line.drop_last())
            } else {
                Some(line)
            }
        }
    }
}

/// The network service to configure on macOS: the second line of the
/// service listing (its first line is a note), else `Wi-Fi`.
pub open spec fn service_name(listing: Seq<char>) -> Seq<char> {
    match second_line(listing) {
        Some(l) => l,
        None => "Wi-Fi"@,
    }
}

/// macOS: web, secure web and SOCKS proxy of `service` set to `ip` and `port`.
pub open spec fn macos_set(service: Seq<char>, ip: Seq<char>, port: Seq<char>) -> Seq<CommandView> {
    seq![
        cmd("networksetup"@, seq!["-setwebproxy"@, service, ip, port]),
        cmd("networksetup"@, seq!["-setsecurewebproxy"@, service, ip, port]),
        cmd("networksetup"@, seq!["-setsocksfirewallproxy"@, service, ip, port]),
    ]
}

/// macOS: web, secure web and SOCKS proxy of `service` turned off.
pub open spec fn macos_clear(service: Seq<char>) -> Seq<CommandView> {
    seq![
        cmd("networksetup"@, seq!["-setwebproxystate"@, service, "off"@]),
        cmd("networksetup"@, seq!["-setsecurewebproxystate"@, service, "off"@]),
        cmd("networksetup"@, seq!["-setsocksfirewallproxystate"@, service, "off"@]),
    ]
}

/// The registry key of the current user's Internet settings.
pub open spec fn internet_settings_key() -> Seq<char> {
    "HKCU\\Software\\Microsoft\\Windows\\CurrentVersion\\Internet Settings"@
}

/// The addresses that bypass the proxy on Windows: local names and the
/// private IPv4 ranges.
pub open spec fn bypass_list() -> Seq<char> {
    "localhost;127.*;10.*;172.16.*;172.17.*;172.18.*;172.19.*;172.20.*;172.21.*;172.22.*;172.23.*;172.24.*;172.25.*;172.26.*;172.27.*;172.28.*;172.29.*;172.30.*;172.31.*;192.168.*;<local>"@
}

/// A `reg add` of `value` of `kind` with `data` under the settings key.
pub open spec fn reg_add(value: Seq<char>, kind: Seq<char>, data: Seq<char>) -> CommandView {
    cmd(
        "reg"@,
        seq![
            "add"@,
            internet_settings_key(),
            "/v"@,
            value,
            "/t"@,
            kind,
            "/d"@,
            data,
            "/f"@,
        ],
    )
}

/// Windows: proxy enabled, server set to `url`, bypass list set.
pub open spec fn windows_set(url: Seq<char>) -> Seq<CommandView> {
    seq![
        reg_add("ProxyEnable"@, "REG_DWORD"@, "1"@),
        reg_add("ProxyServer"@, "REG_SZ"@, url),
        reg_add("ProxyOverride"@, "REG_SZ"@, bypass_list()),
    ]
}

/// Windows: proxy disabled.
pub open spec fn windows_clear() -> Seq<CommandView> {
    seq![reg_add("ProxyEnable"@, "REG_DWORD"@, "0"@)]
}

/// A plan of `commands` and nothing else.
pub open spec fn plan_of(commands: Seq<CommandView>, stop_on_failure: bool) -> PlanView {
    PlanView {
        commands,
        stop_on_failure,
        set_env: Seq::empty(),
        remove_env: Seq::empty(),
        refresh_internet_settings: false,
    }
}

/// What pointing the system at the proxy on `ip`:`port` (`addr` as text)
/// takes on `host`. Linux ignores commands that fail and always succeeds;
/// macOS stops at a command that cannot be started; a macOS listing that
/// could not be made, and an unsupported platform, are errors.
pub open spec fn set_plan(
    host: Host,
    ip: Seq<char>,
    port: Seq<char>,
    addr: Seq<char>,
) -> Result<PlanView, Seq<char>> {
    match host {
        Host::Linux { gnome, kde } => Ok(
            PlanView {
                set_env: proxy_env(addr),
                ..plan_of(for_desktops(gnome, kde, gnome_set(ip, port), kde_set(ip, port)), false)
            },
        ),
        Host::MacOs { services } => match services {
            Ok(listing) => Ok(plan_of(macos_set(service_name(listing@), ip, port), true)),
            Err(e) => Err("failed to run networksetup: "@ + e@),
        },
        Host::Windows => Ok(
            PlanView {
                refresh_internet_settings: true,
                ..plan_of(windows_set(proxy_url(addr)), true)
            },
        ),
        Host::Other => Err(unsupported_message()),
    }
}

/// What turning the system proxy off takes on `host` (see `set_plan`).
pub open spec fn clear_plan(host: Host) -> Result<PlanView, Seq<char>> {
    match host {
        Host::Linux { gnome, kde } => Ok(
            PlanView {
                remove_env: proxy_env_names(),
                ..plan_of(for_desktops(gnome, kde, gnome_clear(), kde_clear()), false)
            },
        ),
        Host::MacOs { services } => match services {
            Ok(listing) => Ok(plan_of(macos_clear(service_name(listing@)), true)),
            Err(e) => Err("failed to run networksetup: "@ + e@),
        },
        Host::Windows => Ok(
            PlanView { refresh_internet_settings: true, ..plan_of(windows_clear(), true) },
        ),
        Host::Other => Err(unsupported_message()),
    }
}

/// The view of a planning result.
pub open spec fn result_view(r: Result<ProxyPlan, String>) -> Result<PlanView, Seq<char>> {
    match r {
        Ok(p) => Ok(p@),
        Err(e) => Err(e@),
    }
}

/// On Linux, turning the proxy off removes exactly the variables that
/// turning it on sets, and both act on the same desktops.
pub proof fn law_linux_clear_undoes_set(
    gnome: bool,
    kde: bool,
    ip: Seq<char>,
    port: Seq<char>,
    addr: Seq<char>,
)
    ensures
        set_plan(Host::Linux { gnome, kde }, ip, port, addr) matches Ok(on) && clear_plan(
            Host::Linux { gnome, kde },
        ) matches Ok(off) && on.set_env.map_values(|kv: (Seq<char>, Seq<char>)| kv.0)
            == off.remove_env && (on.commands.len() == 0 <==> off.commands.len() == 0),
{
    let on = set_plan(Host::Linux { gnome, kde }, ip, port, addr)->Ok_0;
    assert(on.set_env.map_values(|kv: (Seq<char>, Seq<char>)| kv.0) =~= proxy_env_names());
}

/// Where the platform has no support, switching the proxy on and off both
/// fail with the same message.
pub proof fn law_unsupported_platform(ip: Seq<char>, port: Seq<char>, addr: Seq<char>)
    ensures
        set_plan(Host::Other, ip, port, addr) == Err::<PlanView, Seq<char>>(unsupported_message()),
        clear_plan(Host::Other) == Err::<PlanView, Seq<char>>(unsupported_message()),
{
}

/// On macOS, switching the proxy on and off act on the same network service,
/// for each of the three proxy kinds.
pub proof fn law_macos_same_service(listing: String, ip: Seq<char>, port: Seq<char>, addr: Seq<char>)
    ensures
        set_plan(Host::MacOs { services: Ok(listing) }, ip, port, addr) matches Ok(on)
            && clear_plan(Host::MacOs { services: Ok(listing) }) matches Ok(off)
            && on.commands.len() == 3 && off.commands.len() == 3 && forall|i: int|
            0 <= i < 3 ==> #[trigger] on.commands[i].args[1] == off.commands[i].args[1]
                && on.commands[i].args[1] == service_name(listing@),
{
}

/// Whether `c` switches a proxy off: a macOS `-set…state <service> off`, the
/// GNOME proxy mode set to `none`, a KDE proxy switch written `false`, or the
/// Windows `ProxyEnable` value set to `0`.
pub open spec fn turns_off(c: CommandView) -> bool {
    ||| c.program == "networksetup"@ && c.args.len() == 3 && c.args[2] == "off"@
    ||| c.program == "gsettings"@ && c.args == seq!["set"@, "org.gnome.system.proxy"@, "mode"@, "none"@]
    ||| c.program == "kwriteconfig5"@ && c.args.len() == 3 && c.args[0] == "KDE"@ && c.args[2] == "false"@
    ||| c.program == "reg"@ && c.args.len() == 9 && c.args[3] == "ProxyEnable"@ && c.args[7] == "0"@
}

/// Every command of a plan that turns the system proxy off switches a proxy
/// off, the plan sets no variable, and on Linux it removes the five proxy
/// variables.
pub proof fn law_clear_turns_off(host: Host)
    ensures
        clear_plan(host) matches Ok(p) ==> {
            &&& forall|i: int| 0 <= i < p.commands.len() ==> turns_off(#[trigger] p.commands[i])
            &&& p.set_env.len() == 0
            &&& (host is Linux ==> p.remove_env == seq![
                "http_proxy"@,
                "https_proxy"@,
                "HTTP_PROXY"@,
                "HTTPS_PROXY"@,
                "ALL_PROXY"@,
            ])
        },
{
    match clear_plan(host) {
        Ok(p) => {
            assert forall|i: int| 0 <= i < p.commands.len() implies turns_off(#[trigger] p.commands[i]) by {
                match host {
                    Host::Linux { gnome, kde } => {
                        let g = if gnome { gnome_clear() } else { Seq::empty() };
                        let k = if kde { kde_clear() } else { Seq::empty() };
                        assert(p.commands == g + k);
                        if i < g.len() {
                            assert(p.commands[i] == g[i]);
                        } else {
                            assert(p.commands[i] == k[i - g.len()]);
                        }
                    },
                    _ => {},
                }
            }
        },
        Err(_) => {},
    }
}

/// On macOS, turning the proxy on sets the web, the secure web and the SOCKS
/// proxy of the listed service, in that order, each to `ip` and `port`; and
/// turning it off sends, for each of them in the same order, the matching
/// `…state` command with `off`. A failure to start a command stops either
/// plan.
pub proof fn law_macos_plans(listing: String, ip: Seq<char>, port: Seq<char>, addr: Seq<char>)
    ensures
        set_plan(Host::MacOs { services: Ok(listing) }, ip, port, addr) matches Ok(on)
            && clear_plan(Host::MacOs { services: Ok(listing) }) matches Ok(off) && {
            &&& on.commands.len() == 3
            &&& off.commands.len() == 3
            &&& on.commands[0].args[0] == "-setwebproxy"@
            &&& on.commands[1].args[0] == "-setsecurewebproxy"@
            &&& on.commands[2].args[0] == "-setsocksfirewallproxy"@
            &&& forall|i: int|
                0 <= i < 3 ==> {
                    &&& (#[trigger] on.commands[i]).program == "networksetup"@
                    &&& on.commands[i].args == seq![
                        on.commands[i].args[0],
                        service_name(listing@),
                        ip,
                        port,
                    ]
                    &&& off.commands[i].program == "networksetup"@
                    &&& off.commands[i].args == seq![
                        on.commands[i].args[0] + "state"@,
                        service_name(listing@),
                        "off"@,
                    ]
                }
            &&& on.stop_on_failure && off.stop_on_failure
            &&& on.set_env.len() == 0 && off.remove_env.len() == 0
        },
{
    reveal_strlit("-setwebproxy");
    reveal_strlit("-setsecurewebproxy");
    reveal_strlit("-setsocksfirewallproxy");
    reveal_strlit("-setwebproxystate");
    reveal_strlit("-setsecurewebproxystate");
    reveal_strlit("-setsocksfirewallproxystate");
    reveal_strlit("state");
    assert("-setwebproxy"@ + "state"@ =~= "-setwebproxystate"@);
    assert("-setsecurewebproxy"@ + "state"@ =~= "-setsecurewebproxystate"@);
    assert("-setsocksfirewallproxy"@ + "state"@ =~= "-setsocksfirewallproxystate"@);
    let on = set_plan(Host::MacOs { services: Ok(listing) }, ip, port, addr)->Ok_0;
    let off = clear_plan(Host::MacOs { services: Ok(listing) })->Ok_0;
    assert forall|i: int| 0 <= i < 3 implies {
        &&& (#[trigger] on.commands[i]).program == "networksetup"@
        &&& on.commands[i].args == seq![on.commands[i].args[0], service_name(listing@), ip, port]
        &&& off.commands[i].program == "networksetup"@
        &&& off.commands[i].args == seq![on.commands[i].args[0] + "state"@, service_name(listing@), "off"@]
    } by {
        assert(on.commands[i].args =~= seq![on.commands[i].args[0], service_name(listing@), ip, port]);
        assert(off.commands[i].args =~= seq![on.commands[i].args[0] + "state"@, service_name(listing@), "off"@]);
    }
}

/// Whether `c` points a proxy at `ip`:`port` (or at `url` on Windows) or
/// switches it on: a macOS proxy of a service set to `ip` and `port`; a GNOME
/// proxy mode set to `manual` or a GNOME host or port set to `ip` or `port`;
/// a KDE proxy switched `true` or its host or port set to `ip` or `port`; the
/// KDE signal to reread its settings; or on Windows the proxy enabled, its
/// server set to `url`, or its bypass list set.
pub open spec fn turns_on(c: CommandView, ip: Seq<char>, port: Seq<char>, url: Seq<char>) -> bool {
    ||| c.program == "networksetup"@ && c.args.len() == 4 && c.args[2] == ip && c.args[3] == port
    ||| c.program == "gsettings"@ && c.args.len() == 4 && c.args[0] == "set"@ && {
        ||| c.args[1] == "org.gnome.system.proxy"@ && c.args[2] == "mode"@ && c.args[3] == "manual"@
        ||| c.args[2] == "host"@ && c.args[3] == ip
        ||| c.args[2] == "port"@ && c.args[3] == port
    }
    ||| c.program == "kwriteconfig5"@ && c.args.len() == 3 && c.args[0] == "KDE"@ && {
        ||| (c.args[1] == "HttpProxyEnabled"@ || c.args[1] == "HttpsProxyEnabled"@ || c.args[1]
            == "SocksProxyEnabled"@) && c.args[2] == "true"@
        ||| (c.args[1] == "HttpProxy"@ || c.args[1] == "HttpsProxy"@ || c.args[1] == "SocksProxy"@)
            && c.args[2] == ip
        ||| (c.args[1] == "HttpPort"@ || c.args[1] == "HttpsPort"@ || c.args[1] == "SocksPort"@)
            && c.args[2] == port
    }
    ||| c.program == "dbus-send"@
    ||| c.program == "reg"@ && c.args.len() == 9 && {
        ||| c.args[3] == "ProxyEnable"@ && c.args[7] == "1"@
        ||| c.args[3] == "ProxyServer"@ && c.args[7] == url
        ||| c.args[3] == "ProxyOverride"@ && c.args[7] == bypass_list()
    }
}

/// Every command of a plan that turns the system proxy on points a proxy at
/// the listen address or switches one on; the plan removes no variable; on
/// Linux it sets each of the five proxy variables to `http://` and the
/// address, and on Windows it asks for the settings to be reread.
pub proof fn law_set_turns_on(host: Host, ip: Seq<char>, port: Seq<char>, addr: Seq<char>)
    ensures
        set_plan(host, ip, port, addr) matches Ok(p) ==> {
            &&& forall|i: int|
                0 <= i < p.commands.len() ==> turns_on(
                    #[trigger] p.commands[i],
                    ip,
                    port,
                    "http://"@ + addr,
                )
            &&& p.remove_env.len() == 0
            &&& (host is Linux ==> p.set_env == seq![
                ("http_proxy"@, "http://"@ + addr),
                ("https_proxy"@, "http://"@ + addr),
                ("HTTP_PROXY"@, "http://"@ + addr),
                ("HTTPS_PROXY"@, "http://"@ + addr),
                ("ALL_PROXY"@, "http://"@ + addr),
            ])
            &&& (host is Windows ==> p.refresh_internet_settings)
        },
{
    match set_plan(host, ip, port, addr) {
        Ok(p) => {
            assert forall|i: int| 0 <= i < p.commands.len() implies turns_on(
                #[trigger] p.commands[i],
                ip,
                port,
                "http://"@ + addr,
            ) by {
                match host {
                    Host::Linux { gnome, kde } => {
                        let g = if gnome { gnome_set(ip, port) } else { Seq::empty() };
                        let k = if kde { kde_set(ip, port) } else { Seq::empty() };
                        assert(p.commands == g + k);
                        if i < g.len() {
                            assert(p.commands[i] == g[i]);
                        } else {
                            assert(p.commands[i] == k[i - g.len()]);
                        }
                    },
                    _ => {},
                }
            }
            if host is Linux {
                assert(p.set_env =~= seq![
                    ("http_proxy"@, "http://"@ + addr),
                    ("https_proxy"@, "http://"@ + addr),
                    ("HTTP_PROXY"@, "http://"@ + addr),
                    ("HTTPS_PROXY"@, "http://"@ + addr),
                    ("ALL_PROXY"@, "http://"@ + addr),
                ]);
            }
        },
        Err(_) => {},
    }
}

/// GNOME and KDE are each told of all three proxy kinds: turning the proxy on
/// with a desktop found sets the host and the port of its HTTP, HTTPS and
/// SOCKS proxy (and on KDE switches each on).
pub proof fn law_linux_sets_every_kind(gnome: bool, kde: bool, ip: Seq<char>, port: Seq<char>, addr: Seq<char>)
    ensures
        set_plan(Host::Linux { gnome, kde }, ip, port, addr) matches Ok(p) && {
            &&& gnome ==> forall|k: Seq<char>|
                #![trigger "org.gnome.system.proxy."@ + k]
                k == "http"@ || k == "https"@ || k == "socks"@ ==> {
                    &&& p.commands.contains(cmd("gsettings"@, seq!["set"@, "org.gnome.system.proxy."@ + k, "host"@, ip]))
                    &&& p.commands.contains(cmd("gsettings"@, seq!["set"@, "org.gnome.system.proxy."@ + k, "port"@, port]))
                }
            &&& kde ==> forall|k: Seq<char>|
                #![trigger k + "Proxy"@]
                k == "Http"@ || k == "Https"@ || k == "Socks"@ ==> {
                    &&& p.commands.contains(cmd("kwriteconfig5"@, seq!["KDE"@, k + "ProxyEnabled"@, "true"@]))
                    &&& p.commands.contains(cmd("kwriteconfig5"@, seq!["KDE"@, k + "Proxy"@, ip]))
                    &&& p.commands.contains(cmd("kwriteconfig5"@, seq!["KDE"@, k + "Port"@, port]))
                }
            &&& (gnome || kde) ==> p.commands.len() > 0
        },
{
    reveal_strlit("org.gnome.system.proxy.");
    reveal_strlit("org.gnome.system.proxy.http");
    reveal_strlit("org.gnome.system.proxy.https");
    reveal_strlit("org.gnome.system.proxy.socks");
    reveal_strlit("http");
    reveal_strlit("https");
    reveal_strlit("socks");
    reveal_strlit("Http");
    reveal_strlit("Https");
    reveal_strlit("Socks");
    reveal_strlit("ProxyEnabled");
    reveal_strlit("Proxy");
    reveal_strlit("Port");
    reveal_strlit("HttpProxyEnabled");
    reveal_strlit("HttpsProxyEnabled");
    reveal_strlit("SocksProxyEnabled");
    reveal_strlit("HttpProxy");
    reveal_strlit("HttpsProxy");
    reveal_strlit("SocksProxy");
    reveal_strlit("HttpPort");
    reveal_strlit("HttpsPort");
    reveal_strlit("SocksPort");
    assert("org.gnome.system.proxy."@ + "http"@ =~= "org.gnome.system.proxy.http"@);
    assert("org.gnome.system.proxy."@ + "https"@ =~= "org.gnome.system.proxy.https"@);
    assert("org.gnome.system.proxy."@ + "socks"@ =~= "org.gnome.system.proxy.socks"@);
    assert("Http"@ + "ProxyEnabled"@ =~= "HttpProxyEnabled"@);
    assert("Https"@ + "ProxyEnabled"@ =~= "HttpsProxyEnabled"@);
    assert("Socks"@ + "ProxyEnabled"@ =~= "SocksProxyEnabled"@);
    assert("Http"@ + "Proxy"@ =~= "HttpProxy"@);
    assert("Https"@ + "Proxy"@ =~= "HttpsProxy"@);
    assert("Socks"@ + "Proxy"@ =~= "SocksProxy"@);
    assert("Http"@ + "Port"@ =~= "HttpPort"@);
    assert("Https"@ + "Port"@ =~= "HttpsPort"@);
    assert("Socks"@ + "Port"@ =~= "SocksPort"@);
    let p = set_plan(Host::Linux { gnome, kde }, ip, port, addr)->Ok_0;
    let g = if gnome { gnome_set(ip, port) } else { Seq::empty() };
    let kk = if kde { kde_set(ip, port) } else { Seq::empty() };
    assert(p.commands == g + kk);
    if gnome {
        assert(p.commands[1] == g[1] && p.commands[2] == g[2] && p.commands[3] == g[3]);
        assert(p.commands[4] == g[4] && p.commands[5] == g[5] && p.commands[6] == g[6]);
    }
    if kde {
        let o = g.len() as int;
        assert forall|j: int| 0 <= j < 9 implies p.commands[o + j] == #[trigger] kk[j] by {}
        assert(kk[0] == p.commands[o]);
        assert(kk[1] == p.commands[o + 1]);
        assert(kk[2] == p.commands[o + 2]);
        assert(kk[3] == p.commands[o + 3]);
        assert(kk[4] == p.commands[o + 4]);
        assert(kk[5] == p.commands[o + 5]);
        assert(kk[6] == p.commands[o + 6]);
        assert(kk[7] == p.commands[o + 7]);
        assert(kk[8] == p.commands[o + 8]);
    }
}

/// The macOS service is the second line of the listing (its first line is a
/// note): the name between the first and the second line break, without a
/// carriage return before the break; when the listing has no second line,
/// `Wi-Fi`.
pub proof fn law_service_is_second_line(note: Seq<char>, name: Seq<char>, rest: Seq<char>)
    requires
        !note.contains('\n'),
        !name.contains('\n'),
        !name.contains('\r'),
    ensures
        service_name(note + seq!['\n'] + name + seq!['\n'] + rest) == name,
        service_name(note + seq!['\n'] + name + seq!['\r', '\n'] + rest) == name,
        name.len() > 0 ==> service_name(note + seq!['\n'] + name) == name,
        service_name(note) == "Wi-Fi"@,
        service_name(note + seq!['\n']) == "Wi-Fi"@,
{
    let k = note.len() as int;
    let n = name.len() as int;
    assert forall|j: int| 0 <= j < note.len() implies note[j] != '\n' by {
        if note[j] == '\n' {
            assert(note.contains('\n'));
        }
    }
    assert forall|j: int| 0 <= j < name.len() implies name[j] != '\n' && name[j] != '\r' by {
        if name[j] == '\n' {
            assert(name.contains('\n'));
        }
        if name[j] == '\r' {
            assert(name.contains('\r'));
        }
    }
    let a = note + seq!['\n'] + name + seq!['\n'] + rest;
    lemma_find_first_at(a, '\n', k);
    assert(a.skip(k + 1) =~= name + seq!['\n'] + rest);
    lemma_find_first_at(name + seq!['\n'] + rest, '\n', n);
    assert((name + seq!['\n'] + rest).take(n) =~= name);
    let b = note + seq!['\n'] + name + seq!['\r', '\n'] + rest;
    lemma_find_first_at(b, '\n', k);
    assert(b.skip(k + 1) =~= name + seq!['\r', '\n'] + rest);
    lemma_find_first_at(name + seq!['\r', '\n'] + rest, '\n', n + 1);
    assert((name + seq!['\r', '\n'] + rest).take(n + 1) =~= name.push('\r'));
    assert(name.push('\r').drop_last() =~= name);
    let c = note + seq!['\n'] + name;
    lemma_find_first_at(c, '\n', k);
    if n > 0 {
        assert(c.skip(k + 1) =~= name);
        lemma_find_first_at(name, '\n', -1);
    }
    lemma_find_first_at(note, '\n', -1);
    lemma_find_first_at(note + seq!['\n'], '\n', k);
}

fn cmd3(program: &str, a1: &str, a2: &str, a3: &str) -> (c: ProxyCommand)
    ensures
        c@ == cmd(program@, seq![a1@, a2@, a3@]),
{
    let mut args: Vec<String> = Vec::new();
    args.push(owned(a1));
    args.push(owned(a2));
    args.push(owned(a3));
    let c = ProxyCommand { program: owned(program), args };
    assert(c@.args =~= seq![a1@, a2@, a3@]);
    c
}

fn cmd4(program: &str, a1: &str, a2: &str, a3: &str, a4: &str) -> (c: ProxyCommand)
    ensures
        c@ == cmd(program@, seq![a1@, a2@, a3@, a4@]),
{
    let mut args: Vec<String> = Vec::new();
    args.push(owned(a1));
    args.push(owned(a2));
    args.push(owned(a3));
    args.push(owned(a4));
    let c = ProxyCommand { program: owned(program), args };
    assert(c@.args =~= seq![a1@, a2@, a3@, a4@]);
    c
}

fn kde_signal() -> (c: ProxyCommand)
    ensures
        c@ == cmd(
            "dbus-send"@,
            seq![
                "--session"@,
                "--type=signal"@,
                "--dest=org.kde.kioslave.net"@,
                "/KIO/Scheduler"@,
                "org.kde.KIOSlave.Scheduler.reparseConfiguration"@,
                "string:''"@,
            ],
        ),
{
    let mut args: Vec<String> = Vec::new();
    args.push(owned("--session"));
    args.push(owned("--type=signal"));
    args.push(owned("--dest=org.kde.kioslave.net"));
    args.push(owned("/KIO/Scheduler"));
    args.push(owned("org.kde.KIOSlave.Scheduler.reparseConfiguration"));
    args.push(owned("string:''"));
    let c = ProxyCommand { program: owned("dbus-send"), args };
    assert(c@.args =~= seq![
        "--session"@,
        "--type=signal"@,
        "--dest=org.kde.kioslave.net"@,
        "/KIO/Scheduler"@,
        "org.kde.KIOSlave.Scheduler.reparseConfiguration"@,
        "string:''"@,
    ]);
    c
}

fn reg_add_cmd(value: &str, kind: &str, data: &str) -> (c: ProxyCommand)
    ensures
        c@ == reg_add(value@, kind@, data@),
{
    let mut args: Vec<String> = Vec::new();
    args.push(owned("add"));
    args.push(owned("HKCU\\Software\\Microsoft\\Windows\\CurrentVersion\\Internet Settings"));
    args.push(owned("/v"));
    args.push(owned(value));
    args.push(owned("/t"));
    args.push(owned(kind));
    args.push(owned("/d"));
    args.push(owned(data));
    args.push(owned("/f"));
    let c = ProxyCommand { program: owned("reg"), args };
    assert(c@.args =~= reg_add(value@, kind@, data@).args);
    c
}

fn push_cmd(v: &mut Vec<ProxyCommand>, c: ProxyCommand)
    ensures
        cmd_views(final(v)@) == cmd_views(old(v)@).push(c@),
{
    let ghost cv = c@;
    v.push(c);
    assert(cmd_views(v@) =~= cmd_views(old(v)@).push(cv));
}

fn gnome_set_cmds(v: &mut Vec<ProxyCommand>, ip: &str, port: &str)
    ensures
        cmd_views(final(v)@) == cmd_views(old(v)@) + gnome_set(ip@, port@),
{
    push_cmd(v, cmd4("gsettings", "set", "org.gnome.system.proxy", "mode", "manual"));
    push_cmd(v, cmd4("gsettings", "set", "org.gnome.system.proxy.http", "host", ip));
    push_cmd(v, cmd4("gsettings", "set", "org.gnome.system.proxy.http", "port", port));
    push_cmd(v, cmd4("gsettings", "set", "org.gnome.system.proxy.https", "host", ip));
    push_cmd(v, cmd4("gsettings", "set", "org.gnome.system.proxy.https", "port", port));
    push_cmd(v, cmd4("gsettings", "set", "org.gnome.system.proxy.socks", "host", ip));
    push_cmd(v, cmd4("gsettings", "set", "org.gnome.system.proxy.socks", "port", port));
    assert(cmd_views(v@) =~= cmd_views(old(v)@) + gnome_set(ip@, port@));
}

fn kde_set_cmds(v: &mut Vec<ProxyCommand>, ip: &str, port: &str)
    ensures
        cmd_views(final(v)@) == cmd_views(old(v)@) + kde_set(ip@, port@),
{
    push_cmd(v, cmd3("kwriteconfig5", "KDE", "HttpProxyEnabled", "true"));
    push_cmd(v, cmd3("kwriteconfig5", "KDE", "HttpProxy", ip));
    push_cmd(v, cmd3("kwriteconfig5", "KDE", "HttpPort", port));
    push_cmd(v, cmd3("kwriteconfig5", "KDE", "HttpsProxyEnabled", "true"));
    push_cmd(v, cmd3("kwriteconfig5", "KDE", "HttpsProxy", ip));
    push_cmd(v, cmd3("kwriteconfig5", "KDE", "HttpsPort", port));
    push_cmd(v, cmd3("kwriteconfig5", "KDE", "SocksProxyEnabled", "true"));
    push_cmd(v, cmd3("kwriteconfig5", "KDE", "SocksProxy", ip));
    push_cmd(v, cmd3("kwriteconfig5", "KDE", "SocksPort", port));
    push_cmd(v, kde_signal());
    assert(cmd_views(v@) =~= cmd_views(old(v)@) + kde_set(ip@, port@));
}

fn proxy_env_vars(addr: &str) -> (r: Vec<(String, String)>)
    ensures
        pair_views(r@) == proxy_env(addr@),
{
    let url = concat2("http://", addr);
    let mut r: Vec<(String, String)> = Vec::new();
    r.push((owned("http_proxy"), url.clone()));
    r.push((owned("https_proxy"), url.clone()));
    r.push((owned("HTTP_PROXY"), url.clone()));
    r.push((owned("HTTPS_PROXY"), url.clone()));
    r.push((owned("ALL_PROXY"), url));
    assert(pair_views(r@) =~= proxy_env(addr@));
    r
}

fn proxy_env_name_list() -> (r: Vec<String>)
    ensures
        views(r@) == proxy_env_names(),
{
    let mut r: Vec<String> = Vec::new();
    r.push(owned("http_proxy"));
    r.push(owned("https_proxy"));
    r.push(owned("HTTP_PROXY"));
    r.push(owned("HTTPS_PROXY"));
    r.push(owned("ALL_PROXY"));
    assert(views(r@) =~= proxy_env_names());
    r
}

fn commands_only(commands: Vec<ProxyCommand>, stop_on_failure: bool, refresh: bool) -> (p: ProxyPlan)
    ensures
        p@ == (PlanView {
            refresh_internet_settings: refresh,
            ..plan_of(cmd_views(commands@), stop_on_failure)
        }),
{
    let p = ProxyPlan {
        commands,
        stop_on_failure,
        set_env: Vec::new(),
        remove_env: Vec::new(),
        refresh_internet_settings: refresh,
    };
    assert(p@.set_env =~= Seq::<(Seq<char>, Seq<char>)>::empty());
    assert(p@.remove_env =~= Seq::<Seq<char>>::empty());
    p
}

fn linux_set_plan(gnome: bool, kde: bool, ip: &str, port: &str, addr: &str) -> (p: ProxyPlan)
    ensures
        p@ == (PlanView {
            set_env: proxy_env(addr@),
            ..plan_of(for_desktops(gnome, kde, gnome_set(ip@, port@), kde_set(ip@, port@)), false)
        }),
{
    let mut commands: Vec<ProxyCommand> = Vec::new();
    if gnome {
        gnome_set_cmds(&mut commands, ip, port);
    }
    if kde {
        kde_set_cmds(&mut commands, ip, port);
    }
    assert(cmd_views(commands@) =~= for_desktops(gnome, kde, gnome_set(ip@, port@), kde_set(ip@, port@)));
    let plan = ProxyPlan {
        commands,
        stop_on_failure: false,
        set_env: proxy_env_vars(addr),
        remove_env: Vec::new(),
        refresh_internet_settings: false,
    };
    assert(plan@.remove_env =~= Seq::<Seq<char>>::empty());
    plan
}

fn linux_clear_plan(gnome: bool, kde: bool) -> (p: ProxyPlan)
    ensures
        p@ == (PlanView {
            remove_env: proxy_env_names(),
            ..plan_of(for_desktops(gnome, kde, gnome_clear(), kde_clear()), false)
        }),
{
    let mut commands: Vec<ProxyCommand> = Vec::new();
    if gnome {
        push_cmd(&mut commands, cmd4("gsettings", "set", "org.gnome.system.proxy", "mode", "none"));
    }
    if kde {
        push_cmd(&mut commands, cmd3("kwriteconfig5", "KDE", "HttpProxyEnabled", "false"));
        push_cmd(&mut commands, cmd3("kwriteconfig5", "KDE", "HttpsProxyEnabled", "false"));
        push_cmd(&mut commands, cmd3("kwriteconfig5", "KDE", "SocksProxyEnabled", "false"));
    }
    assert(cmd_views(commands@) =~= for_desktops(gnome, kde, gnome_clear(), kde_clear()));
    let plan = ProxyPlan {
        commands,
        stop_on_failure: false,
        set_env: Vec::new(),
        remove_env: proxy_env_name_list(),
        refresh_internet_settings: false,
    };
    assert(plan@.set_env =~= Seq::<(Seq<char>, Seq<char>)>::empty());
    plan
}

/// The network service to configure on macOS (see `service_name`).
pub fn macos_service(listing: &str) -> (r: String)
    ensures
        r@ == service_name(listing@),
{
    proof {
        lemma_find_char(listing@, '\n', 0);
    }
    let n = listing.unicode_len();
    match find_first(listing, '\n') {
        Some(k) => {
            if k + 1 >= n {
                return owned("Wi-Fi");
            }
            let rest = listing.substring_char(k + 1, n);
            assert(rest@ =~= listing@.skip(k + 1));
            proof {
                lemma_find_char(rest@, '\n', 0);
            }
            match find_first(rest, '\n') {
                Some(e) => {
                    let line = rest.substring_char(0, e);
                    assert(line@ =~= rest@.take(e as int));
                    if e > 0 && line.get_char(e - 1) == '\r' {
                        let trimmed = line.substring_char(0, e - 1);
                        assert(trimmed@ =~= line@.drop_last());
                        owned(trimmed)
                    } else {
                        owned(line)
                    }
                },
                None => owned(rest),
            }
        },
        None => owned("Wi-Fi"),
    }
}

/// What pointing the system at the proxy on `ip`:`port` takes on `host`
/// (see `set_plan`); `addr` is the listen address as text.
pub fn set_proxy(host: &Host, ip: &str, port: u16, addr: &str) -> (r: Result<ProxyPlan, String>)
    ensures
        result_view(r) == set_plan(*host, ip@, decimal(port as nat), addr@),
{
    let port_text = decimal_string(port as u64);
    let port_str = port_text.as_str();
    match host {
        Host::Linux { gnome, kde } => Ok(linux_set_plan(*gnome, *kde, ip, port_str, addr)),
        Host::MacOs { services } => match services {
            Ok(listing) => {
                let service = macos_service(listing.as_str());
                let s = service.as_str();
                let mut commands: Vec<ProxyCommand> = Vec::new();
                push_cmd(&mut commands, cmd4("networksetup", "-setwebproxy", s, ip, port_str));
                push_cmd(&mut commands, cmd4("networksetup", "-setsecurewebproxy", s, ip, port_str));
                push_cmd(&mut commands, cmd4("networksetup", "-setsocksfirewallproxy", s, ip, port_str));
                assert(cmd_views(commands@) =~= macos_set(service@, ip@, port_str@));
                Ok(commands_only(commands, true, false))
            },
            Err(e) => Err(concat2("failed to run networksetup: ", e.as_str())),
        },
        Host::Windows => {
            let url = concat2("http://", addr);
            let mut commands: Vec<ProxyCommand> = Vec::new();
            push_cmd(&mut commands, reg_add_cmd("ProxyEnable", "REG_DWORD", "1"));
            push_cmd(&mut commands, reg_add_cmd("ProxyServer", "REG_SZ", url.as_str()));
            push_cmd(
                &mut commands,
                reg_add_cmd(
                    "ProxyOverride",
                    "REG_SZ",
                    "localhost;127.*;10.*;172.16.*;172.17.*;172.18.*;172.19.*;172.20.*;172.21.*;172.22.*;172.23.*;172.24.*;172.25.*;172.26.*;172.27.*;172.28.*;172.29.*;172.30.*;172.31.*;192.168.*;<local>",
                ),
            );
            assert(cmd_views(commands@) =~= windows_set(proxy_url(addr@)));
            Ok(commands_only(commands, true, true))
        },
        Host::Other => Err(owned("system proxy not supported on this platform")),
    }
}

/// What turning the system proxy off takes on `host` (see `clear_plan`).
pub fn clear_proxy(host: &Host) -> (r: Result<ProxyPlan, String>)
    ensures
        result_view(r) == clear_plan(*host),
{
    match host {
        Host::Linux { gnome, kde } => Ok(linux_clear_plan(*gnome, *kde)),
        Host::MacOs { services } => match services {
            Ok(listing) => {
                let service = macos_service(listing.as_str());
                let s = service.as_str();
                let mut commands: Vec<ProxyCommand> = Vec::new();
                push_cmd(&mut commands, cmd3("networksetup", "-setwebproxystate", s, "off"));
                push_cmd(&mut commands, cmd3("networksetup", "-setsecurewebproxystate", s, "off"));
                push_cmd(&mut commands, cmd3("networksetup", "-setsocksfirewallproxystate", s, "off"));
                assert(cmd_views(commands@) =~= macos_clear(service@));
                Ok(commands_only(commands, true, false))
            },
            Err(e) => Err(concat2("failed to run networksetup: ", e.as_str())),
        },
        Host::Windows => {
            let mut commands: Vec<ProxyCommand> = Vec::new();
            push_cmd(&mut commands, reg_add_cmd("ProxyEnable", "REG_DWORD", "0"));
            assert(cmd_views(commands@) =~= windows_clear());
            Ok(commands_only(commands, true, true))
        },
        Host::Other => Err(owned("system proxy not supported on this platform")),
    }
}

/// The message for a command that could not be started.
pub fn start_failure(program: &str, error: &str) -> (r: String)
    ensures
        r@ == "failed to run "@ + program@ + ": "@ + error@,
{
    let mut r = concat2("failed to run ", program);
    r.append(": ");
    r.append(error);
    r
}

/// The next thing to do while carrying out a plan.
#[derive(Debug)]
pub enum PlanStep {
    /// Start the command at this index.
    RunCommand(usize),
    /// Stop with this error.
    Fail(String),
    /// The commands are done: set `set_env`, remove `remove_env`, then tell
    /// Windows that its Internet settings changed when the plan says so.
    Finish,
}

/// The first step of carrying out `plan`: its first command, or finishing
/// when it has none.
pub fn first_step(plan: &ProxyPlan) -> (r: PlanStep)
    ensures
        r == if plan.commands@.len() == 0 {
            PlanStep::Finish
        } else {
            PlanStep::RunCommand(0)
        },
{
    if plan.commands.len() == 0 {
        PlanStep::Finish
    } else {
        PlanStep::RunCommand(0)
    }
}

/// The step after command `index` of `plan` was tried (`start_error` says why
/// it could not be started, if it could not): a plan that stops on failure
/// fails with the command's start failure; otherwise the failure is ignored,
/// and the next command follows, or finishing after the last one. A command
/// that started but failed counts as started.
pub fn step_after(plan: &ProxyPlan, index: usize, start_error: Option<&str>) -> (r: PlanStep)
    requires
        index < plan.commands@.len(),
    ensures
        match start_error {
            Some(e) if plan.stop_on_failure => r matches PlanStep::Fail(m) && m@ == "failed to run "@
                + plan.commands@[index as int].program@ + ": "@ + e@,
            _ => r == if index + 1 < plan.commands@.len() {
                PlanStep::RunCommand((index + 1) as usize)
            } else {
                PlanStep::Finish
            },
        },
{
    match start_error {
        Some(e) => {
            if plan.stop_on_failure {
                return PlanStep::Fail(start_failure(plan.commands[index].program.as_str(), e));
            }
        },
        None => {},
    }
    if index < plan.commands.len() - 1 {
        PlanStep::RunCommand(index + 1)
    } else {
        PlanStep::Finish
    }
}

} // verus!
