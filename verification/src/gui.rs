//! The decisions of the desktop window: which preset is being edited, what
//! the connect button does, what the log shows, and what a tunnel is started
//! with. Drawing the window, the clock and the tunnel thread are the caller's.

use vstd::prelude::*;

use crate::preset::{
    active_is,
    built_in_presets,
    has_name,
    index_named,
    index_named_from,
    is_built_in_name,
    lemma_index_named,
    not_named,
    Preset,
    PresetStore,
};
use crate::text::{
    concat2,
    decimal,
    decimal_string,
    owned,
    pair_views,
    replace_all,
    replace_str,
    str_eq,
    two_digit_string,
    two_digits,
    views,
    spec_parse_u16,
    law_decimal_parses_back,
    law_two_digits_parse_back,
};

verus! {

/// The state of the tunnel as the window shows it.
#[derive(Debug)]
pub enum Status {
    Idle,
    Connecting,
    Connected,
    Disconnecting,
    Error(String),
}

/// What a click on the connect button asks for.
#[derive(Debug, Clone, Copy, PartialEq, Eq, Structural)]
pub enum ButtonAction {
    Connect,
    Disconnect,
    Nothing,
}

/// What a click on the system-proxy switch asks for.
#[derive(Debug, Clone, Copy, PartialEq, Eq, Structural)]
pub enum ProxyToggle {
    /// Point the system at the listen address.
    Enable,
    /// Turn the system proxy off.
    Disable,
    /// Nothing: the switch is on but the listen address is no socket address.
    Nothing,
}

/// Settings the window edits beside the preset, which the presets file does
/// not hold.
#[derive(Debug)]
pub struct LocalOptions {
    pub tun_mode: bool,
    pub allow_lan: bool,
    pub auth_enabled: bool,
    pub auth_user: String,
    pub auth_pass: String,
    pub system_proxy: bool,
}

impl Default for LocalOptions {
    fn default() -> (r: Self)
        ensures
            !r.tun_mode,
            !r.allow_lan,
            !r.auth_enabled,
            r.auth_user@.len() == 0,
            r.auth_pass@.len() == 0,
            !r.system_proxy,
    {
        LocalOptions {
            tun_mode: false,
            allow_lan: false,
            auth_enabled: false,
            auth_user: String::new(),
            auth_pass: String::new(),
            system_proxy: false,
        }
    }
}

/// The window's state.
#[derive(Debug)]
pub struct AetherGui {
    pub preset_store: PresetStore,
    pub selected_preset_name: String,
    pub editing: Preset,
    pub options: LocalOptions,
    pub status: Status,
    pub logs: Vec<String>,
    /// A tunnel was started and has not been told to stop.
    pub tunnel_running: bool,
    pub show_new_preset_dialog: bool,
    pub new_preset_name: String,
    pub show_delete_confirm: bool,
    pub delete_target: String,
}

/// The log after the messages of `incoming` were taken in order, each added
/// at the end unless the log already holds it.
pub open spec fn merge_logs(logs: Seq<Seq<char>>, incoming: Seq<Seq<char>>) -> Seq<Seq<char>>
    decreases incoming.len(),
{
    if incoming.len() == 0 {
        logs
    } else {
        let m = merge_logs(logs, incoming.drop_last());
        if m.contains(incoming.last()) {
            m
        } else {
            m.push(incoming.last())
        }
    }
}

/// The text beside the window's title for `status`, after `elapsed` seconds
/// of connection.
pub open spec fn status_text(status: Status, elapsed: nat) -> Seq<char> {
    match status {
        Status::Idle => "Ready"@,
        Status::Connecting => "Connecting..."@,
        Status::Connected => "Connected ("@ + two_digits(elapsed / 60) + ":"@ + two_digits(
            elapsed % 60,
        ) + ")"@,
        Status::Disconnecting => "Disconnecting..."@,
        Status::Error(e) => "Error: "@ + e@,
    }
}

/// The caption of the connect button for `status`.
pub open spec fn button_label(status: Status) -> Seq<char> {
    match status {
        Status::Connected | Status::Connecting => "Disconnect"@,
        Status::Disconnecting => "Disconnecting..."@,
        _ => "Connect"@,
    }
}

/// What a click on the connect button does in `status`.
pub open spec fn button_action(status: Status) -> ButtonAction {
    match status {
        Status::Idle | Status::Error(_) => ButtonAction::Connect,
        Status::Connected | Status::Connecting => ButtonAction::Disconnect,
        _ => ButtonAction::Nothing,
    }
}

/// The colour, as red, green and blue, of the status text for `status`:
/// grey when ready, amber while connecting, green when connected, orange
/// while disconnecting, red on an error.
pub open spec fn status_color(status: Status) -> (u8, u8, u8) {
    match status {
        Status::Idle => (160, 160, 160),
        Status::Connecting => (220, 180, 50),
        Status::Connected => (60, 200, 60),
        Status::Disconnecting => (220, 150, 50),
        Status::Error(_) => (220, 60, 60),
    }
}

/// The fill colour of the connect button for `status`.
pub open spec fn button_color(status: Status) -> (u8, u8, u8) {
    match status {
        Status::Connected | Status::Connecting => (180, 50, 50),
        Status::Disconnecting => (150, 120, 50),
        _ => (50, 160, 50),
    }
}

/// The caption of the system-proxy switch.
pub open spec fn proxy_switch_caption(on: bool) -> Seq<char> {
    if on {
        "System Proxy: ON"@
    } else {
        "System Proxy: OFF"@
    }
}

/// The colour of the system-proxy switch's caption: green when on, grey when off.
pub open spec fn proxy_switch_color(on: bool) -> (u8, u8, u8) {
    if on {
        (60, 180, 60)
    } else {
        (160, 160, 160)
    }
}

/// The last log line of a tunnel that ran: that it closed when it ended
/// without error, else the error.
pub open spec fn closing_line(result: Result<(), String>) -> Seq<char> {
    match result {
        Ok(()) => "[GUI] Tunnel closed."@,
        Err(e) => "[GUI] Error: "@ + e@,
    }
}

/// `a` and `b` agree on everything but the tunnel session (status, log and
/// whether a tunnel runs).
pub open spec fn same_but_session(a: AetherGui, b: AetherGui) -> bool {
    &&& a.preset_store == b.preset_store
    &&& a.selected_preset_name == b.selected_preset_name
    &&& a.editing == b.editing
    &&& a.options == b.options
    &&& a.show_new_preset_dialog == b.show_new_preset_dialog
    &&& a.new_preset_name == b.new_preset_name
    &&& a.show_delete_confirm == b.show_delete_confirm
    &&& a.delete_target == b.delete_target
}

/// `new` is `old` after a connection was started.
pub open spec fn connect_step(old: AetherGui, new: AetherGui) -> bool {
    &&& new.status is Connecting
    &&& views(new.logs@) == seq!["[GUI] Starting..."@]
    &&& new.tunnel_running
    &&& same_but_session(old, new)
}

/// `new` is `old` after the connection was stopped.
pub open spec fn disconnect_step(old: AetherGui, new: AetherGui) -> bool {
    &&& new.status is Idle
    &&& views(new.logs@) == views(old.logs@).push("[GUI] Disconnected."@)
    &&& !new.tunnel_running
    &&& same_but_session(old, new)
}

/// The presets that remain when `name` is deleted include one.
pub open spec fn keeps_some_preset(ps: Seq<Preset>, name: Seq<char>) -> bool {
    exists|i: int| 0 <= i < ps.len() && #[trigger] ps[i].name@ != name
}

/// The variables that a tunnel started from `p` is given, in the order they
/// are set: listen address, protocol, scan mode, IP version, MASQUE
/// obfuscation and base configuration always; the forced peer when there is
/// one; ECH unless it is `off`; the keepalive in decimal; the retry switch
/// when retries are off; debug logging when verbose.
pub open spec fn tunnel_env(p: Preset) -> Seq<(Seq<char>, Seq<char>)> {
    let base = seq![
        ("AETHER_SOCKS"@, p.bind@),
        ("AETHER_PROTOCOL"@, p.protocol@),
        ("AETHER_SCAN"@, p.scan_mode@),
        ("AETHER_IP"@, p.ip_version@),
        ("AETHER_NOIZE"@, p.masque_obfuscation@),
        ("AETHER_CONFIG"@, p.config_path@),
    ];
    let with_peer = if p.peer@.len() > 0 {
        base.push(("AETHER_PEER"@, p.peer@))
    } else {
        base
    };
    let with_ech = if p.ech@ != "off"@ {
        with_peer.push(("AETHER_ECH"@, p.ech@))
    } else {
        with_peer
    };
    let with_keepalive = with_ech.push(("AETHER_WG_KEEPALIVE"@, decimal(p.wg_keepalive as nat)));
    let with_retry = if p.wg_no_profile_retry {
        with_keepalive.push(("AETHER_WG_NO_PROFILE_RETRY"@, "1"@))
    } else {
        with_keepalive
    };
    if p.verbose {
        with_retry.push(("RUST_LOG"@, "debug"@))
    } else {
        with_retry
    }
}

/// The first lines that the log shows when a tunnel starts from `p`.
pub open spec fn tunnel_intro(p: Preset, o: LocalOptions) -> Seq<Seq<char>> {
    let mode = if o.tun_mode {
        "[GUI] Mode: TUN"@
    } else {
        "[GUI] Mode: HTTP+SOCKS5 on "@ + p.bind@ + (if o.auth_enabled {
            " (auth enabled)"@
        } else {
            Seq::empty()
        }) + (if o.allow_lan {
            " (LAN)"@
        } else {
            Seq::empty()
        })
    };
    seq!["[GUI] Protocol: "@ + p.protocol@, mode]
}

/// Every message taken in is in the merged log.
proof fn lemma_merge_covers(logs: Seq<Seq<char>>, incoming: Seq<Seq<char>>)
    ensures
        forall|i: int| 0 <= i < incoming.len() ==> merge_logs(logs, incoming).contains(
            #[trigger] incoming[i],
        ),
    decreases incoming.len(),
{
    if incoming.len() > 0 {
        let rest = incoming.drop_last();
        lemma_merge_covers(logs, rest);
        lemma_merge_prefix(logs, rest);
        let m = merge_logs(logs, rest);
        assert forall|i: int| 0 <= i < incoming.len() implies merge_logs(logs, incoming).contains(
            #[trigger] incoming[i],
        ) by {
            if i < incoming.len() - 1 {
                assert(rest[i] == incoming[i]);
                assert(m.contains(incoming[i]));
                if !m.contains(incoming.last()) {
                    let k = choose|k: int| 0 <= k < m.len() && m[k] == incoming[i];
                    assert(m.push(incoming.last())[k] == incoming[i]);
                }
            } else {
                if !m.contains(incoming.last()) {
                    assert(m.push(incoming.last())[m.len() as int] == incoming.last());
                }
            }
        }
    }
}

/// Merging into a log keeps the log as it was at its start and adds at most
/// one line per message.
proof fn lemma_merge_prefix(logs: Seq<Seq<char>>, incoming: Seq<Seq<char>>)
    ensures
        merge_logs(logs, incoming).len() >= logs.len(),
        merge_logs(logs, incoming).len() <= logs.len() + incoming.len(),
        merge_logs(logs, incoming).take(logs.len() as int) == logs,
    decreases incoming.len(),
{
    if incoming.len() > 0 {
        lemma_merge_prefix(logs, incoming.drop_last());
        let m = merge_logs(logs, incoming.drop_last());
        assert(m.push(incoming.last()).take(logs.len() as int) =~= m.take(logs.len() as int));
    } else {
        assert(logs.take(logs.len() as int) =~= logs);
    }
}

/// A log that already holds every message is left as it is.
proof fn lemma_merge_known(logs: Seq<Seq<char>>, incoming: Seq<Seq<char>>)
    requires
        forall|i: int| 0 <= i < incoming.len() ==> logs.contains(#[trigger] incoming[i]),
    ensures
        merge_logs(logs, incoming) == logs,
    decreases incoming.len(),
{
    if incoming.len() > 0 {
        let rest = incoming.drop_last();
        assert forall|i: int| 0 <= i < rest.len() implies logs.contains(#[trigger] rest[i]) by {
            assert(rest[i] == incoming[i]);
        }
        lemma_merge_known(logs, rest);
        assert(logs.contains(incoming[incoming.len() - 1]));
    }
}

/// The window merges the tunnel's messages on every frame: taking in the same
/// messages again changes nothing, so no message shows twice on their account.
pub proof fn law_merge_logs_idempotent(logs: Seq<Seq<char>>, incoming: Seq<Seq<char>>)
    ensures
        merge_logs(merge_logs(logs, incoming), incoming) == merge_logs(logs, incoming),
{
    lemma_merge_covers(logs, incoming);
    lemma_merge_known(merge_logs(logs, incoming), incoming);
}

/// Merging keeps every earlier line in place, shows every message taken in,
/// and adds at most one line per message.
pub proof fn law_merge_logs_keeps_and_shows(logs: Seq<Seq<char>>, incoming: Seq<Seq<char>>)
    ensures
        merge_logs(logs, incoming).take(logs.len() as int) == logs,
        forall|i: int| 0 <= i < incoming.len() ==> merge_logs(logs, incoming).contains(
            #[trigger] incoming[i],
        ),
        merge_logs(logs, incoming).len() <= logs.len() + incoming.len(),
{
    lemma_merge_prefix(logs, incoming);
    lemma_merge_covers(logs, incoming);
}

/// Connecting and then disconnecting leaves the window idle with no tunnel,
/// everything but the session as it was, and a log of exactly the start and
/// the stop.
pub proof fn law_connect_then_disconnect(g0: AetherGui, g1: AetherGui, g2: AetherGui)
    requires
        connect_step(g0, g1),
        disconnect_step(g1, g2),
    ensures
        g2.status is Idle,
        !g2.tunnel_running,
        views(g2.logs@) == seq!["[GUI] Starting..."@, "[GUI] Disconnected."@],
        same_but_session(g0, g2),
{
    assert(views(g2.logs@) =~= seq!["[GUI] Starting..."@, "[GUI] Disconnected."@]);
}

/// The connect button toggles: after a connection starts it disconnects,
/// after the connection stops it connects.
pub proof fn law_button_toggles(g0: AetherGui, g1: AetherGui, g2: AetherGui)
    requires
        connect_step(g0, g1),
        disconnect_step(g1, g2),
    ensures
        button_action(g1.status) == ButtonAction::Disconnect,
        button_label(g1.status) == "Disconnect"@,
        button_action(g2.status) == ButtonAction::Connect,
        button_label(g2.status) == "Connect"@,
{
}

/// Each variable a tunnel is given carries its own setting of the preset:
/// the listen address, protocol, scan mode, IP version, MASQUE obfuscation
/// and base configuration come first and in that order; a forced peer is
/// passed exactly when there is one, ECH exactly when it is not `off`, the
/// retry switch exactly when retries are off, debug logging exactly when the
/// preset is verbose; and the keepalive always, written so that it reads
/// back as the preset's number.
pub proof fn law_tunnel_env_fields(p: Preset)
    ensures
        tunnel_env(p).len() >= 7,
        tunnel_env(p)[0] == ("AETHER_SOCKS"@, p.bind@),
        tunnel_env(p)[1] == ("AETHER_PROTOCOL"@, p.protocol@),
        tunnel_env(p)[2] == ("AETHER_SCAN"@, p.scan_mode@),
        tunnel_env(p)[3] == ("AETHER_IP"@, p.ip_version@),
        tunnel_env(p)[4] == ("AETHER_NOIZE"@, p.masque_obfuscation@),
        tunnel_env(p)[5] == ("AETHER_CONFIG"@, p.config_path@),
        forall|i: int|
            0 <= i < tunnel_env(p).len() ==> {
                let (k, v) = #[trigger] tunnel_env(p)[i];
                &&& k == "AETHER_SOCKS"@ ==> v == p.bind@
                &&& k == "AETHER_PROTOCOL"@ ==> v == p.protocol@
                &&& k == "AETHER_SCAN"@ ==> v == p.scan_mode@
                &&& k == "AETHER_IP"@ ==> v == p.ip_version@
                &&& k == "AETHER_NOIZE"@ ==> v == p.masque_obfuscation@
                &&& k == "AETHER_CONFIG"@ ==> v == p.config_path@
                &&& k == "AETHER_PEER"@ ==> v == p.peer@ && p.peer@.len() > 0
                &&& k == "AETHER_ECH"@ ==> v == p.ech@ && p.ech@ != "off"@
                &&& k == "AETHER_WG_KEEPALIVE"@ ==> spec_parse_u16(v) == Some(p.wg_keepalive)
                &&& k == "AETHER_WG_NO_PROFILE_RETRY"@ ==> v == "1"@ && p.wg_no_profile_retry
                &&& k == "RUST_LOG"@ ==> v == "debug"@ && p.verbose
            },
        p.peer@.len() > 0 ==> tunnel_env(p).contains(("AETHER_PEER"@, p.peer@)),
        p.ech@ != "off"@ ==> tunnel_env(p).contains(("AETHER_ECH"@, p.ech@)),
        tunnel_env(p).contains(("AETHER_WG_KEEPALIVE"@, decimal(p.wg_keepalive as nat))),
        p.wg_no_profile_retry ==> tunnel_env(p).contains(("AETHER_WG_NO_PROFILE_RETRY"@, "1"@)),
        p.verbose ==> tunnel_env(p).contains(("RUST_LOG"@, "debug"@)),
{
    reveal_strlit("AETHER_SOCKS");
    reveal_strlit("AETHER_PROTOCOL");
    reveal_strlit("AETHER_SCAN");
    reveal_strlit("AETHER_IP");
    reveal_strlit("AETHER_NOIZE");
    reveal_strlit("AETHER_CONFIG");
    reveal_strlit("AETHER_PEER");
    reveal_strlit("AETHER_ECH");
    reveal_strlit("AETHER_WG_KEEPALIVE");
    reveal_strlit("AETHER_WG_NO_PROFILE_RETRY");
    reveal_strlit("RUST_LOG");
    assert("AETHER_SOCKS"@.len() == 12 && "AETHER_SOCKS"@[7] == 'S');
    assert("AETHER_PROTOCOL"@.len() == 15 && "AETHER_PROTOCOL"@[7] == 'P');
    assert("AETHER_SCAN"@.len() == 11 && "AETHER_SCAN"@[7] == 'S');
    assert("AETHER_IP"@.len() == 9 && "AETHER_IP"@[7] == 'I');
    assert("AETHER_NOIZE"@.len() == 12 && "AETHER_NOIZE"@[7] == 'N');
    assert("AETHER_CONFIG"@.len() == 13 && "AETHER_CONFIG"@[7] == 'C');
    assert("AETHER_PEER"@.len() == 11 && "AETHER_PEER"@[7] == 'P');
    assert("AETHER_ECH"@.len() == 10 && "AETHER_ECH"@[7] == 'E');
    assert("AETHER_WG_KEEPALIVE"@.len() == 19 && "AETHER_WG_KEEPALIVE"@[7] == 'W');
    assert("AETHER_WG_NO_PROFILE_RETRY"@.len() == 26 && "AETHER_WG_NO_PROFILE_RETRY"@[7] == 'W');
    assert("RUST_LOG"@.len() == 8 && "RUST_LOG"@[7] == 'G');
    law_decimal_parses_back(p.wg_keepalive);
    let e = tunnel_env(p);
    let base = seq![
        ("AETHER_SOCKS"@, p.bind@),
        ("AETHER_PROTOCOL"@, p.protocol@),
        ("AETHER_SCAN"@, p.scan_mode@),
        ("AETHER_IP"@, p.ip_version@),
        ("AETHER_NOIZE"@, p.masque_obfuscation@),
        ("AETHER_CONFIG"@, p.config_path@),
    ];
    let a = if p.peer@.len() > 0 { base.push(("AETHER_PEER"@, p.peer@)) } else { base };
    let b = if p.ech@ != "off"@ { a.push(("AETHER_ECH"@, p.ech@)) } else { a };
    let c = b.push(("AETHER_WG_KEEPALIVE"@, decimal(p.wg_keepalive as nat)));
    let d = if p.wg_no_profile_retry { c.push(("AETHER_WG_NO_PROFILE_RETRY"@, "1"@)) } else { c };
    assert(e == if p.verbose { d.push(("RUST_LOG"@, "debug"@)) } else { d });
    assert(e.len() >= 7);
    assert(e[c.len() - 1] == c.last());
    if p.peer@.len() > 0 {
        assert(e[6] == ("AETHER_PEER"@, p.peer@));
    }
    if p.ech@ != "off"@ {
        assert(e[a.len() as int] == ("AETHER_ECH"@, p.ech@));
    }
    if p.wg_no_profile_retry {
        assert(e[c.len() as int] == ("AETHER_WG_NO_PROFILE_RETRY"@, "1"@));
    }
    if p.verbose {
        assert(e[d.len() as int] == ("RUST_LOG"@, "debug"@));
    }
}

/// The first log line of a tunnel names its protocol; the second its mode:
/// TUN, or the mixed proxy on the listen address, marked when authentication
/// is on and when the local network may connect, in that order.
pub proof fn law_tunnel_intro(p: Preset, o: LocalOptions)
    ensures
        tunnel_intro(p, o).len() == 2,
        tunnel_intro(p, o)[0] == "[GUI] Protocol: "@ + p.protocol@,
        o.tun_mode ==> tunnel_intro(p, o)[1] == "[GUI] Mode: TUN"@,
        !o.tun_mode && !o.auth_enabled && !o.allow_lan ==> tunnel_intro(p, o)[1]
            == "[GUI] Mode: HTTP+SOCKS5 on "@ + p.bind@,
        !o.tun_mode && o.auth_enabled && !o.allow_lan ==> tunnel_intro(p, o)[1]
            == "[GUI] Mode: HTTP+SOCKS5 on "@ + p.bind@ + " (auth enabled)"@,
        !o.tun_mode && !o.auth_enabled && o.allow_lan ==> tunnel_intro(p, o)[1]
            == "[GUI] Mode: HTTP+SOCKS5 on "@ + p.bind@ + " (LAN)"@,
        !o.tun_mode && o.auth_enabled && o.allow_lan ==> tunnel_intro(p, o)[1]
            == "[GUI] Mode: HTTP+SOCKS5 on "@ + p.bind@ + " (auth enabled)"@ + " (LAN)"@,
{
    let head = "[GUI] Mode: HTTP+SOCKS5 on "@ + p.bind@;
    assert(head + Seq::<char>::empty() =~= head);
    assert(head + " (auth enabled)"@ + Seq::<char>::empty() =~= head + " (auth enabled)"@);
}

/// While connected, the status shows the time connected as minutes and
/// seconds, each with at least two digits, which read back as the elapsed
/// time; every other status shows its own fixed text.
pub proof fn law_status_text(elapsed: u16)
    requires
        elapsed < 6000,
    ensures
        exists|mm: Seq<char>, ss: Seq<char>|
            #![trigger mm + ss]
            status_text(Status::Connected, elapsed as nat) == "Connected ("@ + mm + ":"@ + ss + ")"@
                && spec_parse_u16(mm) == Some((elapsed / 60) as u16)
                && spec_parse_u16(ss) == Some((elapsed % 60) as u16)
                && mm.len() == 2 && ss.len() == 2,
        status_text(Status::Idle, elapsed as nat) == "Ready"@,
        status_text(Status::Connecting, elapsed as nat) == "Connecting..."@,
        status_text(Status::Disconnecting, elapsed as nat) == "Disconnecting..."@,
{
    let m = (elapsed / 60) as u16;
    let sec = (elapsed % 60) as u16;
    law_two_digits_parse_back(m);
    law_two_digits_parse_back(sec);
    let mm = two_digits(m as nat);
    let ss = two_digits(sec as nat);
    assert(status_text(Status::Connected, elapsed as nat) == "Connected ("@ + mm + ":"@ + ss + ")"@);
    let _ = mm + ss;
}

/// Whether the log holds `msg`.
fn log_contains(logs: &Vec<String>, msg: &String) -> (r: bool)
    ensures
        r == views(logs@).contains(msg@),
{
    let n = logs.len();
    let mut i: usize = 0;
    while i < n
        invariant
            n == logs@.len(),
            i <= n,
            forall|j: int| 0 <= j < i ==> logs@[j]@ != msg@,
        decreases n - i,
    {
        if logs[i] == *msg {
            assert(views(logs@)[i as int] == msg@);
            return true;
        }
        i = i + 1;
    }
    assert(!views(logs@).contains(msg@)) by {
        if views(logs@).contains(msg@) {
            let j = choose|j: int| 0 <= j < views(logs@).len() && views(logs@)[j] == msg@;
            assert(logs@[j]@ == msg@);
        }
    }
    false
}

/// `v` with `(k, val)` appended.
fn push_pair(v: &mut Vec<(String, String)>, k: &str, val: &str)
    ensures
        pair_views(final(v)@) == pair_views(old(v)@).push((k@, val@)),
{
    v.push((owned(k), owned(val)));
    assert(pair_views(v@) =~= pair_views(old(v)@).push((k@, val@)));
}

/// The variables that a tunnel started from `p` is given (see `tunnel_env`).
pub fn tunnel_env_vars(p: &Preset) -> (r: Vec<(String, String)>)
    ensures
        pair_views(r@) == tunnel_env(*p),
{
    let mut v: Vec<(String, String)> = Vec::new();
    push_pair(&mut v, "AETHER_SOCKS", p.bind.as_str());
    push_pair(&mut v, "AETHER_PROTOCOL", p.protocol.as_str());
    push_pair(&mut v, "AETHER_SCAN", p.scan_mode.as_str());
    push_pair(&mut v, "AETHER_IP", p.ip_version.as_str());
    push_pair(&mut v, "AETHER_NOIZE", p.masque_obfuscation.as_str());
    push_pair(&mut v, "AETHER_CONFIG", p.config_path.as_str());
    if p.peer.unicode_len() > 0 {
        push_pair(&mut v, "AETHER_PEER", p.peer.as_str());
    }
    if !str_eq(p.ech.as_str(), "off") {
        push_pair(&mut v, "AETHER_ECH", p.ech.as_str());
    }
    let keepalive = decimal_string(p.wg_keepalive as u64);
    push_pair(&mut v, "AETHER_WG_KEEPALIVE", keepalive.as_str());
    if p.wg_no_profile_retry {
        push_pair(&mut v, "AETHER_WG_NO_PROFILE_RETRY", "1");
    }
    if p.verbose {
        push_pair(&mut v, "RUST_LOG", "debug");
    }
    assert(pair_views(v@) =~= tunnel_env(*p));
    v
}

/// The first log lines of a tunnel started from `p` (see `tunnel_intro`).
pub fn tunnel_intro_lines(p: &Preset, o: &LocalOptions) -> (r: Vec<String>)
    ensures
        views(r@) == tunnel_intro(*p, *o),
{
    let mut v: Vec<String> = Vec::new();
    v.push(concat2("[GUI] Protocol: ", p.protocol.as_str()));
    if o.tun_mode {
        v.push(owned("[GUI] Mode: TUN"));
    } else {
        let mut line = concat2("[GUI] Mode: HTTP+SOCKS5 on ", p.bind.as_str());
        let ghost start = line@;
        if o.auth_enabled {
            line.append(" (auth enabled)");
        }
        let ghost mid = line@;
        assert(mid == start + (if o.auth_enabled {
            " (auth enabled)"@
        } else {
            Seq::empty()
        }));
        if o.allow_lan {
            line.append(" (LAN)");
        }
        assert(line@ == mid + (if o.allow_lan {
            " (LAN)"@
        } else {
            Seq::empty()
        }));
        v.push(line);
    }
    assert(views(v@) =~= tunnel_intro(*p, *o));
    v
}

/// `bind` opened to the local network: every `127.0.0.1` in it becomes `0.0.0.0`.
pub fn lan_bind(bind: &str) -> (r: String)
    ensures
        r@ == replace_all(bind@, "127.0.0.1"@, "0.0.0.0"@),
{
    proof {
        reveal_strlit("127.0.0.1");
    }
    replace_str(bind, "127.0.0.1", "0.0.0.0")
}

/// Whether a tunnel may go on after its listen address was read: `None` when
/// it parsed (`parse_error` is `None`), else the log line it stops with.
pub fn bind_check(parse_error: Option<&str>) -> (r: Option<String>)
    ensures
        match parse_error {
            None => r is None,
            Some(e) => r matches Some(line) && line@ == "[GUI] Bad bind: "@ + e@,
        },
{
    match parse_error {
        None => None,
        Some(e) => Some(concat2("[GUI] Bad bind: ", e)),
    }
}

/// The last log line of a tunnel that ran (see `closing_line`).
pub fn tunnel_closing_line(result: &Result<(), String>) -> (r: String)
    ensures
        r@ == closing_line(*result),
{
    match result {
        Ok(()) => owned("[GUI] Tunnel closed."),
        Err(e) => concat2("[GUI] Error: ", e.as_str()),
    }
}

impl AetherGui {
    /// The window as it opens on `preset_store`: the active preset selected and
    /// being edited, no tunnel, an empty log, no dialog.
    pub fn new(preset_store: PresetStore) -> (r: AetherGui)
        requires
            preset_store.presets@.len() > 0,
        ensures
            r.preset_store == preset_store,
            r.editing == preset_store.presets@[preset_store.active_index()],
            r.selected_preset_name == r.editing.name,
            r.status is Idle,
            r.logs@.len() == 0,
            !r.tunnel_running,
            !r.show_new_preset_dialog,
            r.new_preset_name@.len() == 0,
            !r.show_delete_confirm,
            r.delete_target@.len() == 0,
            !r.options.tun_mode && !r.options.allow_lan && !r.options.auth_enabled
                && !r.options.system_proxy,
            r.options.auth_user@.len() == 0 && r.options.auth_pass@.len() == 0,
    {
        let initial = preset_store.active_preset().clone();
        AetherGui {
            selected_preset_name: initial.name.clone(),
            editing: initial,
            preset_store,
            options: LocalOptions::default(),
            status: Status::Idle,
            logs: Vec::new(),
            tunnel_running: false,
            show_new_preset_dialog: false,
            new_preset_name: String::new(),
            show_delete_confirm: false,
            delete_target: String::new(),
        }
    }

    /// Whether `name` is the name of a shipped preset.
    pub fn is_builtin(&self, name: &str) -> (r: bool)
        ensures
            r == is_built_in_name(name@),
    {
        let shipped = PresetStore::built_in();
        let n = shipped.len();
        assert(n == built_in_presets().len());
        let mut i: usize = 0;
        while i < n
            invariant
                n == shipped@.len(),
                shipped@.map_values(|p: Preset| p@) == built_in_presets(),
                i <= n,
                forall|j: int| 0 <= j < i ==> built_in_presets()[j].name != name@,
            decreases n - i,
        {
            assert(shipped@.map_values(|p: Preset| p@)[i as int] == shipped@[i as int]@);
            if str_eq(shipped[i].name.as_str(), name) {
                assert(built_in_presets()[i as int].name == name@);
                return true;
            }
            i = i + 1;
        }
        false
    }

    /// Takes in the messages that the tunnel logged so far, keeping each
    /// message once (see `merge_logs`).
    pub fn merge_logs(&mut self, incoming: &Vec<String>)
        ensures
            views(final(self).logs@) == merge_logs(views(old(self).logs@), views(incoming@)),
            *final(self) == (AetherGui { logs: final(self).logs, ..*old(self) }),
    {
        let ghost orig = views(self.logs@);
        let ghost inc = views(incoming@);
        let n = incoming.len();
        let mut j: usize = 0;
        assert(inc.take(0) =~= Seq::<Seq<char>>::empty());
        while j < n
            invariant
                n == incoming@.len(),
                inc == views(incoming@),
                j <= n,
                views(self.logs@) == merge_logs(orig, inc.take(j as int)),
                *self == (AetherGui { logs: self.logs, ..*old(self) }),
            decreases n - j,
        {
            let msg = &incoming[j];
            assert(inc.take(j + 1).drop_last() =~= inc.take(j as int));
            assert(inc.take(j + 1).last() == msg@);
            if !log_contains(&self.logs, msg) {
                let ghost before = self.logs@;
                self.logs.push(msg.clone());
                assert(views(self.logs@) =~= views(before).push(msg@));
            }
            j = j + 1;
        }
        assert(inc.take(n as int) =~= inc);
    }

    /// The text beside the title, after `elapsed_secs` seconds of connection.
    pub fn status_text(&self, elapsed_secs: u64) -> (r: String)
        ensures
            r@ == status_text(self.status, elapsed_secs as nat),
    {
        match &self.status {
            Status::Idle => owned("Ready"),
            Status::Connecting => owned("Connecting..."),
            Status::Connected => {
                let mut s = owned("Connected (");
                let mins = two_digit_string(elapsed_secs / 60);
                let secs = two_digit_string(elapsed_secs % 60);
                s.append(mins.as_str());
                s.append(":");
                s.append(secs.as_str());
                s.append(")");
                s
            },
            Status::Disconnecting => owned("Disconnecting..."),
            Status::Error(e) => concat2("Error: ", e.as_str()),
        }
    }

    /// The caption of the connect button.
    pub fn button_label(&self) -> (r: &'static str)
        ensures
            r@ == button_label(self.status),
    {
        match &self.status {
            Status::Connected | Status::Connecting => "Disconnect",
            Status::Disconnecting => "Disconnecting...",
            _ => "Connect",
        }
    }

    /// The colour of the status text.
    pub fn status_color(&self) -> (r: (u8, u8, u8))
        ensures
            r == status_color(self.status),
    {
        match &self.status {
            Status::Idle => (160, 160, 160),
            Status::Connecting => (220, 180, 50),
            Status::Connected => (60, 200, 60),
            Status::Disconnecting => (220, 150, 50),
            Status::Error(_) => (220, 60, 60),
        }
    }

    /// The fill colour of the connect button.
    pub fn button_color(&self) -> (r: (u8, u8, u8))
        ensures
            r == button_color(self.status),
    {
        match &self.status {
            Status::Connected | Status::Connecting => (180, 50, 50),
            Status::Disconnecting => (150, 120, 50),
            _ => (50, 160, 50),
        }
    }

    /// The caption of the system-proxy switch.
    pub fn proxy_switch_caption(&self) -> (r: &'static str)
        ensures
            r@ == proxy_switch_caption(self.options.system_proxy),
    {
        if self.options.system_proxy {
            "System Proxy: ON"
        } else {
            "System Proxy: OFF"
        }
    }

    /// The colour of the system-proxy switch's caption.
    pub fn proxy_switch_color(&self) -> (r: (u8, u8, u8))
        ensures
            r == proxy_switch_color(self.options.system_proxy),
    {
        if self.options.system_proxy {
            (60, 180, 60)
        } else {
            (160, 160, 160)
        }
    }

    /// What a click on the connect button asks for.
    pub fn button_action(&self) -> (r: ButtonAction)
        ensures
            r == button_action(self.status),
    {
        match &self.status {
            Status::Idle | Status::Error(_) => ButtonAction::Connect,
            Status::Connected | Status::Connecting => ButtonAction::Disconnect,
            _ => ButtonAction::Nothing,
        }
    }

    /// Starts a connection: the log restarts, and the returned copy of the
    /// edited preset is what the tunnel runs with.
    pub fn connect(&mut self) -> (r: Preset)
        ensures
            connect_step(*old(self), *final(self)),
            r == old(self).editing,
    {
        self.status = Status::Connecting;
        self.logs = Vec::new();
        self.logs.push(owned("[GUI] Starting..."));
        self.tunnel_running = true;
        assert(views(self.logs@) =~= seq!["[GUI] Starting..."@]);
        self.editing.clone()
    }

    /// Stops the connection. Returns whether a running tunnel must be told to
    /// stop.
    pub fn disconnect(&mut self) -> (stop_tunnel: bool)
        ensures
            disconnect_step(*old(self), *final(self)),
            stop_tunnel == old(self).tunnel_running,
    {
        self.status = Status::Disconnecting;
        let stop_tunnel = self.tunnel_running;
        self.tunnel_running = false;
        self.status = Status::Idle;
        let ghost before = self.logs@;
        self.logs.push(owned("[GUI] Disconnected."));
        assert(views(self.logs@) =~= views(before).push("[GUI] Disconnected."@));
        stop_tunnel
    }

    /// Selects the preset named `name`; the first preset of that name, if
    /// any, becomes the one being edited.
    pub fn select_preset(&mut self, name: &str)
        ensures
            final(self).selected_preset_name@ == name@,
            final(self).editing == if has_name(old(self).preset_store.presets@, name@) {
                old(self).preset_store.presets@[index_named(
                    old(self).preset_store.presets@,
                    name@,
                )]
            } else {
                old(self).editing
            },
            *final(self) == (AetherGui {
                selected_preset_name: final(self).selected_preset_name,
                editing: final(self).editing,
                ..*old(self)
            }),
    {
        proof {
            lemma_index_named(self.preset_store.presets@, name@);
        }
        self.selected_preset_name = owned(name);
        let n = self.preset_store.presets.len();
        let mut i: usize = 0;
        while i < n
            invariant
                n == self.preset_store.presets@.len(),
                i <= n,
                *self == (AetherGui {
                    selected_preset_name: self.selected_preset_name,
                    ..*old(self)
                }),
                self.selected_preset_name@ == name@,
                index_named(self.preset_store.presets@, name@) == index_named_from(
                    self.preset_store.presets@,
                    name@,
                    i as int,
                ),
            decreases n - i,
        {
            if str_eq(self.preset_store.presets[i].name.as_str(), name) {
                self.editing = self.preset_store.presets[i].clone();
                return ;
            }
            i = i + 1;
        }
    }

    /// Opens the dialog that names a new preset, with an empty name.
    pub fn open_new_preset_dialog(&mut self)
        ensures
            final(self).new_preset_name@.len() == 0,
            *final(self) == (AetherGui {
                show_new_preset_dialog: true,
                new_preset_name: final(self).new_preset_name,
                ..*old(self)
            }),
    {
        self.show_new_preset_dialog = true;
        self.new_preset_name = String::new();
    }

    /// Adds a copy of the edited preset under the name typed in the dialog,
    /// selects it and closes the dialog. Returns whether it was added (the
    /// caller then saves the store); nothing changes when the name is empty.
    pub fn create_preset(&mut self) -> (added: bool)
        ensures
            added == (old(self).new_preset_name@.len() > 0),
            added ==> {
                &&& final(self).preset_store.presets@ == old(self).preset_store.presets@.push(
                    (Preset { name: old(self).new_preset_name, ..old(self).editing }),
                )
                &&& final(self).preset_store.active == old(self).preset_store.active
                &&& *final(self) == (AetherGui {
                    preset_store: final(self).preset_store,
                    selected_preset_name: old(self).new_preset_name,
                    show_new_preset_dialog: false,
                    ..*old(self)
                })
            },
            !added ==> *final(self) == *old(self),
    {
        if self.new_preset_name.unicode_len() == 0 {
            return false;
        }
        let mut p = self.editing.clone();
        p.name = self.new_preset_name.clone();
        self.preset_store.presets.push(p);
        self.selected_preset_name = self.new_preset_name.clone();
        self.show_new_preset_dialog = false;
        true
    }

    /// Asks to delete the preset named `name`: refused for a shipped preset,
    /// otherwise the confirmation dialog opens for it.
    pub fn request_delete(&mut self, name: &str) -> (asked: bool)
        ensures
            asked == !is_built_in_name(name@),
            asked ==> final(self).delete_target@ == name@ && *final(self) == (AetherGui {
                show_delete_confirm: true,
                delete_target: final(self).delete_target,
                ..*old(self)
            }),
            !asked ==> *final(self) == *old(self),
    {
        if self.is_builtin(name) {
            return false;
        }
        self.show_delete_confirm = true;
        self.delete_target = owned(name);
        true
    }

    /// Whether a preset other than the deletion target remains, so that a
    /// confirmed deletion leaves one to select.
    pub fn can_confirm_delete(&self) -> (r: bool)
        ensures
            r == keeps_some_preset(self.preset_store.presets@, self.delete_target@),
    {
        let n = self.preset_store.presets.len();
        let mut i: usize = 0;
        while i < n
            invariant
                n == self.preset_store.presets@.len(),
                i <= n,
                forall|j: int|
                    0 <= j < i ==> self.preset_store.presets@[j].name@ == self.delete_target@,
            decreases n - i,
        {
            if !(self.preset_store.presets[i].name == self.delete_target) {
                return true;
            }
            i = i + 1;
        }
        false
    }

    /// Deletes the confirmed target and selects the preset that is then
    /// active; the caller saves the store.
    pub fn confirm_delete(&mut self)
        requires
            keeps_some_preset(old(self).preset_store.presets@, old(self).delete_target@),
        ensures
            final(self).preset_store.presets@ == old(self).preset_store.presets@.filter(
                not_named(old(self).delete_target@),
            ),
            final(self).preset_store.presets@.len() > 0,
            final(self).preset_store.active == if has_name(
                old(self).preset_store.presets@,
                old(self).delete_target@,
            ) && active_is(old(self).preset_store.active, old(self).delete_target@) {
                Some(final(self).preset_store.presets@[0].name)
            } else {
                old(self).preset_store.active
            },
            final(self).editing == final(self).preset_store.presets@[final(self).preset_store.active_index()],
            final(self).selected_preset_name == final(self).editing.name,
            *final(self) == (AetherGui {
                preset_store: final(self).preset_store,
                selected_preset_name: final(self).selected_preset_name,
                editing: final(self).editing,
                show_delete_confirm: false,
                ..*old(self)
            }),
    {
        let ghost orig = self.preset_store.presets@;
        let ghost target = self.delete_target@;
        let existed = self.preset_store.delete(self.delete_target.as_str());
        proof {
            let i = choose|i: int| 0 <= i < orig.len() && #[trigger] orig[i].name@ != target;
            broadcast use Seq::lemma_filter_contains;

            assert(orig.filter(not_named(target)).contains(orig[i]));
        }
        let current = self.preset_store.active_preset().clone();
        self.selected_preset_name = current.name.clone();
        self.editing = current;
        self.show_delete_confirm = false;
    }

    /// What the system-proxy switch asks for after a click, given whether the
    /// edited listen address is a socket address: with the switch now on,
    /// pointing the system at it (or nothing when it is no address); with the
    /// switch now off, turning the system proxy off.
    pub fn proxy_toggle_action(&self, bind_is_address: bool) -> (r: ProxyToggle)
        ensures
            r == if self.options.system_proxy {
                if bind_is_address {
                    ProxyToggle::Enable
                } else {
                    ProxyToggle::Nothing
                }
            } else {
                ProxyToggle::Disable
            },
    {
        if self.options.system_proxy {
            if bind_is_address {
                ProxyToggle::Enable
            } else {
                ProxyToggle::Nothing
            }
        } else {
            ProxyToggle::Disable
        }
    }

    /// Applies the local-network switch: when it is on, the listen address is
    /// opened to the local network (see `lan_bind`).
    pub fn apply_lan_setting(&mut self)
        ensures
            final(self).editing == if old(self).options.allow_lan {
                Preset { bind: final(self).editing.bind, ..old(self).editing }
            } else {
                old(self).editing
            },
            old(self).options.allow_lan ==> final(self).editing.bind@ == replace_all(
                old(self).editing.bind@,
                "127.0.0.1"@,
                "0.0.0.0"@,
            ),
            *final(self) == (AetherGui { editing: final(self).editing, ..*old(self) }),
    {
        if self.options.allow_lan {
            let opened = lan_bind(self.editing.bind.as_str());
            self.editing.bind = opened;
        }
    }
}

} // verus!
