//! Connection presets and the store that holds them.

use vstd::prelude::*;

use crate::text::{owned, str_eq, views};

verus! {

/// A named set of connection settings.
#[derive(Debug)]
pub struct Preset {
    pub name: String,
    pub protocol: String,
    pub bind: String,
    pub scan_mode: String,
    pub ip_version: String,
    pub masque_obfuscation: String,
    pub wg_obfuscation: String,
    pub ech: String,
    pub peer: String,
    pub config_path: String,
    pub wg_keepalive: u16,
    pub wg_no_profile_retry: bool,
    pub verbose: bool,
}

/// The settings of a preset, with its strings as character sequences.
pub struct PresetView {
    pub name: Seq<char>,
    pub protocol: Seq<char>,
    pub bind: Seq<char>,
    pub scan_mode: Seq<char>,
    pub ip_version: Seq<char>,
    pub masque_obfuscation: Seq<char>,
    pub wg_obfuscation: Seq<char>,
    pub ech: Seq<char>,
    pub peer: Seq<char>,
    pub config_path: Seq<char>,
    pub wg_keepalive: u16,
    pub wg_no_profile_retry: bool,
    pub verbose: bool,
}

impl View for Preset {
    type V = PresetView;

    open spec fn view(&self) -> PresetView {
        PresetView {
            name: self.name@,
            protocol: self.protocol@,
            bind: self.bind@,
            scan_mode: self.scan_mode@,
            ip_version: self.ip_version@,
            masque_obfuscation: self.masque_obfuscation@,
            wg_obfuscation: self.wg_obfuscation@,
            ech: self.ech@,
            peer: self.peer@,
            config_path: self.config_path@,
            wg_keepalive: self.wg_keepalive,
            wg_no_profile_retry: self.wg_no_profile_retry,
            verbose: self.verbose,
        }
    }
}

impl Clone for Preset {
    fn clone(&self) -> (r: Self)
        ensures
            r == *self,
    {
        Preset {
            name: self.name.clone(),
            protocol: self.protocol.clone(),
            bind: self.bind.clone(),
            scan_mode: self.scan_mode.clone(),
            ip_version: self.ip_version.clone(),
            masque_obfuscation: self.masque_obfuscation.clone(),
            wg_obfuscation: self.wg_obfuscation.clone(),
            ech: self.ech.clone(),
            peer: self.peer.clone(),
            config_path: self.config_path.clone(),
            wg_keepalive: self.wg_keepalive,
            wg_no_profile_retry: self.wg_no_profile_retry,
            verbose: self.verbose,
        }
    }
}

/// The settings that every shipped preset shares (local proxy on port 1819,
/// no forced peer, `aether.toml`, 5 s keepalive, retries on, quiet logging),
/// with the given name, protocol, scan mode, IP version, obfuscation profiles
/// and ECH mode.
pub open spec fn shipped_preset(
    name: Seq<char>,
    protocol: Seq<char>,
    scan_mode: Seq<char>,
    ip_version: Seq<char>,
    masque_obfuscation: Seq<char>,
    wg_obfuscation: Seq<char>,
    ech: Seq<char>,
) -> PresetView {
    PresetView {
        name,
        protocol,
        bind: "127.0.0.1:1819"@,
        scan_mode,
        ip_version,
        masque_obfuscation,
        wg_obfuscation,
        ech,
        peer: Seq::empty(),
        config_path: "aether.toml"@,
        wg_keepalive: 5,
        wg_no_profile_retry: false,
        verbose: false,
    }
}

/// What `Preset::default()` holds.
pub open spec fn default_preset() -> PresetView {
    shipped_preset(
        "Default"@,
        "masq"@,
        "balanced"@,
        "v4"@,
        "firewall"@,
        "balanced"@,
        "off"@,
    )
}

/// The presets that ship with the program, in order.
pub open spec fn built_in_presets() -> Seq<PresetView> {
    seq![
        shipped_preset("Default MASQUE"@, "masq"@, "balanced"@, "v4"@, "firewall"@, "balanced"@, "off"@),
        shipped_preset("Fast WireGuard"@, "wg"@, "turbo"@, "v4"@, "firewall"@, "light"@, "off"@),
        shipped_preset("Stealth MASQUE"@, "masq"@, "stealth"@, "both"@, "gfw"@, "balanced"@, "auto"@),
        shipped_preset("WARP-in-WARP"@, "gool"@, "balanced"@, "v4"@, "firewall"@, "balanced"@, "off"@),
    ]
}

/// The name of the preset that a fresh store makes active.
pub open spec fn default_active_name() -> Seq<char> {
    "Default MASQUE"@
}

/// Whether `name` is the name of a shipped preset.
pub open spec fn is_built_in_name(name: Seq<char>) -> bool {
    exists|i: int| 0 <= i < built_in_presets().len() && #[trigger] built_in_presets()[i].name == name
}

fn shipped(
    name: &str,
    protocol: &str,
    scan_mode: &str,
    ip_version: &str,
    masque_obfuscation: &str,
    wg_obfuscation: &str,
    ech: &str,
) -> (p: Preset)
    ensures
        p@ == shipped_preset(
            name@,
            protocol@,
            scan_mode@,
            ip_version@,
            masque_obfuscation@,
            wg_obfuscation@,
            ech@,
        ),
{
    Preset {
        name: owned(name),
        protocol: owned(protocol),
        bind: owned("127.0.0.1:1819"),
        scan_mode: owned(scan_mode),
        ip_version: owned(ip_version),
        masque_obfuscation: owned(masque_obfuscation),
        wg_obfuscation: owned(wg_obfuscation),
        ech: owned(ech),
        peer: String::new(),
        config_path: owned("aether.toml"),
        wg_keepalive: 5,
        wg_no_profile_retry: false,
        verbose: false,
    }
}

impl Default for Preset {
    fn default() -> (r: Self)
        ensures
            r@ == default_preset(),
    {
        shipped("Default", "masq", "balanced", "v4", "firewall", "balanced", "off")
    }
}

/// Index of the first preset at or after `from` named `name`, or -1.
pub open spec fn index_named_from(ps: Seq<Preset>, name: Seq<char>, from: int) -> int
    decreases ps.len() - from,
{
    if from < 0 || from >= ps.len() {
        -1
    } else if ps[from].name@ == name {
        from
    } else {
        index_named_from(ps, name, from + 1)
    }
}

/// Index of the first preset named `name`, or -1 when there is none.
pub open spec fn index_named(ps: Seq<Preset>, name: Seq<char>) -> int {
    index_named_from(ps, name, 0)
}

/// Whether some preset is named `name`.
pub open spec fn has_name(ps: Seq<Preset>, name: Seq<char>) -> bool {
    exists|i: int| 0 <= i < ps.len() && #[trigger] ps[i].name@ == name
}

/// The presets that a deletion of `name` keeps.
pub open spec fn not_named(name: Seq<char>) -> spec_fn(Preset) -> bool {
    |p: Preset| p.name@ != name
}

/// `index_named_from` finds the first match, and only a match.
pub proof fn lemma_index_named_from(ps: Seq<Preset>, name: Seq<char>, from: int)
    requires
        0 <= from,
    ensures
        index_named_from(ps, name, from) == -1 || (from <= index_named_from(ps, name, from)
            < ps.len() && ps[index_named_from(ps, name, from)].name@ == name),
        forall|j: int|
            from <= j < ps.len() && (index_named_from(ps, name, from) == -1 || j
                < index_named_from(ps, name, from)) ==> ps[j].name@ != name,
    decreases ps.len() - from,
{
    if from < ps.len() && ps[from].name@ != name {
        lemma_index_named_from(ps, name, from + 1);
    }
}

/// The first preset named `name` is found exactly when some preset has that name.
pub proof fn lemma_index_named(ps: Seq<Preset>, name: Seq<char>)
    ensures
        index_named(ps, name) >= 0 <==> has_name(ps, name),
        index_named(ps, name) >= 0 ==> index_named(ps, name) < ps.len() && ps[index_named(
            ps,
            name,
        )].name@ == name,
        forall|j: int| 0 <= j < index_named(ps, name) ==> ps[j].name@ != name,
{
    lemma_index_named_from(ps, name, 0);
    if has_name(ps, name) {
        let i = choose|i: int| 0 <= i < ps.len() && #[trigger] ps[i].name@ == name;
        assert(ps[i].name@ == name);
    }
}

/// All presets together with the name of the active one.
#[derive(Debug)]
pub struct PresetStore {
    pub presets: Vec<Preset>,
    pub active: Option<String>,
}

/// Whether `active` names `name`.
pub open spec fn active_is(active: Option<String>, name: Seq<char>) -> bool {
    match active {
        Some(a) => a@ == name,
        None => false,
    }
}

/// A path given as where it starts and the relative components that are
/// joined onto it in order; the joining itself (`Path::join`, with the
/// platform's separators) is left to the caller.
#[derive(Debug)]
pub struct PathParts {
    pub base: String,
    pub components: Vec<String>,
}

impl View for PathParts {
    type V = (Seq<char>, Seq<Seq<char>>);

    open spec fn view(&self) -> (Seq<char>, Seq<Seq<char>>) {
        (self.base@, views(self.components@))
    }
}

/// The directory that holds the program's settings, from the values of
/// `XDG_CONFIG_HOME`, `HOME` and `APPDATA` (each `None` when unset): the first
/// of `$XDG_CONFIG_HOME` + `aether`, `$HOME` + `.config` + `aether`,
/// `$APPDATA` + `aether` whose variable is set, else the relative `aether`.
pub open spec fn config_dir(
    xdg: Option<Seq<char>>,
    home: Option<Seq<char>>,
    appdata: Option<Seq<char>>,
) -> (Seq<char>, Seq<Seq<char>>) {
    match xdg {
        Some(x) => (x, seq!["aether"@]),
        None => match home {
            Some(h) => (h, seq![".config"@, "aether"@]),
            None => match appdata {
                Some(a) => (a, seq!["aether"@]),
                None => ("aether"@, Seq::empty()),
            },
        },
    }
}

/// The view of an optional string argument.
pub open spec fn opt_view(s: Option<&str>) -> Option<Seq<char>> {
    match s {
        Some(v) => Some(v@),
        None => None,
    }
}

fn path_parts(base: &str, components: &[&str]) -> (r: PathParts)
    ensures
        r@ == (base@, components@.map_values(|c: &str| c@)),
{
    let mut v: Vec<String> = Vec::new();
    let n = components.len();
    let mut i: usize = 0;
    while i < n
        invariant
            n == components@.len(),
            i <= n,
            views(v@) == components@.take(i as int).map_values(|c: &str| c@),
        decreases n - i,
    {
        let ghost before = v@;
        v.push(owned(components[i]));
        assert(views(v@) =~= views(before).push(components@[i as int]@));
        assert(components@.take(i + 1) =~= components@.take(i as int).push(components@[i as int]));
        assert(views(v@) =~= components@.take(i + 1).map_values(|c: &str| c@));
        i = i + 1;
    }
    assert(components@.take(n as int) =~= components@);
    PathParts { base: owned(base), components: v }
}

/// The settings directory chosen from the environment values, which the
/// lookup always finds (see `config_dir`).
pub fn dirs(xdg: Option<&str>, home: Option<&str>, appdata: Option<&str>) -> (r: Option<PathParts>)
    ensures
        r matches Some(d) && d@ == config_dir(opt_view(xdg), opt_view(home), opt_view(appdata)),
{
    match xdg {
        Some(x) => {
            let parts = ["aether"];
            assert(parts@.map_values(|c: &str| c@) =~= seq!["aether"@]);
            return Some(path_parts(x, &parts));
        },
        None => {},
    }
    match home {
        Some(h) => {
            let parts = [".config", "aether"];
            assert(parts@.map_values(|c: &str| c@) =~= seq![".config"@, "aether"@]);
            return Some(path_parts(h, &parts));
        },
        None => {},
    }
    match appdata {
        Some(a) => {
            let parts = ["aether"];
            assert(parts@.map_values(|c: &str| c@) =~= seq!["aether"@]);
            return Some(path_parts(a, &parts));
        },
        None => {},
    }
    let parts: [&str; 0] = [];
    assert(parts@.map_values(|c: &str| c@) =~= Seq::<Seq<char>>::empty());
    Some(path_parts("aether", &parts))
}

impl Default for PresetStore {
    fn default() -> (r: Self)
        ensures
            r.presets@.map_values(|p: Preset| p@) == built_in_presets(),
            r.active matches Some(a) && a@ == default_active_name(),
    {
        PresetStore { presets: Self::built_in(), active: Some(owned("Default MASQUE")) }
    }
}

impl PresetStore {
    /// Whether this store is the one a first start creates: the shipped
    /// presets with the first of them active.
    pub open spec fn is_fresh(self) -> bool {
        &&& self.presets@.map_values(|p: Preset| p@) == built_in_presets()
        &&& self.active matches Some(a) && a@ == default_active_name()
    }

    /// Index of the preset that `active_preset` returns: the first preset
    /// named by `active`, or the first preset when `active` is `None` or names
    /// no preset.
    pub open spec fn active_index(self) -> int {
        match self.active {
            Some(a) => if index_named(self.presets@, a@) >= 0 {
                index_named(self.presets@, a@)
            } else {
                0
            },
            None => 0,
        }
    }

    /// The presets that ship with the program.
    pub fn built_in() -> (r: Vec<Preset>)
        ensures
            r@.map_values(|p: Preset| p@) == built_in_presets(),
    {
        let mut v: Vec<Preset> = Vec::new();
        v.push(shipped("Default MASQUE", "masq", "balanced", "v4", "firewall", "balanced", "off"));
        v.push(shipped("Fast WireGuard", "wg", "turbo", "v4", "firewall", "light", "off"));
        v.push(shipped("Stealth MASQUE", "masq", "stealth", "both", "gfw", "balanced", "auto"));
        v.push(shipped("WARP-in-WARP", "gool", "balanced", "v4", "firewall", "balanced", "off"));
        assert(v@.map_values(|p: Preset| p@) =~= built_in_presets());
        v
    }

    /// The file that holds the presets: `presets.toml` joined onto the
    /// settings directory chosen from `XDG_CONFIG_HOME`, `HOME` and `APPDATA`
    /// (the caller reads the environment and passes each value, `None` when
    /// unset).
    pub fn config_path(xdg: Option<&str>, home: Option<&str>, appdata: Option<&str>) -> (r:
        PathParts)
        ensures
            r@.0 == config_dir(opt_view(xdg), opt_view(home), opt_view(appdata)).0,
            r@.1 == config_dir(opt_view(xdg), opt_view(home), opt_view(appdata)).1.push(
                "presets.toml"@,
            ),
    {
        let mut dir = match dirs(xdg, home, appdata) {
            Some(d) => d,
            None => PathParts { base: owned("."), components: Vec::new() },
        };
        let ghost before = dir.components@;
        dir.components.push(owned("presets.toml"));
        assert(views(dir.components@) =~= views(before).push("presets.toml"@));
        dir
    }

    /// The store that a start-up uses: the one read from the presets file
    /// (`parsed`, `None` when the file is missing, unreadable or malformed),
    /// else a fresh one.
    pub fn load(parsed: Option<PresetStore>) -> (r: PresetStore)
        ensures
            match parsed {
                Some(s) => r == s,
                None => r.is_fresh(),
            },
    {
        match parsed {
            Some(s) => s,
            None => Self::default(),
        }
    }

    /// The active preset: the first preset whose name is `active`, else the
    /// first preset.
    pub fn active_preset(&self) -> (r: &Preset)
        requires
            self.presets@.len() > 0,
        ensures
            0 <= self.active_index() < self.presets@.len(),
            *r == self.presets@[self.active_index()],
            match self.active {
                Some(a) => has_name(self.presets@, a@) ==> r.name@ == a@,
                None => true,
            },
    {
        proof {
            if let Some(a) = &self.active {
                lemma_index_named(self.presets@, a@);
            }
        }
        match &self.active {
            Some(name) => {
                let n = self.presets.len();
                let mut i: usize = 0;
                while i < n
                    invariant
                        n == self.presets@.len(),
                        i <= n,
                        self.active == Some(*name),
                        index_named(self.presets@, name@) == index_named_from(
                            self.presets@,
                            name@,
                            i as int,
                        ),
                    decreases n - i,
                {
                    if self.presets[i].name == *name {
                        return &self.presets[i];
                    }
                    i = i + 1;
                }
                &self.presets[0]
            },
            None => &self.presets[0],
        }
    }

    /// Removes every preset named `name`. Returns whether there was one; when
    /// there was and it was the active one, the first remaining preset (if
    /// any) becomes active.
    pub fn delete(&mut self, name: &str) -> (existed: bool)
        ensures
            existed == has_name(old(self).presets@, name@),
            final(self).presets@ == old(self).presets@.filter(not_named(name@)),
            !has_name(final(self).presets@, name@),
            final(self).active == if existed && active_is(old(self).active, name@) {
                if final(self).presets@.len() > 0 {
                    Some(final(self).presets@[0].name)
                } else {
                    None
                }
            } else {
                old(self).active
            },
    {
        let ghost orig = self.presets@;
        let n = self.presets.len();
        let mut found = false;
        let mut i: usize = 0;
        while i < n
            invariant
                n == orig.len(),
                self.presets@ == orig,
                i <= n,
                found == exists|j: int| 0 <= j < i && #[trigger] orig[j].name@ == name@,
            decreases n - i,
        {
            if str_eq(self.presets[i].name.as_str(), name) {
                found = true;
            }
            i = i + 1;
        }
        if !found {
            assert(orig.filter(not_named(name@)) =~= orig) by {
                lemma_filter_keeps_all(orig, not_named(name@));
            }
            return false;
        }
        let mut rest: Vec<Preset> = Vec::new();
        std::mem::swap(&mut rest, &mut self.presets);
        let mut kept: Vec<Preset> = Vec::new();
        while rest.len() > 0
            invariant
                rest@.len() <= orig.len(),
                rest@ == orig.skip(orig.len() - rest@.len()),
                kept@ == orig.take(orig.len() - rest@.len()).filter(not_named(name@)),
            decreases rest@.len(),
        {
            let ghost k = orig.len() - rest@.len();
            let p = rest.remove(0);
            assert(p == orig[k]);
            assert(orig.take(k + 1).drop_last() =~= orig.take(k));
            proof {
                reveal_with_fuel(Seq::filter, 1);
            }
            if !str_eq(p.name.as_str(), name) {
                kept.push(p);
            }
            assert(rest@ =~= orig.skip(orig.len() - rest@.len()));
        }
        assert(orig.take(orig.len() as int) =~= orig);
        self.presets = kept;
        proof {
            broadcast use Seq::lemma_filter_pred;

            assert forall|j: int| 0 <= j < self.presets@.len() implies #[trigger] self.presets@[j].name@ != name@ by {
                assert(not_named(name@)(orig.filter(not_named(name@))[j]));
            }
        }
        let active_deleted = match &self.active {
            Some(a) => str_eq(a.as_str(), name),
            None => false,
        };
        if active_deleted {
            if self.presets.len() > 0 {
                self.active = Some(self.presets[0].name.clone());
            } else {
                self.active = None;
            }
        }
        true
    }
}

/// Deleting a name twice is the same as deleting it once: after the first
/// deletion no preset has that name, so the second finds nothing and keeps
/// every preset.
pub proof fn law_delete_twice(ps: Seq<Preset>, name: Seq<char>)
    ensures
        !has_name(ps.filter(not_named(name)), name),
        ps.filter(not_named(name)).filter(not_named(name)) == ps.filter(not_named(name)),
{
    let once = ps.filter(not_named(name));
    assert forall|i: int| 0 <= i < once.len() implies not_named(name)(#[trigger] once[i]) by {
        ps.lemma_filter_pred(not_named(name), i);
    }
    lemma_filter_keeps_all(once, not_named(name));
}

/// Deleting a name that no preset has keeps every preset, in order.
pub proof fn law_delete_absent(ps: Seq<Preset>, name: Seq<char>)
    requires
        !has_name(ps, name),
    ensures
        ps.filter(not_named(name)) == ps,
{
    assert forall|i: int| 0 <= i < ps.len() implies not_named(name)(#[trigger] ps[i]) by {
        assert(ps[i].name@ != name);
    }
    lemma_filter_keeps_all(ps, not_named(name));
}

/// Deleting a name removes exactly the presets of that name: every preset
/// with another name stays, and every remaining preset was there before.
pub proof fn law_delete_keeps_others(ps: Seq<Preset>, name: Seq<char>)
    ensures
        forall|i: int|
            0 <= i < ps.len() && ps[i].name@ != name ==> #[trigger] ps.filter(
                not_named(name),
            ).contains(ps[i]),
        forall|j: int|
            0 <= j < ps.filter(not_named(name)).len() ==> ps.contains(
                #[trigger] ps.filter(not_named(name))[j],
            ),
{
    broadcast use Seq::lemma_filter_contains, Seq::lemma_filter_contains_rev;

    assert forall|j: int| 0 <= j < ps.filter(not_named(name)).len() implies ps.contains(
        #[trigger] ps.filter(not_named(name))[j],
    ) by {
        let x = ps.filter(not_named(name))[j];
        assert(ps.filter(not_named(name)).contains(x));
    }
}

/// A fresh store makes the shipped `Default MASQUE` preset, the first one,
/// the active preset.
pub proof fn law_fresh_store_active(s: PresetStore)
    requires
        s.is_fresh(),
    ensures
        s.presets@.len() == 4,
        s.active_index() == 0,
        s.presets@[0]@ == built_in_presets()[0],
        s.presets@[0].name@ == default_active_name(),
{
    assert(built_in_presets().len() == 4);
    assert(s.presets@.map_values(|p: Preset| p@).len() == s.presets@.len());
    assert(s.presets@.map_values(|p: Preset| p@)[0] == s.presets@[0]@);
    assert(s.active_index() == 0) by {
        lemma_index_named(s.presets@, default_active_name());
    }
}

/// When the active name is that of the first preset, the first preset is
/// the active one; this is the state a deletion of the active preset leaves
/// behind when presets remain.
pub proof fn law_first_active(s: PresetStore)
    requires
        s.presets@.len() > 0,
        s.active == Some(s.presets@[0].name),
    ensures
        s.active_index() == 0,
{
    lemma_index_named(s.presets@, s.presets@[0].name@);
}

/// The shipped presets have four different names.
pub proof fn law_built_in_names_distinct()
    ensures
        built_in_presets().len() == 4,
        forall|i: int, j: int|
            0 <= i < j < 4 ==> #[trigger] built_in_presets()[i].name != #[trigger] built_in_presets()[j].name,
{
    reveal_strlit("Default MASQUE");
    reveal_strlit("Fast WireGuard");
    reveal_strlit("Stealth MASQUE");
    reveal_strlit("WARP-in-WARP");
    assert(built_in_presets()[0].name[0] != built_in_presets()[1].name[0]);
    assert(built_in_presets()[0].name[1] != built_in_presets()[2].name[1]);
    assert(built_in_presets()[0].name[0] != built_in_presets()[3].name[0]);
    assert(built_in_presets()[1].name[0] != built_in_presets()[2].name[0]);
    assert(built_in_presets()[1].name[0] != built_in_presets()[3].name[0]);
    assert(built_in_presets()[2].name[0] != built_in_presets()[3].name[0]);
}

/// Whether `s` ends with `suffix`.
pub open spec fn ends_with(s: Seq<char>, suffix: Seq<char>) -> bool {
    s.len() >= suffix.len() && s.subrange(s.len() - suffix.len(), s.len() as int) == suffix
}

/// Whether `s` starts with `prefix`.
pub open spec fn starts_with(s: Seq<char>, prefix: Seq<char>) -> bool {
    s.len() >= prefix.len() && s.take(prefix.len() as int) == prefix
}

/// The shipped presets are what their names say: a MASQUE preset uses the
/// MASQUE protocol (`masq`), the WireGuard preset `wg`, WARP-in-WARP `gool`;
/// the fast one scans in `turbo` mode with light WireGuard obfuscation, the
/// stealthy one scans quietly over both IP versions with GFW obfuscation and
/// ECH on; the first is the default preset under its shipped name; and every
/// setting is one the command line's help offers.
pub proof fn law_shipped_presets_match_names()
    ensures
        built_in_presets().len() == 4,
        built_in_presets()[0].name == "Default MASQUE"@,
        built_in_presets()[1].name == "Fast WireGuard"@,
        built_in_presets()[2].name == "Stealth MASQUE"@,
        built_in_presets()[3].name == "WARP-in-WARP"@,
        built_in_presets()[0] == (PresetView { name: "Default MASQUE"@, ..default_preset() }),
        forall|i: int|
            0 <= i < 4 ==> {
                let p = #[trigger] built_in_presets()[i];
                &&& ends_with(p.name, "MASQUE"@) ==> p.protocol == "masq"@
                &&& ends_with(p.name, "WireGuard"@) ==> p.protocol == "wg"@
                &&& p.name == "WARP-in-WARP"@ ==> p.protocol == "gool"@
                &&& starts_with(p.name, "Fast"@) ==> p.scan_mode == "turbo"@ && p.wg_obfuscation
                    == "light"@
                &&& starts_with(p.name, "Stealth"@) ==> p.scan_mode == "stealth"@ && p.ip_version
                    == "both"@ && p.masque_obfuscation == "gfw"@ && p.ech == "auto"@
                &&& p.protocol == "masq"@ || p.protocol == "wg"@ || p.protocol == "gool"@
                &&& p.scan_mode == "turbo"@ || p.scan_mode == "balanced"@ || p.scan_mode
                    == "thorough"@ || p.scan_mode == "stealth"@
                &&& p.ip_version == "v4"@ || p.ip_version == "v6"@ || p.ip_version == "both"@
                &&& p.masque_obfuscation == "off"@ || p.masque_obfuscation == "gfw"@
                    || p.masque_obfuscation == "firewall"@
                &&& p.wg_obfuscation == "off"@ || p.wg_obfuscation == "light"@ || p.wg_obfuscation
                    == "balanced"@ || p.wg_obfuscation == "aggressive"@
                &&& p.ech == "off"@ || p.ech == "auto"@
                &&& p.bind == default_preset().bind && p.peer == default_preset().peer
                &&& p.config_path == default_preset().config_path
                &&& p.wg_keepalive == default_preset().wg_keepalive
                &&& !p.wg_no_profile_retry && !p.verbose
            },
{
    reveal_strlit("Default MASQUE");
    reveal_strlit("Fast WireGuard");
    reveal_strlit("Stealth MASQUE");
    reveal_strlit("WARP-in-WARP");
    reveal_strlit("MASQUE");
    reveal_strlit("WireGuard");
    reveal_strlit("Fast");
    reveal_strlit("Stealth");
    reveal_strlit("masq");
    reveal_strlit("wg");
    reveal_strlit("gool");
    reveal_strlit("turbo");
    reveal_strlit("balanced");
    reveal_strlit("thorough");
    reveal_strlit("stealth");
    reveal_strlit("v4");
    reveal_strlit("v6");
    reveal_strlit("both");
    reveal_strlit("off");
    reveal_strlit("gfw");
    reveal_strlit("firewall");
    reveal_strlit("light");
    reveal_strlit("aggressive");
    reveal_strlit("auto");
    reveal_strlit("Default");
    let b = built_in_presets();
    assert(b[0].name.subrange(8, 14) =~= "MASQUE"@);
    assert(b[2].name.subrange(8, 14) =~= "MASQUE"@);
    assert(b[1].name.subrange(5, 14) =~= "WireGuard"@);
    assert(b[1].name.take(4) =~= "Fast"@);
    assert(b[2].name.take(7) =~= "Stealth"@);
    assert(b[1].name.subrange(8, 14) != "MASQUE"@) by {
        assert(b[1].name.subrange(8, 14)[0] != "MASQUE"@[0]);
    }
    assert(b[3].name.subrange(6, 12) != "MASQUE"@) by {
        assert(b[3].name.subrange(6, 12)[0] != "MASQUE"@[0]);
    }
    assert(b[0].name.subrange(5, 14) != "WireGuard"@) by {
        assert(b[0].name.subrange(5, 14)[0] != "WireGuard"@[0]);
    }
    assert(b[2].name.subrange(5, 14) != "WireGuard"@) by {
        assert(b[2].name.subrange(5, 14)[0] != "WireGuard"@[0]);
    }
    assert(b[3].name.subrange(3, 12) != "WireGuard"@) by {
        assert(b[3].name.subrange(3, 12)[0] != "WireGuard"@[0]);
    }
    assert(b[0].name.take(4) != "Fast"@) by {
        assert(b[0].name.take(4)[0] != "Fast"@[0]);
    }
    assert(b[2].name.take(4) != "Fast"@) by {
        assert(b[2].name.take(4)[0] != "Fast"@[0]);
    }
    assert(b[3].name.take(4) != "Fast"@) by {
        assert(b[3].name.take(4)[0] != "Fast"@[0]);
    }
    assert(b[0].name.take(7) != "Stealth"@) by {
        assert(b[0].name.take(7)[0] != "Stealth"@[0]);
    }
    assert(b[1].name.take(7) != "Stealth"@) by {
        assert(b[1].name.take(7)[0] != "Stealth"@[0]);
    }
    assert(b[3].name.take(7) != "Stealth"@) by {
        assert(b[3].name.take(7)[0] != "Stealth"@[0]);
    }
    assert(b[0].name != "WARP-in-WARP"@) by {
        assert(b[0].name.len() != "WARP-in-WARP"@.len());
    }
    assert(b[1].name != "WARP-in-WARP"@) by {
        assert(b[1].name.len() != "WARP-in-WARP"@.len());
    }
    assert(b[2].name != "WARP-in-WARP"@) by {
        assert(b[2].name.len() != "WARP-in-WARP"@.len());
    }
}

/// The default preset holds the defaults that the command line's help gives:
/// listen on `127.0.0.1:1819`, protocol `masq`, scan `balanced`, base
/// configuration `aether.toml`, IP `v4`, MASQUE obfuscation `firewall`,
/// WireGuard obfuscation `balanced`, ECH `off`, keepalive 5 s, no forced
/// peer, profile retries on and quiet logging.
pub proof fn law_default_preset_matches_help()
    ensures
        default_preset().bind == "127.0.0.1:1819"@,
        default_preset().protocol == "masq"@,
        default_preset().scan_mode == "balanced"@,
        default_preset().config_path == "aether.toml"@,
        default_preset().ip_version == "v4"@,
        default_preset().masque_obfuscation == "firewall"@,
        default_preset().wg_obfuscation == "balanced"@,
        default_preset().ech == "off"@,
        default_preset().wg_keepalive == 5,
        default_preset().peer.len() == 0,
        !default_preset().wg_no_profile_retry,
        !default_preset().verbose,
{
}

/// A filter whose predicate holds of every element keeps the sequence whole.
proof fn lemma_filter_keeps_all(s: Seq<Preset>, pred: spec_fn(Preset) -> bool)
    requires
        forall|i: int| 0 <= i < s.len() ==> pred(#[trigger] s[i]),
    ensures
        s.filter(pred) == s,
    decreases s.len(),
{
    reveal_with_fuel(Seq::filter, 1);
    if s.len() > 0 {
        lemma_filter_keeps_all(s.drop_last(), pred);
        assert(s.drop_last().push(s.last()) =~= s);
    }
}

} // verus!
