//! Command-line options.

use vstd::prelude::*;

use crate::text::{
    find_char,
    lemma_find_char,
    parse_u16,
    spec_parse_u16,
    split_once,
    split_once_char,
    str_eq,
    views,
};

verus! {

/// Options given on the command line; `None` and `false` where a flag is absent.
#[derive(Debug)]
pub struct Cli {
    pub bind: Option<String>,
    pub mode: Option<String>,
    pub scan: Option<String>,
    pub config: Option<String>,
    pub ip: Option<String>,
    pub noize: Option<String>,
    pub aethernoize: Option<String>,
    pub peer: Option<String>,
    pub ech: Option<String>,
    pub wg_keepalive: Option<u16>,
    pub wg_no_profile_retry: bool,
    pub verbose: bool,
    pub gui: bool,
    pub cli: bool,
    pub tun: bool,
    pub allow_lan: bool,
    pub auth: Option<(String, String)>,
}

/// The options with their strings as character sequences.
pub struct CliView {
    pub bind: Option<Seq<char>>,
    pub mode: Option<Seq<char>>,
    pub scan: Option<Seq<char>>,
    pub config: Option<Seq<char>>,
    pub ip: Option<Seq<char>>,
    pub noize: Option<Seq<char>>,
    pub aethernoize: Option<Seq<char>>,
    pub peer: Option<Seq<char>>,
    pub ech: Option<Seq<char>>,
    pub wg_keepalive: Option<u16>,
    pub wg_no_profile_retry: bool,
    pub verbose: bool,
    pub gui: bool,
    pub cli: bool,
    pub tun: bool,
    pub allow_lan: bool,
    pub auth: Option<(Seq<char>, Seq<char>)>,
}

/// The view of an optional string.
pub open spec fn opt_seq(o: Option<String>) -> Option<Seq<char>> {
    match o {
        Some(s) => Some(s@),
        None => None,
    }
}

impl View for Cli {
    type V = CliView;

    open spec fn view(&self) -> CliView {
        CliView {
            bind: opt_seq(self.bind),
            mode: opt_seq(self.mode),
            scan: opt_seq(self.scan),
            config: opt_seq(self.config),
            ip: opt_seq(self.ip),
            noize: opt_seq(self.noize),
            aethernoize: opt_seq(self.aethernoize),
            peer: opt_seq(self.peer),
            ech: opt_seq(self.ech),
            wg_keepalive: self.wg_keepalive,
            wg_no_profile_retry: self.wg_no_profile_retry,
            verbose: self.verbose,
            gui: self.gui,
            cli: self.cli,
            tun: self.tun,
            allow_lan: self.allow_lan,
            auth: match self.auth {
                Some((u, p)) => Some((u@, p@)),
                None => None,
            },
        }
    }
}

/// The options before any flag is read.
pub open spec fn no_options() -> CliView {
    CliView {
        bind: None,
        mode: None,
        scan: None,
        config: None,
        ip: None,
        noize: None,
        aethernoize: None,
        peer: None,
        ech: None,
        wg_keepalive: None,
        wg_no_profile_retry: false,
        verbose: false,
        gui: false,
        cli: false,
        tun: false,
        allow_lan: false,
        auth: None,
    }
}

/// The flags that the command line knows.
#[derive(Debug, Clone, Copy)]
pub enum Flag {
    Help,
    Verbose,
    Bind,
    Mode,
    Scan,
    Config,
    Ip,
    Noize,
    AetherNoize,
    Peer,
    Ech,
    WgKeepalive,
    WgNoProfileRetry,
    Gui,
    Cli,
    Tun,
    AllowLan,
    Auth,
    Unknown,
}

/// Which flag an argument spells.
pub open spec fn flag_of(a: Seq<char>) -> Flag {
    if a == "-h"@ || a == "--help"@ {
        Flag::Help
    } else if a == "-v"@ || a == "--verbose"@ {
        Flag::Verbose
    } else if a == "-b"@ || a == "--bind"@ {
        Flag::Bind
    } else if a == "-m"@ || a == "--mode"@ {
        Flag::Mode
    } else if a == "-s"@ || a == "--scan"@ {
        Flag::Scan
    } else if a == "-c"@ || a == "--config"@ {
        Flag::Config
    } else if a == "--ip"@ {
        Flag::Ip
    } else if a == "--noize"@ {
        Flag::Noize
    } else if a == "--aethernoize"@ {
        Flag::AetherNoize
    } else if a == "--peer"@ {
        Flag::Peer
    } else if a == "--ech"@ {
        Flag::Ech
    } else if a == "--wg-keepalive"@ {
        Flag::WgKeepalive
    } else if a == "--wg-no-profile-retry"@ {
        Flag::WgNoProfileRetry
    } else if a == "--gui"@ {
        Flag::Gui
    } else if a == "--cli"@ {
        Flag::Cli
    } else if a == "--tun"@ {
        Flag::Tun
    } else if a == "--allow-lan"@ {
        Flag::AllowLan
    } else if a == "--auth"@ {
        Flag::Auth
    } else {
        Flag::Unknown
    }
}

/// Whether a flag reads the argument that follows it.
pub open spec fn takes_value(f: Flag) -> bool {
    match f {
        Flag::Bind | Flag::Mode | Flag::Scan | Flag::Config | Flag::Ip | Flag::Noize
        | Flag::AetherNoize | Flag::Peer | Flag::Ech | Flag::WgKeepalive | Flag::Auth => true,
        _ => false,
    }
}

/// The options after a flag that takes no value.
pub open spec fn with_switch(c: CliView, f: Flag) -> CliView {
    match f {
        Flag::Verbose => CliView { verbose: true, ..c },
        Flag::WgNoProfileRetry => CliView { wg_no_profile_retry: true, ..c },
        Flag::Gui => CliView { gui: true, ..c },
        Flag::Cli => CliView { cli: true, ..c },
        Flag::Tun => CliView { tun: true, ..c },
        Flag::AllowLan => CliView { allow_lan: true, ..c },
        _ => c,
    }
}

/// The options after a flag that reads `v`, the argument that follows it
/// (`None` when the flag is last). A string option takes `v` as it is, so a
/// missing value clears it; the keepalive takes `v` parsed as a `u16`, `None`
/// when it does not parse; `--auth` takes `v` split at its first `:`, and
/// stays as it was when `v` is missing or has no `:`.
pub open spec fn with_value(c: CliView, f: Flag, v: Option<Seq<char>>) -> CliView {
    match f {
        Flag::Bind => CliView { bind: v, ..c },
        Flag::Mode => CliView { mode: v, ..c },
        Flag::Scan => CliView { scan: v, ..c },
        Flag::Config => CliView { config: v, ..c },
        Flag::Ip => CliView { ip: v, ..c },
        Flag::Noize => CliView { noize: v, ..c },
        Flag::AetherNoize => CliView { aethernoize: v, ..c },
        Flag::Peer => CliView { peer: v, ..c },
        Flag::Ech => CliView { ech: v, ..c },
        Flag::WgKeepalive => CliView {
            wg_keepalive: match v {
                Some(s) => spec_parse_u16(s),
                None => None,
            },
            ..c
        },
        Flag::Auth => match v {
            Some(s) => match split_once(s, ':') {
                Some(pair) => CliView { auth: Some(pair), ..c },
                None => c,
            },
            None => c,
        },
        _ => c,
    }
}

/// What reading the command line gives.
pub enum CliOutcome {
    /// All arguments were read; run with these options.
    Run(Cli),
    /// `-h` or `--help` was met: print the help and stop.
    Help,
    /// An argument that is no flag was met where a flag was expected.
    UnknownFlag(String),
}

/// What reading the command line gives, with strings as character sequences.
pub enum CliOutcomeView {
    Run(CliView),
    Help,
    UnknownFlag(Seq<char>),
}

impl View for CliOutcome {
    type V = CliOutcomeView;

    open spec fn view(&self) -> CliOutcomeView {
        match self {
            CliOutcome::Run(c) => CliOutcomeView::Run(c@),
            CliOutcome::Help => CliOutcomeView::Help,
            CliOutcome::UnknownFlag(s) => CliOutcomeView::UnknownFlag(s@),
        }
    }
}

/// The argument at `j`, if there is one.
pub open spec fn arg_at(args: Seq<Seq<char>>, j: int) -> Option<Seq<char>> {
    if 0 <= j < args.len() {
        Some(args[j])
    } else {
        None
    }
}

/// Reading `args` from position `i` on with options `c` so far. Arguments are
/// read left to right; a help flag stops with `Help`, an unknown argument
/// stops with `UnknownFlag`, a flag with a value consumes the next argument
/// whatever it is.
pub open spec fn parse_from(args: Seq<Seq<char>>, i: int, c: CliView) -> CliOutcomeView
    decreases args.len() + 1 - i,
{
    if i < 0 || i >= args.len() {
        CliOutcomeView::Run(c)
    } else {
        let f = flag_of(args[i]);
        match f {
            Flag::Help => CliOutcomeView::Help,
            Flag::Unknown => CliOutcomeView::UnknownFlag(args[i]),
            _ => if takes_value(f) {
                parse_from(args, i + 2, with_value(c, f, arg_at(args, i + 1)))
            } else {
                parse_from(args, i + 1, with_switch(c, f))
            },
        }
    }
}

/// Reading the whole command line (without the program name).
pub open spec fn parse_spec(args: Seq<Seq<char>>) -> CliOutcomeView {
    parse_from(args, 0, no_options())
}

/// Whether reading stops at flag `f` (help, or an argument that is no flag).
pub open spec fn stops(f: Flag) -> bool {
    match f {
        Flag::Help | Flag::Unknown => true,
        _ => false,
    }
}

/// The position reading goes on at after the flag at `i`.
pub open spec fn next_position(args: Seq<Seq<char>>, i: int) -> int {
    if takes_value(flag_of(args[i])) {
        i + 2
    } else {
        i + 1
    }
}

/// Whether reading from `from` gets to position `i`: every flag read on the
/// way neither stops the reading nor is skipped as the value of another.
pub open spec fn reaches(args: Seq<Seq<char>>, from: int, i: int) -> bool
    decreases args.len() + 1 - from,
{
    if from == i {
        true
    } else if 0 <= from < args.len() && from < i && !stops(flag_of(args[from])) {
        reaches(args, next_position(args, from), i)
    } else {
        false
    }
}

/// What reading ends with at an argument that stops it.
pub open spec fn stop_outcome(a: Seq<char>) -> CliOutcomeView {
    match flag_of(a) {
        Flag::Help => CliOutcomeView::Help,
        _ => CliOutcomeView::UnknownFlag(a),
    }
}

proof fn lemma_reading_stops(args: Seq<Seq<char>>, from: int, i: int, c: CliView)
    requires
        0 <= from,
        reaches(args, from, i),
        0 <= i < args.len(),
        stops(flag_of(args[i])),
    ensures
        parse_from(args, from, c) == stop_outcome(args[i]),
    decreases args.len() + 1 - from,
{
    if from != i {
        let f = flag_of(args[from]);
        if takes_value(f) {
            lemma_reading_stops(args, from + 2, i, with_value(c, f, arg_at(args, from + 1)));
        } else {
            lemma_reading_stops(args, from + 1, i, with_switch(c, f));
        }
    }
}

proof fn lemma_reading_runs(args: Seq<Seq<char>>, from: int, e: int, c: CliView)
    requires
        0 <= from,
        reaches(args, from, e),
        e >= args.len(),
    ensures
        parse_from(args, from, c) is Run,
    decreases args.len() + 1 - from,
{
    if from != e {
        let f = flag_of(args[from]);
        if takes_value(f) {
            lemma_reading_runs(args, from + 2, e, with_value(c, f, arg_at(args, from + 1)));
        } else {
            lemma_reading_runs(args, from + 1, e, with_switch(c, f));
        }
    }
}

/// The first argument that reading meets and that is no flag ends the
/// reading with that argument reported, whatever follows it.
pub proof fn law_unknown_flag_stops(args: Seq<Seq<char>>, i: int)
    requires
        reaches(args, 0, i),
        0 <= i < args.len(),
        flag_of(args[i]) == Flag::Unknown,
    ensures
        parse_spec(args) == CliOutcomeView::UnknownFlag(args[i]),
{
    lemma_reading_stops(args, 0, i, no_options());
}

/// A help flag that reading meets ends the reading with help, whatever
/// follows it, an argument that is no flag included.
pub proof fn law_help_stops(args: Seq<Seq<char>>, i: int)
    requires
        reaches(args, 0, i),
        0 <= i < args.len(),
        flag_of(args[i]) == Flag::Help,
    ensures
        parse_spec(args) == CliOutcomeView::Help,
{
    lemma_reading_stops(args, 0, i, no_options());
}

/// When reading gets past the last argument, it ends with options to run.
pub proof fn law_reading_completes(args: Seq<Seq<char>>, e: int)
    requires
        reaches(args, 0, e),
        e >= args.len(),
    ensures
        parse_spec(args) is Run,
{
    lemma_reading_runs(args, 0, e, no_options());
}

/// The flags of the help text: each spelling, short or long, names the flag
/// its help line gives it.
pub proof fn law_flag_spellings()
    ensures
        flag_of("-h"@) == Flag::Help,
        flag_of("--help"@) == Flag::Help,
        flag_of("-v"@) == Flag::Verbose,
        flag_of("--verbose"@) == Flag::Verbose,
        flag_of("-b"@) == Flag::Bind,
        flag_of("--bind"@) == Flag::Bind,
        flag_of("-m"@) == Flag::Mode,
        flag_of("--mode"@) == Flag::Mode,
        flag_of("-s"@) == Flag::Scan,
        flag_of("--scan"@) == Flag::Scan,
        flag_of("-c"@) == Flag::Config,
        flag_of("--config"@) == Flag::Config,
        flag_of("--ip"@) == Flag::Ip,
        flag_of("--noize"@) == Flag::Noize,
        flag_of("--aethernoize"@) == Flag::AetherNoize,
        flag_of("--peer"@) == Flag::Peer,
        flag_of("--ech"@) == Flag::Ech,
        flag_of("--wg-keepalive"@) == Flag::WgKeepalive,
        flag_of("--wg-no-profile-retry"@) == Flag::WgNoProfileRetry,
        flag_of("--gui"@) == Flag::Gui,
        flag_of("--cli"@) == Flag::Cli,
        flag_of("--tun"@) == Flag::Tun,
        flag_of("--allow-lan"@) == Flag::AllowLan,
        flag_of("--auth"@) == Flag::Auth,
{
    reveal_strlit("-h");
    reveal_strlit("--help");
    reveal_strlit("-v");
    reveal_strlit("--verbose");
    reveal_strlit("-b");
    reveal_strlit("--bind");
    reveal_strlit("-m");
    reveal_strlit("--mode");
    reveal_strlit("-s");
    reveal_strlit("--scan");
    reveal_strlit("-c");
    reveal_strlit("--config");
    reveal_strlit("--ip");
    reveal_strlit("--noize");
    reveal_strlit("--aethernoize");
    reveal_strlit("--peer");
    reveal_strlit("--ech");
    reveal_strlit("--wg-keepalive");
    reveal_strlit("--wg-no-profile-retry");
    reveal_strlit("--gui");
    reveal_strlit("--cli");
    reveal_strlit("--tun");
    reveal_strlit("--allow-lan");
    reveal_strlit("--auth");
    assert("-h"@.len() == 2);
    assert("-h"@[1] == 'h');
    assert("--help"@.len() == 6);
    assert("--help"@[1] == '-');
    assert("--help"@[2] == 'h');
    assert("-v"@.len() == 2);
    assert("-v"@[1] == 'v');
    assert("--verbose"@.len() == 9);
    assert("--verbose"@[1] == '-');
    assert("--verbose"@[2] == 'v');
    assert("-b"@.len() == 2);
    assert("-b"@[1] == 'b');
    assert("--bind"@.len() == 6);
    assert("--bind"@[1] == '-');
    assert("--bind"@[2] == 'b');
    assert("-m"@.len() == 2);
    assert("-m"@[1] == 'm');
    assert("--mode"@.len() == 6);
    assert("--mode"@[1] == '-');
    assert("--mode"@[2] == 'm');
    assert("-s"@.len() == 2);
    assert("-s"@[1] == 's');
    assert("--scan"@.len() == 6);
    assert("--scan"@[1] == '-');
    assert("--scan"@[2] == 's');
    assert("-c"@.len() == 2);
    assert("-c"@[1] == 'c');
    assert("--config"@.len() == 8);
    assert("--config"@[1] == '-');
    assert("--config"@[2] == 'c');
    assert("--ip"@.len() == 4);
    assert("--ip"@[1] == '-');
    assert("--ip"@[2] == 'i');
    assert("--noize"@.len() == 7);
    assert("--noize"@[1] == '-');
    assert("--noize"@[2] == 'n');
    assert("--aethernoize"@.len() == 13);
    assert("--aethernoize"@[1] == '-');
    assert("--aethernoize"@[2] == 'a');
    assert("--peer"@.len() == 6);
    assert("--peer"@[1] == '-');
    assert("--peer"@[2] == 'p');
    assert("--ech"@.len() == 5);
    assert("--ech"@[1] == '-');
    assert("--ech"@[2] == 'e');
    assert("--wg-keepalive"@.len() == 14);
    assert("--wg-keepalive"@[1] == '-');
    assert("--wg-keepalive"@[2] == 'w');
    assert("--wg-no-profile-retry"@.len() == 21);
    assert("--wg-no-profile-retry"@[1] == '-');
    assert("--wg-no-profile-retry"@[2] == 'w');
    assert("--gui"@.len() == 5);
    assert("--gui"@[1] == '-');
    assert("--gui"@[2] == 'g');
    assert("--cli"@.len() == 5);
    assert("--cli"@[1] == '-');
    assert("--cli"@[2] == 'c');
    assert("--tun"@.len() == 5);
    assert("--tun"@[1] == '-');
    assert("--tun"@[2] == 't');
    assert("--allow-lan"@.len() == 11);
    assert("--allow-lan"@[1] == '-');
    assert("--allow-lan"@[2] == 'a');
    assert("--auth"@.len() == 6);
    assert("--auth"@[1] == '-');
    assert("--auth"@[2] == 'a');
}

/// Reading two argument lists that agree from position `i` on, with the same
/// options so far, gives the same outcome.
proof fn lemma_same_tail(a: Seq<Seq<char>>, b: Seq<Seq<char>>, i: int, c: CliView)
    requires
        0 <= i,
        a.len() == b.len(),
        forall|j: int| i <= j < a.len() ==> a[j] == b[j],
    ensures
        parse_from(a, i, c) == parse_from(b, i, c),
    decreases a.len() + 1 - i,
{
    if i < a.len() {
        let f = flag_of(a[i]);
        if !stops(f) {
            if takes_value(f) {
                assert(arg_at(a, i + 1) == arg_at(b, i + 1));
                lemma_same_tail(a, b, i + 2, with_value(c, f, arg_at(a, i + 1)));
            } else {
                lemma_same_tail(a, b, i + 1, with_switch(c, f));
            }
        }
    }
}

/// A command line that starts with a short flag reads exactly as the same
/// line starting with the flag's long form: `-h`/`--help`, `-v`/`--verbose`,
/// `-b`/`--bind`, `-m`/`--mode`, `-s`/`--scan`, `-c`/`--config`.
pub proof fn law_short_flags_read_as_long(rest: Seq<Seq<char>>)
    ensures
        parse_spec(seq!["-h"@] + rest) == parse_spec(seq!["--help"@] + rest),
        parse_spec(seq!["-v"@] + rest) == parse_spec(seq!["--verbose"@] + rest),
        parse_spec(seq!["-b"@] + rest) == parse_spec(seq!["--bind"@] + rest),
        parse_spec(seq!["-m"@] + rest) == parse_spec(seq!["--mode"@] + rest),
        parse_spec(seq!["-s"@] + rest) == parse_spec(seq!["--scan"@] + rest),
        parse_spec(seq!["-c"@] + rest) == parse_spec(seq!["--config"@] + rest),
{
    law_flag_spellings();
    let pairs = seq![
        ("-h"@, "--help"@),
        ("-v"@, "--verbose"@),
        ("-b"@, "--bind"@),
        ("-m"@, "--mode"@),
        ("-s"@, "--scan"@),
        ("-c"@, "--config"@),
    ];
    assert forall|k: int| 0 <= k < 6 implies parse_spec(seq![#[trigger] pairs[k].0] + rest)
        == parse_spec(seq![pairs[k].1] + rest) by {
        let a = seq![pairs[k].0] + rest;
        let b = seq![pairs[k].1] + rest;
        assert(a[0] == pairs[k].0);
        assert(b[0] == pairs[k].1);
        assert(flag_of(a[0]) == flag_of(b[0]));
        let f = flag_of(a[0]);
        if !stops(f) {
            assert(arg_at(a, 1) == arg_at(b, 1));
            if takes_value(f) {
                lemma_same_tail(a, b, 2, with_value(no_options(), f, arg_at(a, 1)));
            } else {
                lemma_same_tail(a, b, 1, with_switch(no_options(), f));
            }
        }
    }
    assert(pairs[0].0 == "-h"@ && pairs[0].1 == "--help"@);
    assert(pairs[1].0 == "-v"@ && pairs[1].1 == "--verbose"@);
    assert(pairs[2].0 == "-b"@ && pairs[2].1 == "--bind"@);
    assert(pairs[3].0 == "-m"@ && pairs[3].1 == "--mode"@);
    assert(pairs[4].0 == "-s"@ && pairs[4].1 == "--scan"@);
    assert(pairs[5].0 == "-c"@ && pairs[5].1 == "--config"@);
}

/// A flag with a value followed by any value `v` sets exactly its option to
/// `v` (the keepalive to `v` read as a number), and a help flag asks for help.
pub proof fn law_value_flags(v: Seq<char>)
    ensures
        parse_spec(seq!["-b"@, v]) == CliOutcomeView::Run(CliView { bind: Some(v), ..no_options() }),
        parse_spec(seq!["--bind"@, v]) == CliOutcomeView::Run(CliView { bind: Some(v), ..no_options() }),
        parse_spec(seq!["-m"@, v]) == CliOutcomeView::Run(CliView { mode: Some(v), ..no_options() }),
        parse_spec(seq!["-s"@, v]) == CliOutcomeView::Run(CliView { scan: Some(v), ..no_options() }),
        parse_spec(seq!["-c"@, v]) == CliOutcomeView::Run(CliView { config: Some(v), ..no_options() }),
        parse_spec(seq!["--ip"@, v]) == CliOutcomeView::Run(CliView { ip: Some(v), ..no_options() }),
        parse_spec(seq!["--noize"@, v]) == CliOutcomeView::Run(CliView { noize: Some(v), ..no_options() }),
        parse_spec(seq!["--aethernoize"@, v]) == CliOutcomeView::Run(
            CliView { aethernoize: Some(v), ..no_options() },
        ),
        parse_spec(seq!["--peer"@, v]) == CliOutcomeView::Run(CliView { peer: Some(v), ..no_options() }),
        parse_spec(seq!["--ech"@, v]) == CliOutcomeView::Run(CliView { ech: Some(v), ..no_options() }),
        parse_spec(seq!["--wg-keepalive"@, v]) == CliOutcomeView::Run(
            CliView { wg_keepalive: spec_parse_u16(v), ..no_options() },
        ),
        parse_spec(seq!["-v"@]) == CliOutcomeView::Run(CliView { verbose: true, ..no_options() }),
        parse_spec(seq!["--gui"@]) == CliOutcomeView::Run(CliView { gui: true, ..no_options() }),
        parse_spec(seq!["--cli"@]) == CliOutcomeView::Run(CliView { cli: true, ..no_options() }),
        parse_spec(seq!["--tun"@]) == CliOutcomeView::Run(CliView { tun: true, ..no_options() }),
        parse_spec(seq!["--allow-lan"@]) == CliOutcomeView::Run(CliView { allow_lan: true, ..no_options() }),
        parse_spec(seq!["--wg-no-profile-retry"@]) == CliOutcomeView::Run(
            CliView { wg_no_profile_retry: true, ..no_options() },
        ),
        parse_spec(seq!["-h"@, v]) == CliOutcomeView::Help,
{
    law_flag_spellings();
    reveal_with_fuel(parse_from, 3);
}

/// `--auth user:pass` gives the user and the password, split at the first
/// `:`, so a password may hold further colons; without a `:` no
/// credentials are set.
pub proof fn law_auth(user: Seq<char>, pass: Seq<char>, v: Seq<char>)
    requires
        !user.contains(':'),
    ensures
        parse_spec(seq!["--auth"@, user + seq![':'] + pass]) == CliOutcomeView::Run(
            CliView { auth: Some((user, pass)), ..no_options() },
        ),
        !v.contains(':') ==> parse_spec(seq!["--auth"@, v]) == CliOutcomeView::Run(no_options()),
{
    law_flag_spellings();
    reveal_with_fuel(parse_from, 3);
    let s = user + seq![':'] + pass;
    lemma_find_char(s, ':', 0);
    lemma_find_char(v, ':', 0);
    assert(s[user.len() as int] == ':');
    let k = find_char(s, ':', 0);
    assert(k == user.len()) by {
        if k == -1 || k > user.len() {
            assert(s[user.len() as int] == ':');
        } else if k < user.len() {
            assert(s[k] == user[k]);
        }
    }
    assert(s.take(k) =~= user);
    assert(s.skip(k + 1) =~= pass);
    if !v.contains(':') {
        if find_char(v, ':', 0) != -1 {
            let j = find_char(v, ':', 0);
            assert(v[j] == ':');
        }
    }
}

/// Which flag `a` spells.
pub fn classify(a: &str) -> (f: Flag)
    ensures
        f == flag_of(a@),
{
    if str_eq(a, "-h") || str_eq(a, "--help") {
        Flag::Help
    } else if str_eq(a, "-v") || str_eq(a, "--verbose") {
        Flag::Verbose
    } else if str_eq(a, "-b") || str_eq(a, "--bind") {
        Flag::Bind
    } else if str_eq(a, "-m") || str_eq(a, "--mode") {
        Flag::Mode
    } else if str_eq(a, "-s") || str_eq(a, "--scan") {
        Flag::Scan
    } else if str_eq(a, "-c") || str_eq(a, "--config") {
        Flag::Config
    } else if str_eq(a, "--ip") {
        Flag::Ip
    } else if str_eq(a, "--noize") {
        Flag::Noize
    } else if str_eq(a, "--aethernoize") {
        Flag::AetherNoize
    } else if str_eq(a, "--peer") {
        Flag::Peer
    } else if str_eq(a, "--ech") {
        Flag::Ech
    } else if str_eq(a, "--wg-keepalive") {
        Flag::WgKeepalive
    } else if str_eq(a, "--wg-no-profile-retry") {
        Flag::WgNoProfileRetry
    } else if str_eq(a, "--gui") {
        Flag::Gui
    } else if str_eq(a, "--cli") {
        Flag::Cli
    } else if str_eq(a, "--tun") {
        Flag::Tun
    } else if str_eq(a, "--allow-lan") {
        Flag::AllowLan
    } else if str_eq(a, "--auth") {
        Flag::Auth
    } else {
        Flag::Unknown
    }
}

impl Cli {
    fn blank() -> (c: Cli)
        ensures
            c@ == no_options(),
    {
        Cli {
            bind: None,
            mode: None,
            scan: None,
            config: None,
            ip: None,
            noize: None,
            aethernoize: None,
            peer: None,
            ech: None,
            wg_keepalive: None,
            wg_no_profile_retry: false,
            verbose: false,
            gui: false,
            cli: false,
            tun: false,
            allow_lan: false,
            auth: None,
        }
    }

    fn set_switch(&mut self, f: Flag)
        ensures
            final(self)@ == with_switch(old(self)@, f),
    {
        match f {
            Flag::Verbose => self.verbose = true,
            Flag::WgNoProfileRetry => self.wg_no_profile_retry = true,
            Flag::Gui => self.gui = true,
            Flag::Cli => self.cli = true,
            Flag::Tun => self.tun = true,
            Flag::AllowLan => self.allow_lan = true,
            _ => {},
        }
    }

    fn set_value(&mut self, f: Flag, v: Option<String>)
        ensures
            final(self)@ == with_value(old(self)@, f, opt_seq(v)),
    {
        match f {
            Flag::Bind => self.bind = v,
            Flag::Mode => self.mode = v,
            Flag::Scan => self.scan = v,
            Flag::Config => self.config = v,
            Flag::Ip => self.ip = v,
            Flag::Noize => self.noize = v,
            Flag::AetherNoize => self.aethernoize = v,
            Flag::Peer => self.peer = v,
            Flag::Ech => self.ech = v,
            Flag::WgKeepalive => {
                self.wg_keepalive = match &v {
                    Some(s) => parse_u16(s.as_str()),
                    None => None,
                };
            },
            Flag::Auth => {
                match &v {
                    Some(s) => {
                        match split_once_char(s.as_str(), ':') {
                            Some(pair) => self.auth = Some(pair),
                            None => {},
                        }
                    },
                    None => {},
                }
            },
            _ => {},
        }
    }

    /// Reads the command-line arguments (without the program name).
    pub fn parse_args(args: &Vec<String>) -> (r: CliOutcome)
        ensures
            r@ == parse_spec(views(args@)),
    {
        let ghost a = views(args@);
        let n = args.len();
        let mut cli = Cli::blank();
        let mut i: usize = 0;
        while i < n
            invariant
                n == args@.len(),
                a == views(args@),
                a.len() == n,
                i <= n,
                parse_spec(a) == parse_from(a, i as int, cli@),
            decreases n - i,
        {
            assert(a[i as int] == args@[i as int]@);
            let f = classify(args[i].as_str());
            match f {
                Flag::Help => {
                    return CliOutcome::Help;
                },
                Flag::Unknown => {
                    return CliOutcome::UnknownFlag(args[i].clone());
                },
                Flag::Bind | Flag::Mode | Flag::Scan | Flag::Config | Flag::Ip | Flag::Noize
                | Flag::AetherNoize | Flag::Peer | Flag::Ech | Flag::WgKeepalive | Flag::Auth => {
                    let v = if i + 1 < n {
                        Some(args[i + 1].clone())
                    } else {
                        None
                    };
                    assert(opt_seq(v) == arg_at(a, i + 1));
                    let ghost before = cli@;
                    assert(parse_from(a, i as int, before) == parse_from(a, i + 2, with_value(before, f, arg_at(a, i + 1))));
                    cli.set_value(f, v);
                    i = if i + 1 < n {
                        i + 2
                    } else {
                        n
                    };
                },
                _ => {
                    assert(parse_from(a, i as int, cli@) == parse_from(a, i + 1, with_switch(cli@, f)));
                    cli.set_switch(f);
                    i = i + 1;
                },
            }
        }
        CliOutcome::Run(cli)
    }
}

} // verus!
