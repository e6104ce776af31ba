//! The command line of the server: which options it takes, and how an
//! argument vector is read into them.
use vstd::prelude::*;
use crate::text::{chars_of, string_of, owned, cat, parse_i64, parse_u64, parse_decimal, has_prefix};

verus! {

/// One option of the command line.
#[derive(Debug, Clone, Copy, PartialEq, Eq, Structural)]
pub enum CliArg {
    Config,
    Host,
    Port,
    ServerMode,
    Username,
    Password,
    Lazy,
    NoVerifySsl,
    LogLevel,
    LogFileEnable,
    LogDir,
    LogFilename,
    LogRotate,
    HttpAuthToken,
    PollingInterval,
    Help,
}

/// The option spelled `--name`.
pub open spec fn long_arg(name: Seq<char>) -> Option<CliArg> {
    if name == "config"@ { Some(CliArg::Config) }
    else if name == "qbittorrent-host"@ { Some(CliArg::Host) }
    else if name == "qbittorrent-port"@ { Some(CliArg::Port) }
    else if name == "server-mode"@ { Some(CliArg::ServerMode) }
    else if name == "qbittorrent-username"@ { Some(CliArg::Username) }
    else if name == "qbittorrent-password"@ { Some(CliArg::Password) }
    else if name == "lazy"@ { Some(CliArg::Lazy) }
    else if name == "no-verify-ssl"@ { Some(CliArg::NoVerifySsl) }
    else if name == "log-level"@ { Some(CliArg::LogLevel) }
    else if name == "log-file-enable"@ { Some(CliArg::LogFileEnable) }
    else if name == "log-dir"@ { Some(CliArg::LogDir) }
    else if name == "log-filename"@ { Some(CliArg::LogFilename) }
    else if name == "log-rotate"@ { Some(CliArg::LogRotate) }
    else if name == "http-auth-token"@ { Some(CliArg::HttpAuthToken) }
    else if name == "polling-interval-ms"@ { Some(CliArg::PollingInterval) }
    else if name == "help"@ { Some(CliArg::Help) }
    else { None }
}

/// The option spelled `-c`.
pub open spec fn short_arg(c: char) -> Option<CliArg> {
    if c == 'c' { Some(CliArg::Config) }
    else if c == 'L' { Some(CliArg::LogLevel) }
    else if c == 'h' { Some(CliArg::Help) }
    else { None }
}

/// Whether the option is followed by a value.
pub open spec fn takes_value(a: CliArg) -> bool {
    !(a is Lazy || a is NoVerifySsl || a is LogFileEnable || a is Help)
}

/// The long spelling of an option, without its dashes.
pub open spec fn long_name(a: CliArg) -> Seq<char> {
    match a {
        CliArg::Config => "config"@,
        CliArg::Host => "qbittorrent-host"@,
        CliArg::Port => "qbittorrent-port"@,
        CliArg::ServerMode => "server-mode"@,
        CliArg::Username => "qbittorrent-username"@,
        CliArg::Password => "qbittorrent-password"@,
        CliArg::Lazy => "lazy"@,
        CliArg::NoVerifySsl => "no-verify-ssl"@,
        CliArg::LogLevel => "log-level"@,
        CliArg::LogFileEnable => "log-file-enable"@,
        CliArg::LogDir => "log-dir"@,
        CliArg::LogFilename => "log-filename"@,
        CliArg::LogRotate => "log-rotate"@,
        CliArg::HttpAuthToken => "http-auth-token"@,
        CliArg::PollingInterval => "polling-interval-ms"@,
        CliArg::Help => "help"@,
    }
}

/// Why an argument vector was refused.
#[derive(Debug, PartialEq, Eq)]
pub enum CliError {
    /// `-h` or `--help` was given: the usage is to be shown instead.
    HelpRequested,
    /// A token that names no option (`--name`, `-x`, or a bare word).
    UnknownArgument(String),
    /// The option (by its long name) was not followed by a value.
    ValueRequired(String),
    /// A flag (by its long name) was given a value with `=`.
    UnexpectedValue(String, String),
    /// The option (by its long name) was given twice.
    Repeated(String),
    /// The value given to the option (by its long name) is not a number in its range.
    InvalidValue(String, String),
}

/// `CliError` over character sequences.
pub enum CliFault {
    HelpRequested,
    UnknownArgument(Seq<char>),
    ValueRequired(Seq<char>),
    UnexpectedValue(Seq<char>, Seq<char>),
    Repeated(Seq<char>),
    InvalidValue(Seq<char>, Seq<char>),
}

impl View for CliError {
    type V = CliFault;

    open spec fn view(&self) -> CliFault {
        match self {
            CliError::HelpRequested => CliFault::HelpRequested,
            CliError::UnknownArgument(s) => CliFault::UnknownArgument(s@),
            CliError::ValueRequired(s) => CliFault::ValueRequired(s@),
            CliError::UnexpectedValue(a, v) => CliFault::UnexpectedValue(a@, v@),
            CliError::Repeated(s) => CliFault::Repeated(s@),
            CliError::InvalidValue(a, v) => CliFault::InvalidValue(a@, v@),
        }
    }
}

/// Whether a token reads as an option rather than as a value.
pub open spec fn looks_like_option(t: Seq<char>) -> bool {
    t.len() >= 2 && t[0] == '-'
}

/// The index of the first `=` in `s`, if any.
pub open spec fn first_eq(s: Seq<char>) -> Option<int> {
    if exists|k: int| 0 <= k < s.len() && s[k] == '=' {
        Some(choose|k: int| 0 <= k < s.len() && s[k] == '=' && forall|j: int| 0 <= j < k ==> s[j] != '=')
    } else {
        None
    }
}

/// An option that is given its value by the token after it.
pub open spec fn with_next_value(t: Seq<Seq<char>>, i: int, a: CliArg) -> Result<Seq<(CliArg, Seq<char>)>, CliFault>
    decreases t.len() - i, 0int,
{
    if 0 <= i && i + 1 < t.len() && !looks_like_option(t[i + 1]) {
        match lex_from(t, i + 2) {
            Ok(rest) => Ok(seq![(a, t[i + 1])] + rest),
            Err(e) => Err(e),
        }
    } else {
        Err(CliFault::ValueRequired(long_name(a)))
    }
}

/// The options, each with the value it was given (empty for a flag), that
/// the tokens from index `i` on spell.
pub open spec fn lex_from(t: Seq<Seq<char>>, i: int) -> Result<Seq<(CliArg, Seq<char>)>, CliFault>
    decreases t.len() - i, 1int,
{
    if i < 0 || i >= t.len() {
        Ok(seq![])
    } else {
        let tok = t[i];
        if tok == "--"@ {
            if i + 1 < t.len() { Err(CliFault::UnknownArgument(t[i + 1])) } else { Ok(seq![]) }
        } else if has_prefix(tok, "--"@) {
            let body = tok.skip(2);
            let name = match first_eq(body) { Some(k) => body.take(k), None => body };
            match long_arg(name) {
                None => Err(CliFault::UnknownArgument("--"@ + name)),
                Some(a) => match first_eq(body) {
                    Some(k) => if takes_value(a) {
                        match lex_from(t, i + 1) {
                            Ok(rest) => Ok(seq![(a, body.skip(k + 1))] + rest),
                            Err(e) => Err(e),
                        }
                    } else {
                        Err(CliFault::UnexpectedValue(long_name(a), body.skip(k + 1)))
                    },
                    None => if a is Help {
                        Err(CliFault::HelpRequested)
                    } else if takes_value(a) {
                        with_next_value(t, i, a)
                    } else {
                        match lex_from(t, i + 1) {
                            Ok(rest) => Ok(seq![(a, Seq::<char>::empty())] + rest),
                            Err(e) => Err(e),
                        }
                    },
                },
            }
        } else if looks_like_option(tok) {
            match short_arg(tok[1]) {
                None => Err(CliFault::UnknownArgument(seq!['-', tok[1]])),
                Some(a) => if a is Help {
                    Err(CliFault::HelpRequested)
                } else {
                    let rest = tok.skip(2);
                    if rest.len() > 0 {
                        let v = if rest[0] == '=' { rest.skip(1) } else { rest };
                        match lex_from(t, i + 1) {
                            Ok(more) => Ok(seq![(a, v)] + more),
                            Err(e) => Err(e),
                        }
                    } else {
                        with_next_value(t, i, a)
                    }
                },
            }
        } else {
            Err(CliFault::UnknownArgument(tok))
        }
    }
}

/// Whether `v` is a value the option accepts: a port is an integer in
/// `0..=65535`, an interval a `u64`; other values are taken as they are.
pub open spec fn value_accepted(a: CliArg, v: Seq<char>) -> bool {
    match a {
        CliArg::Port => match parse_decimal(v, i64::MIN as int, i64::MAX as int) {
            Ok(n) => 0 <= n <= 65535,
            Err(_) => false,
        },
        CliArg::PollingInterval => parse_decimal(v, 0, u64::MAX as int) is Ok,
        _ => true,
    }
}

/// The first fault among the occurrences from index `i` on: an option seen
/// before, or a value the option does not accept.
pub open spec fn occurrence_fault(occ: Seq<(CliArg, Seq<char>)>, i: int) -> Option<CliFault>
    decreases occ.len() - i,
{
    if i < 0 || i >= occ.len() {
        None
    } else if exists|j: int| 0 <= j < i && occ[j].0 == occ[i].0 {
        Some(CliFault::Repeated(long_name(occ[i].0)))
    } else if !value_accepted(occ[i].0, occ[i].1) {
        Some(CliFault::InvalidValue(long_name(occ[i].0), occ[i].1))
    } else {
        occurrence_fault(occ, i + 1)
    }
}

/// The value given to option `a`, if it was given.
pub open spec fn given(occ: Seq<(CliArg, Seq<char>)>, a: CliArg) -> Option<Seq<char>> {
    if exists|j: int| 0 <= j < occ.len() && occ[j].0 == a {
        Some(occ[choose|j: int| 0 <= j < occ.len() && occ[j].0 == a].1)
    } else {
        None
    }
}

/// The options read from the command line.
#[derive(Debug)]
pub struct CliArgs {
    pub config: Option<String>,
    pub qbittorrent_host: Option<String>,
    pub qbittorrent_port: Option<u16>,
    pub server_mode: Option<String>,
    pub qbittorrent_username: Option<String>,
    pub qbittorrent_password: Option<String>,
    pub lazy_mode: bool,
    pub no_verify_ssl: bool,
    pub log_level: Option<String>,
    pub log_file_enable: bool,
    pub log_dir: Option<String>,
    pub log_filename: Option<String>,
    pub log_rotate: Option<String>,
    pub http_auth_token: Option<String>,
    pub polling_interval_ms: Option<u64>,
}

pub open spec fn opt_view(o: Option<String>) -> Option<Seq<char>> {
    match o {
        Some(s) => Some(s@),
        None => None,
    }
}

pub open spec fn number_given(o: Option<Seq<char>>, lo: int, hi: int) -> Option<int> {
    match o {
        Some(v) => match parse_decimal(v, lo, hi) {
            Ok(n) => Some(n),
            Err(_) => None,
        },
        None => None,
    }
}

impl CliArgs {
    /// Whether these options are the ones that the occurrences `occ` give,
    /// with the defaults of the options that have one.
    pub open spec fn reads(&self, occ: Seq<(CliArg, Seq<char>)>) -> bool {
        &&& opt_view(self.config) == given(occ, CliArg::Config)
        &&& opt_view(self.qbittorrent_host) == given(occ, CliArg::Host)
        &&& match self.qbittorrent_port {
            Some(p) => number_given(given(occ, CliArg::Port), i64::MIN as int, i64::MAX as int) == Some(p as int),
            None => given(occ, CliArg::Port) is None,
        }
        &&& opt_view(self.server_mode) == given(occ, CliArg::ServerMode)
        &&& opt_view(self.qbittorrent_username) == given(occ, CliArg::Username)
        &&& opt_view(self.qbittorrent_password) == given(occ, CliArg::Password)
        &&& self.lazy_mode == given(occ, CliArg::Lazy) is Some
        &&& self.no_verify_ssl == given(occ, CliArg::NoVerifySsl) is Some
        &&& opt_view(self.log_level) == given(occ, CliArg::LogLevel)
        &&& self.log_file_enable == given(occ, CliArg::LogFileEnable) is Some
        &&& opt_view(self.log_dir) == given(occ, CliArg::LogDir)
        &&& opt_view(self.log_filename) == given(occ, CliArg::LogFilename)
        &&& opt_view(self.log_rotate) == given(occ, CliArg::LogRotate)
        &&& opt_view(self.http_auth_token) == given(occ, CliArg::HttpAuthToken)
        &&& match self.polling_interval_ms {
            Some(p) => number_given(given(occ, CliArg::PollingInterval), 0, u64::MAX as int) == Some(p as int),
            None => given(occ, CliArg::PollingInterval) is None,
        }
    }
}

/// The tokens after the program name.
pub open spec fn tokens_of(args: Seq<String>) -> Seq<Seq<char>> {
    if args.len() == 0 {
        seq![]
    } else {
        args.drop_first().map_values(|s: String| s@)
    }
}

/// Lemma: the first `=` is at `k`.
proof fn lemma_first_eq(s: Seq<char>, k: int)
    requires
        0 <= k < s.len(),
        s[k] == '=',
        forall|j: int| 0 <= j < k ==> s[j] != '=',
    ensures
        first_eq(s) == Some(k),
{
    let c = choose|c: int| 0 <= c < s.len() && s[c] == '=' && forall|j: int| 0 <= j < c ==> s[j] != '=';
    assert(0 <= c < s.len() && s[c] == '=' && forall|j: int| 0 <= j < c ==> s[j] != '=');
    if c < k {
        assert(s[c] != '=');
    }
    if k < c {
        assert(s[k] != '=');
    }
}

/// The position of the first `=` in `s`.
fn find_eq(s: &Vec<char>) -> (r: Option<usize>)
    ensures
        match r {
            Some(k) => first_eq(s@) == Some(k as int) && k < s.len(),
            None => first_eq(s@) is None,
        },
{
    let mut i: usize = 0;
    while i < s.len()
        invariant
            i <= s.len(),
            forall|j: int| 0 <= j < i ==> s@[j] != '=',
        decreases s.len() - i,
    {
        if s[i] == '=' {
            proof {
                lemma_first_eq(s@, i as int);
            }
            return Some(i);
        }
        i = i + 1;
    }
    None
}

fn slice_of(s: &Vec<char>, from: usize, to: usize) -> (r: Vec<char>)
    requires
        from <= to <= s.len(),
    ensures
        r@ == s@.subrange(from as int, to as int),
{
    let mut r: Vec<char> = Vec::new();
    let mut i = from;
    while i < to
        invariant
            from <= i <= to <= s.len(),
            r@ == s@.subrange(from as int, i as int),
        decreases to - i,
    {
        r.push(s[i]);
        i = i + 1;
        assert(r@ =~= s@.subrange(from as int, i as int));
    }
    r
}

fn is(s: &Vec<char>, word: &str) -> (r: bool)
    ensures
        r == (s@ == word@),
{
    let t = string_of(s);
    crate::text::same(t.as_str(), word)
}

fn lookup_long(name: &Vec<char>) -> (r: Option<CliArg>)
    ensures
        r == long_arg(name@),
{
    if is(name, "config") { Some(CliArg::Config) }
    else if is(name, "qbittorrent-host") { Some(CliArg::Host) }
    else if is(name, "qbittorrent-port") { Some(CliArg::Port) }
    else if is(name, "server-mode") { Some(CliArg::ServerMode) }
    else if is(name, "qbittorrent-username") { Some(CliArg::Username) }
    else if is(name, "qbittorrent-password") { Some(CliArg::Password) }
    else if is(name, "lazy") { Some(CliArg::Lazy) }
    else if is(name, "no-verify-ssl") { Some(CliArg::NoVerifySsl) }
    else if is(name, "log-level") { Some(CliArg::LogLevel) }
    else if is(name, "log-file-enable") { Some(CliArg::LogFileEnable) }
    else if is(name, "log-dir") { Some(CliArg::LogDir) }
    else if is(name, "log-filename") { Some(CliArg::LogFilename) }
    else if is(name, "log-rotate") { Some(CliArg::LogRotate) }
    else if is(name, "http-auth-token") { Some(CliArg::HttpAuthToken) }
    else if is(name, "polling-interval-ms") { Some(CliArg::PollingInterval) }
    else if is(name, "help") { Some(CliArg::Help) }
    else { None }
}

fn lookup_short(c: char) -> (r: Option<CliArg>)
    ensures
        r == short_arg(c),
{
    if c == 'c' { Some(CliArg::Config) }
    else if c == 'L' { Some(CliArg::LogLevel) }
    else if c == 'h' { Some(CliArg::Help) }
    else { None }
}

fn arg_takes_value(a: CliArg) -> (r: bool)
    ensures
        r == takes_value(a),
{
    !(a == CliArg::Lazy || a == CliArg::NoVerifySsl || a == CliArg::LogFileEnable || a == CliArg::Help)
}

/// The long spelling of an option.
pub fn arg_long_name(a: CliArg) -> (r: String)
    ensures
        r@ == long_name(a),
{
    match a {
        CliArg::Config => owned("config"),
        CliArg::Host => owned("qbittorrent-host"),
        CliArg::Port => owned("qbittorrent-port"),
        CliArg::ServerMode => owned("server-mode"),
        CliArg::Username => owned("qbittorrent-username"),
        CliArg::Password => owned("qbittorrent-password"),
        CliArg::Lazy => owned("lazy"),
        CliArg::NoVerifySsl => owned("no-verify-ssl"),
        CliArg::LogLevel => owned("log-level"),
        CliArg::LogFileEnable => owned("log-file-enable"),
        CliArg::LogDir => owned("log-dir"),
        CliArg::LogFilename => owned("log-filename"),
        CliArg::LogRotate => owned("log-rotate"),
        CliArg::HttpAuthToken => owned("http-auth-token"),
        CliArg::PollingInterval => owned("polling-interval-ms"),
        CliArg::Help => owned("help"),
    }
}

pub open spec fn occ_view(occ: Seq<(CliArg, String)>) -> Seq<(CliArg, Seq<char>)> {
    occ.map_values(|p: (CliArg, String)| (p.0, p.1@))
}

pub open spec fn token_view(t: Seq<String>) -> Seq<Seq<char>> {
    t.map_values(|s: String| s@)
}

fn looks_like_option_exec(t: &String) -> (r: bool)
    ensures
        r == looks_like_option(t@),
{
    let cs = chars_of(t.as_str());
    cs.len() >= 2 && cs[0] == '-'
}

/// `r` with the occurrence `o` in front.
pub open spec fn prepend(o: (CliArg, Seq<char>), r: Result<Seq<(CliArg, Seq<char>)>, CliFault>) -> Result<Seq<(CliArg, Seq<char>)>, CliFault> {
    match r {
        Ok(rest) => Ok(seq![o] + rest),
        Err(e) => Err(e),
    }
}

/// What one step of reading gives: the occurrence spelled at index `i` and
/// the index where reading goes on, or the end of reading.
pub open spec fn step_spec(tv: Seq<Seq<char>>, i: int, r: Result<(Option<(CliArg, String)>, usize), CliError>) -> bool {
    match r {
        Ok((Some(o), j)) => i < j <= tv.len() && lex_from(tv, i) == prepend((o.0, o.1@), lex_from(tv, j as int)),
        Ok((None, j)) => j == tv.len() && lex_from(tv, i) == Ok::<Seq<(CliArg, Seq<char>)>, CliFault>(seq![]),
        Err(e) => lex_from(tv, i) == Err::<Seq<(CliArg, Seq<char>)>, CliFault>(e@),
    }
}

/// An option that takes its value from the next token.
fn take_next(t: &Vec<String>, i: usize, a: CliArg) -> (r: Result<(Option<(CliArg, String)>, usize), CliError>)
    requires
        i < t.len(),
        takes_value(a),
    ensures
        r matches Ok((Some(o), j)) ==> o.0 == a && j == i + 2 && o.1@ == token_view(t@)[i + 1],
        r matches Err(e) ==> with_next_value(token_view(t@), i as int, a) == Err::<Seq<(CliArg, Seq<char>)>, CliFault>(e@),
        r is Ok ==> r matches Ok((Some(_), _)),
        r is Ok ==> with_next_value(token_view(t@), i as int, a) == prepend((a, token_view(t@)[i + 1]), lex_from(token_view(t@), i + 2)),
{
    let ghost tv = token_view(t@);
    assert(i + 1 < t.len() ==> tv[i + 1] == t@[i + 1]@);
    if i + 1 < t.len() && !looks_like_option_exec(&t[i + 1]) {
        Ok((Some((a, t[i + 1].clone())), i + 2))
    } else {
        Err(CliError::ValueRequired(arg_long_name(a)))
    }
}

#[verifier::rlimit(60)]
fn step_long(t: &Vec<String>, i: usize, tok: &Vec<char>) -> (r: Result<(Option<(CliArg, String)>, usize), CliError>)
    requires
        i < t.len(),
        tok@ == token_view(t@)[i as int],
        tok@ != "--"@,
        has_prefix(tok@, "--"@),
    ensures
        step_spec(token_view(t@), i as int, r),
{
    let ghost tv = token_view(t@);
    proof { reveal_strlit("--"); }
    assert(tok@.len() >= 2);
    let body = slice_of(tok, 2, tok.len());
    assert(body@ == tok@.skip(2));
    let eq = find_eq(&body);
    let name = match eq { Some(k) => slice_of(&body, 0, k), None => slice_of(&body, 0, body.len()) };
    assert(body@.subrange(0, body@.len() as int) =~= body@);
    match lookup_long(&name) {
        None => {
            let nm = string_of(&name);
            Err(CliError::UnknownArgument(cat("--", nm.as_str())))
        },
        Some(a) => {
            match eq {
                Some(k) => {
                    let v = slice_of(&body, k + 1, body.len());
                    assert(v@ == body@.skip(k + 1));
                    if arg_takes_value(a) {
                        Ok((Some((a, string_of(&v))), i + 1))
                    } else {
                        Err(CliError::UnexpectedValue(arg_long_name(a), string_of(&v)))
                    }
                },
                None => {
                    if a == CliArg::Help {
                        Err(CliError::HelpRequested)
                    } else if arg_takes_value(a) {
                        take_next(t, i, a)
                    } else {
                        Ok((Some((a, String::new())), i + 1))
                    }
                },
            }
        },
    }
}

fn step_short(t: &Vec<String>, i: usize, tok: &Vec<char>) -> (r: Result<(Option<(CliArg, String)>, usize), CliError>)
    requires
        i < t.len(),
        tok@ == token_view(t@)[i as int],
        tok@ != "--"@,
        !has_prefix(tok@, "--"@),
        looks_like_option(tok@),
    ensures
        step_spec(token_view(t@), i as int, r),
{
    let ghost tv = token_view(t@);
    match lookup_short(tok[1]) {
        None => {
            let mut nm = String::new();
            crate::text::push_char(&mut nm, '-');
            crate::text::push_char(&mut nm, tok[1]);
            assert(nm@ =~= seq!['-', tok@[1]]);
            Err(CliError::UnknownArgument(nm))
        },
        Some(a) => {
            if a == CliArg::Help {
                return Err(CliError::HelpRequested);
            }
            let rest = slice_of(tok, 2, tok.len());
            assert(rest@ == tok@.skip(2));
            if rest.len() > 0 {
                let v = if rest[0] == '=' { slice_of(&rest, 1, rest.len()) } else { slice_of(&rest, 0, rest.len()) };
                assert(rest@.subrange(0, rest@.len() as int) =~= rest@);
                assert(v@ == (if rest@[0] == '=' { rest@.skip(1) } else { rest@ }));
                Ok((Some((a, string_of(&v))), i + 1))
            } else {
                take_next(t, i, a)
            }
        },
    }
}

fn step(t: &Vec<String>, i: usize) -> (r: Result<(Option<(CliArg, String)>, usize), CliError>)
    requires
        i < t.len(),
    ensures
        step_spec(token_view(t@), i as int, r),
{
    let ghost tv = token_view(t@);
    let tok = chars_of(t[i].as_str());
    assert(tok@ == tv[i as int]);
    assert(i + 1 < t.len() ==> tv[i + 1] == t@[i + 1]@);
    if is(&tok, "--") {
        if i + 1 < t.len() {
            return Err(CliError::UnknownArgument(t[i + 1].clone()));
        }
        return Ok((None, t.len()));
    }
    let is_long = tok.len() >= 2 && tok[0] == '-' && tok[1] == '-';
    assert(is_long == has_prefix(tok@, "--"@)) by {
        reveal_strlit("--");
        assert("--"@.len() == 2);
        assert("--"@[0] == '-' && "--"@[1] == '-');
        if tok@.len() >= 2 {
            assert(tok@.subrange(0, 2)[0] == tok@[0]);
            assert(tok@.subrange(0, 2)[1] == tok@[1]);
            if tok@[0] == '-' && tok@[1] == '-' {
                assert(tok@.subrange(0, 2) =~= "--"@);
            }
        }
    }
    if is_long {
        step_long(t, i, &tok)
    } else if tok.len() >= 2 && tok[0] == '-' {
        step_short(t, i, &tok)
    } else {
        Err(CliError::UnknownArgument(t[i].clone()))
    }
}

/// Reads the tokens after the program name into option occurrences.
fn lex(t: &Vec<String>) -> (r: Result<Vec<(CliArg, String)>, CliError>)
    ensures
        match r {
            Ok(occ) => lex_from(token_view(t@), 0) == Ok::<Seq<(CliArg, Seq<char>)>, CliFault>(occ_view(occ@)),
            Err(e) => lex_from(token_view(t@), 0) == Err::<Seq<(CliArg, Seq<char>)>, CliFault>(e@),
        },
{
    let ghost tv = token_view(t@);
    let mut out: Vec<(CliArg, String)> = Vec::new();
    let mut i: usize = 0;
    assert(occ_view(out@) =~= seq![]);
    while i < t.len()
        invariant
            i <= t.len(),
            tv == token_view(t@),
            lex_from(tv, 0) == match lex_from(tv, i as int) {
                Ok(rest) => Ok(occ_view(out@) + rest),
                Err(e) => Err::<Seq<(CliArg, Seq<char>)>, CliFault>(e),
            },
        decreases t.len() - i,
    {
        let ghost before = occ_view(out@);
        match step(t, i) {
            Err(e) => {
                return Err(e);
            },
            Ok((None, _)) => {
                assert(before + seq![] =~= before);
                return Ok(out);
            },
            Ok((Some(o), j)) => {
                let ghost ov = (o.0, o.1@);
                out.push(o);
                assert(occ_view(out@) =~= before + seq![ov]);
                proof {
                    match lex_from(tv, j as int) {
                        Ok(rest) => {
                            assert(before + (seq![ov] + rest) =~= occ_view(out@) + rest);
                        },
                        Err(_) => {},
                    }
                }
                i = j;
            },
        }
    }
    assert(lex_from(tv, i as int) == Ok::<Seq<(CliArg, Seq<char>)>, CliFault>(seq![]));
    assert(occ_view(out@) + seq![] =~= occ_view(out@));
    Ok(out)
}

/// What reading an argument vector gives: the option occurrences, or the
/// first fault met.
pub open spec fn read_outcome(args: Seq<String>) -> Result<Seq<(CliArg, Seq<char>)>, CliFault> {
    match lex_from(tokens_of(args), 0) {
        Ok(occ) => match occurrence_fault(occ, 0) {
            None => Ok(occ),
            Some(f) => Err(f),
        },
        Err(f) => Err(f),
    }
}

proof fn lemma_no_fault(occ: Seq<(CliArg, Seq<char>)>, i: int)
    requires
        0 <= i,
        occurrence_fault(occ, i) is None,
    ensures
        forall|k: int, j: int| i <= k < occ.len() && 0 <= j < k ==> occ[j].0 != occ[k].0,
        forall|k: int| i <= k < occ.len() ==> value_accepted(occ[k].0, occ[k].1),
    decreases occ.len() - i,
{
    if i < occ.len() {
        lemma_no_fault(occ, i + 1);
    }
}

fn value_ok(a: CliArg, v: &String) -> (r: bool)
    ensures
        r == value_accepted(a, v@),
{
    match a {
        CliArg::Port => match parse_i64(v.as_str()) {
            Ok(n) => 0 <= n && n <= 65535,
            Err(_) => false,
        },
        CliArg::PollingInterval => parse_u64(v.as_str()).is_ok(),
        _ => true,
    }
}

fn check_occurrences(occ: &Vec<(CliArg, String)>) -> (r: Option<CliError>)
    ensures
        match r {
            None => occurrence_fault(occ_view(occ@), 0) is None,
            Some(e) => occurrence_fault(occ_view(occ@), 0) == Some(e@),
        },
{
    let ghost ov = occ_view(occ@);
    let mut i: usize = 0;
    while i < occ.len()
        invariant
            i <= occ.len(),
            ov == occ_view(occ@),
            occurrence_fault(ov, 0) == occurrence_fault(ov, i as int),
        decreases occ.len() - i,
    {
        let mut j: usize = 0;
        while j < i
            invariant
                j <= i < occ.len(),
                ov == occ_view(occ@),
                occurrence_fault(ov, 0) == occurrence_fault(ov, i as int),
                forall|k: int| 0 <= k < j ==> ov[k].0 != ov[i as int].0,
            decreases i - j,
        {
            if occ[j].0 == occ[i].0 {
                assert(ov[j as int].0 == ov[i as int].0);
                return Some(CliError::Repeated(arg_long_name(occ[i].0)));
            }
            j = j + 1;
        }
        if !value_ok(occ[i].0, &occ[i].1) {
            return Some(CliError::InvalidValue(arg_long_name(occ[i].0), occ[i].1.clone()));
        }
        i = i + 1;
    }
    None
}

fn find_given(occ: &Vec<(CliArg, String)>, a: CliArg) -> (r: Option<String>)
    requires
        occurrence_fault(occ_view(occ@), 0) is None,
    ensures
        opt_view(r) == given(occ_view(occ@), a),
        r matches Some(v) ==> value_accepted(a, v@),
{
    let ghost ov = occ_view(occ@);
    proof {
        lemma_no_fault(ov, 0);
    }
    let mut i: usize = 0;
    while i < occ.len()
        invariant
            i <= occ.len(),
            ov == occ_view(occ@),
            occurrence_fault(ov, 0) is None,
            forall|k: int| 0 <= k < i ==> ov[k].0 != a,
        decreases occ.len() - i,
    {
        if occ[i].0 == a {
            assert(ov[i as int].0 == a);
            proof {
                lemma_no_fault(ov, 0);
                let c = choose|c: int| 0 <= c < ov.len() && ov[c].0 == a;
                assert(0 <= c < ov.len() && ov[c].0 == a);
                if c != i {
                    if c < i {
                        assert(ov[c].0 != a);
                    } else {
                        assert(ov[i as int].0 != ov[c].0);
                    }
                }
            }
            return Some(occ[i].1.clone());
        }
        i = i + 1;
    }
    None
}

/// Reads an argument vector: `args[0]` is the program name, the rest are
/// options. An empty vector reads as no options at all.
pub fn parse_args(args: &Vec<String>) -> (r: Result<CliArgs, CliError>)
    ensures
        match r {
            Ok(c) => read_outcome(args@) matches Ok(occ) && c.reads(occ),
            Err(e) => read_outcome(args@) == Err::<Seq<(CliArg, Seq<char>)>, CliFault>(e@),
        },
{
    let mut t: Vec<String> = Vec::new();
    let mut i: usize = 1;
    while i < args.len()
        invariant
            1 <= i <= args.len() || (args.len() == 0 && i == 1),
            t@.len() == i - 1,
            forall|k: int| 0 <= k < t@.len() ==> t@[k] == args@[k + 1],
        decreases args.len() - i,
    {
        t.push(args[i].clone());
        i = i + 1;
    }
    assert(token_view(t@) =~= tokens_of(args@));
    let occ = match lex(&t) {
        Ok(o) => o,
        Err(e) => {
            return Err(e);
        },
    };
    match check_occurrences(&occ) {
        Some(e) => {
            return Err(e);
        },
        None => {},
    }
    let port = match find_given(&occ, CliArg::Port) {
        Some(v) => match parse_i64(v.as_str()) {
            Ok(n) => Some(n as u16),
            Err(_) => None,
        },
        None => None,
    };
    let polling = match find_given(&occ, CliArg::PollingInterval) {
        Some(v) => match parse_u64(v.as_str()) {
            Ok(n) => Some(n),
            Err(_) => None,
        },
        None => None,
    };
    let c = CliArgs {
        config: find_given(&occ, CliArg::Config),
        qbittorrent_host: find_given(&occ, CliArg::Host),
        qbittorrent_port: port,
        server_mode: find_given(&occ, CliArg::ServerMode),
        qbittorrent_username: find_given(&occ, CliArg::Username),
        qbittorrent_password: find_given(&occ, CliArg::Password),
        lazy_mode: find_given(&occ, CliArg::Lazy).is_some(),
        no_verify_ssl: find_given(&occ, CliArg::NoVerifySsl).is_some(),
        log_level: find_given(&occ, CliArg::LogLevel),
        log_file_enable: find_given(&occ, CliArg::LogFileEnable).is_some(),
        log_dir: find_given(&occ, CliArg::LogDir),
        log_filename: find_given(&occ, CliArg::LogFilename),
        log_rotate: find_given(&occ, CliArg::LogRotate),
        http_auth_token: find_given(&occ, CliArg::HttpAuthToken),
        polling_interval_ms: polling,
    };
    Ok(c)
}

} // verus!
