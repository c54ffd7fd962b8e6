//! What is kept on disk besides the settings: the log, held to its last
//! lines and its size limit, and settings written by the earlier release of
//! the application, which are read into the current settings.
use vstd::prelude::*;
use crate::git::option_view;
use crate::models::{
    default_update_endpoint, has_default_appearance, CloseBehavior, ProxyMode, Repository,
    Settings, DEFAULT_UPDATE_ENDPOINT,
};
use crate::text::{
    chars_of, eq_ignore_ascii_case, eq_ignore_case, is_blank, join_strings, joined, lines,
    split_lines, string_of_all, string_views, char_views, trim,
};

verus! {

/// How many log lines are kept in memory.
pub const MAX_LOG_LINES: usize = 500;

/// The last `n` entries of `s` (all of them when there are fewer).
pub open spec fn last_n<A>(s: Seq<A>, n: nat) -> Seq<A> {
    if s.len() > n {
        s.skip(s.len() - n)
    } else {
        s
    }
}

/// The most recent log lines, oldest first.
pub struct LogBook {
    lines: Vec<String>,
}

impl View for LogBook {
    type V = Seq<Seq<char>>;

    closed spec fn view(&self) -> Seq<Seq<char>> {
        string_views(self.lines@)
    }
}

impl LogBook {
    /// An empty log.
    pub fn new() -> (b: LogBook)
        ensures
            b@.len() == 0,
    {
        let b = LogBook { lines: Vec::new() };
        assert(b@ =~= Seq::<Seq<char>>::empty());
        b
    }

    /// The log as read from the log file's text: its last 500 lines.
    pub fn from_text(text: &str) -> (b: LogBook)
        ensures
            b@ == last_n(lines(text@), 500),
            b@.len() <= 500,
    {
        let v = chars_of(text);
        let ls = split_lines(&v);
        let ghost all = char_views(ls@);
        let n = ls.len();
        let start = if n > 500 {
            n - 500
        } else {
            0
        };
        let mut kept: Vec<String> = Vec::new();
        let mut i = start;
        while i < n
            invariant
                start <= i <= n == ls@.len(),
                all == char_views(ls@),
                string_views(kept@) == all.subrange(start as int, i as int),
            decreases n - i,
        {
            let ghost before = kept@;
            let line = string_of_all(&ls[i]);
            kept.push(line);
            proof {
                assert(string_views(kept@) =~= string_views(before).push(line@));
                assert(all.subrange(start as int, i + 1) =~= all.subrange(start as int, i as int).push(
                    ls@[i as int]@,
                ));
            }
            i = i + 1;
        }
        let b = LogBook { lines: kept };
        assert(b@ =~= last_n(all, 500));
        b
    }

    /// Appends a line; beyond 500 lines the oldest are dropped.
    pub fn push(&mut self, line: String)
        ensures
            final(self)@ == last_n(old(self)@.push(line@), 500),
            final(self)@.len() <= 500,
    {
        let ghost all = old(self)@.push(line@);
        self.lines.push(line);
        assert(self@ =~= all);
        let ghost start = self.lines@.len();
        while self.lines.len() > 500
            invariant
                all.len() == start,
                self@ == all.skip(start - self.lines@.len()),
                self.lines@.len() <= start,
                start > 500 ==> self.lines@.len() >= 500,
                start <= 500 ==> self.lines@.len() == start,
            decreases self.lines@.len(),
        {
            let ghost before = self@;
            self.lines.remove(0);
            assert(self@ =~= before.drop_first());
            assert(all.skip(start - self.lines@.len()) =~= before.drop_first());
        }
        proof {
            if all.len() <= 500 {
                assert(all.skip(0) =~= all);
            }
        }
    }

    /// Forgets every line.
    pub fn clear(&mut self)
        ensures
            final(self)@.len() == 0,
    {
        self.lines.clear();
        assert(self@ =~= Seq::<Seq<char>>::empty());
    }

    /// The lines, oldest first.
    pub fn entries(&self) -> (r: Vec<String>)
        ensures
            string_views(r@) == self@,
    {
        let mut out: Vec<String> = Vec::new();
        let mut i: usize = 0;
        while i < self.lines.len()
            invariant
                i <= self.lines@.len(),
                string_views(out@) == self@.take(i as int),
            decreases self.lines@.len() - i,
        {
            let ghost before = out@;
            let line = self.lines[i].clone();
            out.push(line);
            assert(string_views(out@) =~= string_views(before).push(line@));
            assert(self@.take(i + 1) =~= self@.take(i as int).push(line@));
            i = i + 1;
        }
        assert(self@.take(self.lines@.len() as int) =~= self@);
        out
    }
}

/// The size the log file may reach, in bytes: the configured megabytes
/// brought into 1 to 100.
pub open spec fn log_limit(max_log_size_mb: u32) -> int {
    let mb: int = if max_log_size_mb < 1 {
        1
    } else if max_log_size_mb > 100 {
        100
    } else {
        max_log_size_mb as int
    };
    mb * 1024 * 1024
}

/// Whether the log file of `size` bytes is cut down: log maintenance is on
/// and the file exceeds its limit.
pub fn log_needs_trim(settings: &Settings, size: u64) -> (r: bool)
    ensures
        r == (settings.auto_maintain_logs && size > log_limit(settings.max_log_size_mb)),
{
    if !settings.auto_maintain_logs {
        return false;
    }
    let mb: u64 = if settings.max_log_size_mb < 1 {
        1
    } else if settings.max_log_size_mb > 100 {
        100
    } else {
        settings.max_log_size_mb as u64
    };
    size > mb * 1024 * 1024
}

/// The log file cut to its later half: the lines from the middle on, joined
/// with line feeds.
pub fn trimmed_log(text: &str) -> (r: String)
    ensures
        r@ == joined(lines(text@).skip((lines(text@).len() / 2) as int), seq!['\n']),
{
    let v = chars_of(text);
    let ls = split_lines(&v);
    let ghost all = char_views(ls@);
    let half = ls.len() / 2;
    let mut kept: Vec<String> = Vec::new();
    let mut i = half;
    while i < ls.len()
        invariant
            half <= i <= ls@.len(),
            all == char_views(ls@),
            string_views(kept@) == all.subrange(half as int, i as int),
        decreases ls@.len() - i,
    {
        let ghost before = kept@;
        let line = string_of_all(&ls[i]);
        kept.push(line);
        proof {
            assert(string_views(kept@) =~= string_views(before).push(line@));
            assert(all.subrange(half as int, i + 1) =~= all.subrange(half as int, i as int).push(
                ls@[i as int]@,
            ));
        }
        i = i + 1;
    }
    assert(all.subrange(half as int, ls@.len() as int) =~= all.skip(half as int));
    proof {
        reveal_strlit("\n");
        assert("\n"@ =~= seq!['\n']);
    }
    join_strings(&kept, "\n")
}

/// Settings as loaded: a blank update endpoint is replaced by the default
/// one.
pub fn with_default_endpoint(settings: Settings) -> (r: Settings)
    ensures
        trim(settings.update_endpoint@).len() == 0 ==> r == (Settings {
            update_endpoint: r.update_endpoint,
            ..settings
        }) && r.update_endpoint@ == DEFAULT_UPDATE_ENDPOINT@,
        trim(settings.update_endpoint@).len() > 0 ==> r == settings,
{
    let mut s = settings;
    if is_blank(s.update_endpoint.as_str()) {
        s.update_endpoint = default_update_endpoint();
    }
    s
}


/// The value found under `CloseBehavior` (or `closeBehavior`) in settings of
/// the earlier release.
pub enum LegacyClose {
    /// A number, with its value when it is an integer.
    Number(Option<i64>),
    /// A string.
    Text(String),
    /// Absent, or of another type.
    Other,
}

/// The `Proxy` object of the earlier release.
pub struct LegacyProxy {
    /// `Mode`, when it is an integer.
    pub mode: Option<i64>,
    /// `Address`, when it is a string.
    pub address: Option<String>,
}

/// The `Maintenance` object of the earlier release.
pub struct LegacyMaintenance {
    pub auto_maintain_logs: Option<bool>,
    pub max_log_size_mb: Option<u64>,
    pub auto_check_updates: Option<bool>,
    pub update_manifest_url: Option<String>,
}

/// What the settings file of the earlier release holds, field by field.
pub struct LegacySettings {
    /// The repositories, when `Repositories` (or `repositories`) is present;
    /// empty when it could not be read.
    pub repositories: Option<Vec<Repository>>,
    /// `StartWithWindows` (or `startWithWindows`), when it is a boolean.
    pub start_with_windows: Option<bool>,
    pub close_behavior: LegacyClose,
    pub proxy: Option<LegacyProxy>,
    pub maintenance: Option<LegacyMaintenance>,
}

/// Whether the earlier release's close setting means exiting: the number 1
/// or the text `exit` in any ASCII case.
pub open spec fn legacy_exits(c: LegacyClose) -> bool {
    match c {
        LegacyClose::Number(Some(n)) => n == 1,
        LegacyClose::Text(t) => eq_ignore_case(t@, "exit"@),
        _ => false,
    }
}

/// The proxy mode of the earlier release's numbering: 1 disabled, 2 custom,
/// anything else the system's.
pub open spec fn legacy_proxy_mode(mode: Option<i64>) -> ProxyMode {
    match mode {
        Some(1) => ProxyMode::Disabled,
        Some(2) => ProxyMode::Custom,
        _ => ProxyMode::System,
    }
}

pub open spec fn text_or_empty(t: Option<String>) -> Seq<char> {
    match t {
        Some(s) => s@,
        None => Seq::empty(),
    }
}

/// The current settings read from the earlier release's: defaults, with
/// what it holds taken over.
pub open spec fn from_legacy(l: LegacySettings, s: Settings) -> bool {
    &&& s.repositories@ == match l.repositories {
        Some(v) => v@,
        None => Seq::empty(),
    }
    &&& s.start_with_windows == match l.start_with_windows {
        Some(b) => b,
        None => false,
    }
    &&& s.close_behavior == if legacy_exits(l.close_behavior) {
        CloseBehavior::Exit
    } else {
        CloseBehavior::Background
    }
    &&& match l.proxy {
        None => s.proxy_mode == ProxyMode::System && s.proxy_address@.len() == 0,
        Some(p) => s.proxy_mode == legacy_proxy_mode(p.mode) && s.proxy_address@ == text_or_empty(
            p.address,
        ),
    }
    &&& match l.maintenance {
        None => s.auto_maintain_logs && s.max_log_size_mb == 5 && s.auto_check_updates
            && s.update_endpoint@ == DEFAULT_UPDATE_ENDPOINT@,
        Some(m) => {
            &&& s.auto_maintain_logs == match m.auto_maintain_logs {
                Some(b) => b,
                None => true,
            }
            &&& s.max_log_size_mb == match m.max_log_size_mb {
                Some(n) => n as u32,
                None => 5u32,
            }
            &&& s.auto_check_updates == match m.auto_check_updates {
                Some(b) => b,
                None => false,
            }
            &&& s.update_endpoint@ == text_or_empty(m.update_manifest_url)
        },
    }
    &&& has_default_appearance(s)
}

fn owned_or_empty(t: Option<String>) -> (r: String)
    ensures
        r@ == text_or_empty(t),
{
    match t {
        Some(s) => s,
        None => String::new(),
    }
}

/// Reads settings of the earlier release into the current settings.
pub fn settings_from_legacy(legacy: LegacySettings) -> (s: Settings)
    ensures
        from_legacy(legacy, s),
{
    let mut s = Settings::default();
    match legacy.repositories {
        Some(repos) => {
            s.repositories = repos;
        },
        None => {
            assert(s.repositories@ =~= Seq::<Repository>::empty());
        },
    }
    s.start_with_windows = match legacy.start_with_windows {
        Some(b) => b,
        None => false,
    };
    let exits = match legacy.close_behavior {
        LegacyClose::Number(Some(n)) => n == 1,
        LegacyClose::Text(t) => eq_ignore_ascii_case(t.as_str(), "exit"),
        _ => false,
    };
    s.close_behavior = if exits {
        CloseBehavior::Exit
    } else {
        CloseBehavior::Background
    };
    match legacy.proxy {
        Some(p) => {
            s.proxy_mode = match p.mode {
                Some(1) => ProxyMode::Disabled,
                Some(2) => ProxyMode::Custom,
                _ => ProxyMode::System,
            };
            s.proxy_address = owned_or_empty(p.address);
        },
        None => {},
    }
    match legacy.maintenance {
        Some(m) => {
            s.auto_maintain_logs = match m.auto_maintain_logs {
                Some(b) => b,
                None => true,
            };
            s.max_log_size_mb = match m.max_log_size_mb {
                Some(n) => n as u32,
                None => 5,
            };
            s.auto_check_updates = match m.auto_check_updates {
                Some(b) => b,
                None => false,
            };
            s.update_endpoint = owned_or_empty(m.update_manifest_url);
        },
        None => {},
    }
    s
}

} // verus!
