//! The effects that the library's procedures ask their caller to perform,
//! and the replies the caller hands back.
//!
//! A procedure that talks to Git or to the file system is a value that,
//! given the reply to its last request, either asks for the next effect or
//! finishes. The caller performs each effect and resumes the procedure with
//! the reply that matches it.
use vstd::prelude::*;
use crate::git::option_view;
use crate::models::{ProxyMode, RepositoryPathKind};
use crate::text::{string_views, trim, trim_str};

verus! {

/// A `git` invocation: its working directory (the process's own when
/// absent), its arguments, and the proxy that network commands use.
pub struct GitCommand {
    pub directory: Option<String>,
    pub args: Vec<String>,
    pub proxy_mode: ProxyMode,
    pub proxy_address: String,
}

impl GitCommand {
    /// Whether this command runs `args` in `directory` with the given proxy.
    pub open spec fn is(
        self,
        directory: Option<Seq<char>>,
        args: Seq<Seq<char>>,
        mode: ProxyMode,
        address: Seq<char>,
    ) -> bool {
        &&& option_view(self.directory) == directory
        &&& string_views(self.args@) == args
        &&& self.proxy_mode == mode
        &&& self.proxy_address@ == address
    }

    /// Whether this command runs `args` in `directory` without proxy
    /// settings of its own.
    pub open spec fn is_local(self, directory: Option<Seq<char>>, args: Seq<Seq<char>>) -> bool {
        self.is(directory, args, ProxyMode::System, Seq::empty())
    }
}

/// The `-c` options that set Git's proxy for one invocation: both proxies
/// emptied when proxies are disabled, both set to the trimmed address for a
/// custom proxy with an address, none otherwise.
pub open spec fn proxy_options(mode: ProxyMode, address: Seq<char>) -> Seq<Seq<char>> {
    if mode == ProxyMode::Disabled {
        seq!["-c"@, "http.proxy="@, "-c"@, "https.proxy="@]
    } else if mode == ProxyMode::Custom && trim(address).len() > 0 {
        seq!["-c"@, "http.proxy="@ + trim(address), "-c"@, "https.proxy="@ + trim(address)]
    } else {
        seq![]
    }
}

impl GitCommand {
    /// The arguments to hand to `git`: the proxy options, then the command.
    pub fn command_line(&self) -> (r: Vec<String>)
        ensures
            string_views(r@) == proxy_options(self.proxy_mode, self.proxy_address@) + string_views(
                self.args@,
            ),
    {
        let mut out: Vec<String> = Vec::new();
        match self.proxy_mode {
            ProxyMode::Disabled => {
                out.push(String::from_str("-c"));
                out.push(String::from_str("http.proxy="));
                out.push(String::from_str("-c"));
                out.push(String::from_str("https.proxy="));
            },
            ProxyMode::Custom => {
                let address = trim_str(self.proxy_address.as_str());
                if !address.as_str().is_empty() {
                    out.push(String::from_str("-c"));
                    out.push(String::from_str("http.proxy=").concat(address.as_str()));
                    out.push(String::from_str("-c"));
                    out.push(String::from_str("https.proxy=").concat(address.as_str()));
                }
            },
            ProxyMode::System => {},
        }
        let ghost options = string_views(out@);
        assert(options =~= proxy_options(self.proxy_mode, self.proxy_address@));
        let mut i: usize = 0;
        while i < self.args.len()
            invariant
                i <= self.args@.len(),
                string_views(out@) == options + string_views(self.args@).take(i as int),
            decreases self.args@.len() - i,
        {
            let ghost before = out@;
            let a = self.args[i].clone();
            out.push(a);
            assert(string_views(out@) =~= string_views(before).push(a@));
            assert(string_views(self.args@).take(i + 1) =~= string_views(self.args@).take(
                i as int,
            ).push(a@));
            i = i + 1;
        }
        assert(string_views(self.args@).take(self.args@.len() as int) =~= string_views(
            self.args@,
        ));
        out
    }
}

/// What `git` printed, trimmed: its standard output followed by its
/// standard error.
pub open spec fn command_text(stdout: Seq<char>, stderr: Seq<char>) -> Seq<char> {
    trim(stdout + stderr)
}

/// The reply to a Git command: its text when it exited successfully, the
/// same text as an error otherwise.
pub fn command_outcome(stdout: String, stderr: &str, success: bool) -> (r: Result<String, String>)
    ensures
        success ==> (r matches Ok(t) && t@ == command_text(stdout@, stderr@)),
        !success ==> (r matches Err(t) && t@ == command_text(stdout@, stderr@)),
{
    let all = stdout.concat(stderr);
    let text = trim_str(all.as_str());
    if success {
        Ok(text)
    } else {
        Err(text)
    }
}

/// An effect that a procedure asks for.
pub enum Effect {
    /// Run Git; reply with [`Reply::Output`].
    Git(GitCommand),
    /// Whether the path exists; reply with [`Reply::Flag`].
    PathExists(String),
    /// Whether the path is a directory; reply with [`Reply::Flag`].
    IsDirectory(String),
    /// Whether the directory has any entry; reply with [`Reply::Entries`].
    ReadDirectory(String),
    /// Whether the two paths name the same file once resolved; reply with
    /// [`Reply::Flag`].
    SamePath(String, String),
    /// Classify the local directory; reply with [`Reply::Kind`].
    InspectPath(String),
    /// Create the parent directories of the path; reply with
    /// [`Reply::Done`].
    CreateParentDirectory(String),
    /// Whether the directory holds a `.git` entry; reply with
    /// [`Reply::Flag`].
    GitDirectoryExists(String),
    /// Remove the directory's `.git` entry; reply with [`Reply::Done`].
    RemoveGitDirectory(String),
}

/// The reply to an effect.
pub enum Reply {
    Output(Result<String, String>),
    Flag(bool),
    Entries(Result<bool, String>),
    Kind(RepositoryPathKind),
    Done(Result<(), String>),
}

/// Whether `reply` is of the kind that `effect` calls for.
pub open spec fn answers(effect: Effect, reply: Reply) -> bool {
    match effect {
        Effect::Git(_) => reply is Output,
        Effect::PathExists(_) => reply is Flag,
        Effect::IsDirectory(_) => reply is Flag,
        Effect::ReadDirectory(_) => reply is Entries,
        Effect::SamePath(_, _) => reply is Flag,
        Effect::InspectPath(_) => reply is Kind,
        Effect::CreateParentDirectory(_) => reply is Done,
        Effect::GitDirectoryExists(_) => reply is Flag,
        Effect::RemoveGitDirectory(_) => reply is Done,
    }
}

/// A step of a procedure: an effect to perform before resuming, or the end.
pub enum Step<F, T> {
    Perform(Effect, F),
    Finish(T),
}

/// Whether `e` runs Git with the given arguments, directory and proxy.
pub open spec fn is_git(
    e: Effect,
    directory: Option<Seq<char>>,
    args: Seq<Seq<char>>,
    mode: ProxyMode,
    address: Seq<char>,
) -> bool {
    e matches Effect::Git(c) && c.is(directory, args, mode, address)
}

/// Whether `e` runs Git with the given arguments and directory, without a
/// proxy of its own.
pub open spec fn is_local_git(e: Effect, directory: Option<Seq<char>>, args: Seq<Seq<char>>) -> bool {
    e matches Effect::Git(c) && c.is_local(directory, args)
}

/// A Git command without proxy settings of its own.
pub fn local_git(directory: Option<String>, args: Vec<String>) -> (e: Effect)
    ensures
        is_local_git(e, option_view(directory), string_views(args@)),
{
    Effect::Git(
        GitCommand { directory, args, proxy_mode: ProxyMode::System, proxy_address: String::new() },
    )
}

/// The argument list `[a]`.
pub fn args1(a: &str) -> (r: Vec<String>)
    ensures
        string_views(r@) == seq![a@],
{
    let mut r: Vec<String> = Vec::new();
    r.push(String::from_str(a));
    assert(string_views(r@) =~= seq![a@]);
    r
}

/// The argument list `[a, b]`.
pub fn args2(a: &str, b: &str) -> (r: Vec<String>)
    ensures
        string_views(r@) == seq![a@, b@],
{
    let mut r: Vec<String> = Vec::new();
    r.push(String::from_str(a));
    r.push(String::from_str(b));
    assert(string_views(r@) =~= seq![a@, b@]);
    r
}

/// The argument list `[a, b, c]`.
pub fn args3(a: &str, b: &str, c: &str) -> (r: Vec<String>)
    ensures
        string_views(r@) == seq![a@, b@, c@],
{
    let mut r: Vec<String> = Vec::new();
    r.push(String::from_str(a));
    r.push(String::from_str(b));
    r.push(String::from_str(c));
    assert(string_views(r@) =~= seq![a@, b@, c@]);
    r
}

/// The argument list `[a, b, c, d]`.
pub fn args4(a: &str, b: &str, c: &str, d: &str) -> (r: Vec<String>)
    ensures
        string_views(r@) == seq![a@, b@, c@, d@],
{
    let mut r: Vec<String> = Vec::new();
    r.push(String::from_str(a));
    r.push(String::from_str(b));
    r.push(String::from_str(c));
    r.push(String::from_str(d));
    assert(string_views(r@) =~= seq![a@, b@, c@, d@]);
    r
}


/// How a command line is made up: the command's own arguments always come
/// last and unchanged; in system mode, and in custom mode without an
/// address, nothing is put before them (Git keeps its own proxy settings);
/// only disabled proxies, or a custom address, add `-c` options in front.
pub proof fn law_command_line_keeps_git_proxy(c: GitCommand, line: Seq<Seq<char>>)
    requires
        line == proxy_options(c.proxy_mode, c.proxy_address@) + string_views(c.args@),
    ensures
        line.len() >= string_views(c.args@).len(),
        line.skip(line.len() - string_views(c.args@).len()) == string_views(c.args@),
        c.proxy_mode == ProxyMode::System ==> line == string_views(c.args@),
        c.proxy_mode == ProxyMode::Custom && trim(c.proxy_address@).len() == 0 ==> line
            == string_views(c.args@),
        line.len() > string_views(c.args@).len() ==> (c.proxy_mode == ProxyMode::Disabled || (
        c.proxy_mode == ProxyMode::Custom && trim(c.proxy_address@).len() > 0)),
        c.proxy_mode == ProxyMode::Disabled ==> line.len() == string_views(c.args@).len() + 4
            && line[1] == "http.proxy="@ && line[3] == "https.proxy="@,
{
    let a = string_views(c.args@);
    let o = proxy_options(c.proxy_mode, c.proxy_address@);
    assert(line.skip(line.len() - a.len()) =~= a);
    if c.proxy_mode == ProxyMode::System || (c.proxy_mode == ProxyMode::Custom && trim(c.proxy_address@).len() == 0) {
        assert(o =~= Seq::<Seq<char>>::empty());
        assert(line =~= a);
    }
}

} // verus!
