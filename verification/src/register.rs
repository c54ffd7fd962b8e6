//! Registering a directory that already holds files as a clone of its
//! remote: a repository is created in place, attached to the remote and
//! pointed at the remote branch without touching the files, which then show
//! as local changes. When a step after creating the repository fails, the
//! new `.git` is removed again.
use vstd::prelude::*;
use crate::effects::{args1, args2, args3, args4, is_git, is_local_git, local_git, Effect, GitCommand, Reply, Step};
use crate::git::{default_branch, spec_default_branch};
use crate::models::{GitResult, ProxyMode, Repository, RepositoryPathKind};
use crate::text::{
    count_nonblank, count_nonblank_lines, decimal, decimal_string, join_lines, join_nonblank,
    lines, nonblank, string_views, trim, trim_str,
};

verus! {

/// Where a registration stands: which effect's reply it waits for.
pub enum InitStage {
    /// `git --version`
    CheckingGit,
    /// the classification of the directory
    Inspecting,
    /// whether a `.git` entry is already there
    CheckingGitDirectory,
    /// `git init`
    Initializing,
    /// `git remote add origin <url>`
    AddingRemote { init: String },
    /// `git ls-remote --symref origin HEAD`
    ReadingRemoteHead { init: String },
    /// `git fetch --prune origin`
    Fetching { init: String, advertised: String, branch: String },
    /// `git show-ref --verify refs/remotes/origin/<branch>`
    VerifyingBranch { init: String, advertised: String, fetch: String, branch: String },
    /// `git symbolic-ref HEAD refs/heads/<branch>`
    SettingHead { init: String, advertised: String, fetch: String, branch: String },
    /// `git reset --mixed origin/<branch>`
    Resetting { init: String, advertised: String, fetch: String },
    /// `git status --porcelain`
    CheckingStatus { init: String, advertised: String, fetch: String, reset: String },
    /// removing the new `.git` before reporting the failure
    CleaningUp { message: String, details: String },
}

/// A registration in progress.
pub struct InitFlow {
    pub url: String,
    pub local_path: String,
    pub branch: String,
    pub proxy_mode: ProxyMode,
    pub proxy_address: String,
    pub stage: InitStage,
}

/// Whether a step ends the registration with a failure.
pub open spec fn init_fails(r: Step<InitFlow, GitResult>, message: Seq<char>, details: Seq<char>) -> bool {
    r matches Step::Finish(g) && !g.success && g.message@ == message && g.details@ == details
}

/// The message of a finished registration that kept `changes` local changes.
pub open spec fn registered_message(changes: nat) -> Seq<char> {
    if changes == 0 {
        "Git 仓库注册完成"@
    } else {
        "Git 仓库注册完成，保留了 "@ + decimal(changes) + " 项本地改动"@
    }
}

/// The output of a command reply, or nothing when it failed.
pub open spec fn reply_text(reply: Reply) -> Seq<char> {
    match reply {
        Reply::Output(Ok(o)) => o@,
        _ => Seq::empty(),
    }
}

impl InitStage {
    /// Whether the registration has created the repository and so removes
    /// it again on failure.
    pub open spec fn created(self) -> bool {
        !(self is CheckingGit || self is Inspecting || self is CheckingGitDirectory
            || self is Initializing || self is CleaningUp)
    }

    pub open spec fn adding_remote(self, init: Seq<char>) -> bool {
        match self {
            InitStage::AddingRemote { init: i } => i@ == init,
            _ => false,
        }
    }

    pub open spec fn reading_remote_head(self, init: Seq<char>) -> bool {
        match self {
            InitStage::ReadingRemoteHead { init: i } => i@ == init,
            _ => false,
        }
    }

    pub open spec fn fetching(self, init: Seq<char>, advertised: Seq<char>, branch: Seq<char>) -> bool {
        match self {
            InitStage::Fetching { init: i, advertised: a, branch: b } => i@ == init && a@
                == advertised && b@ == branch,
            _ => false,
        }
    }

    pub open spec fn verifying_branch(
        self,
        init: Seq<char>,
        advertised: Seq<char>,
        fetch: Seq<char>,
        branch: Seq<char>,
    ) -> bool {
        match self {
            InitStage::VerifyingBranch { init: i, advertised: a, fetch: f, branch: b } => i@
                == init && a@ == advertised && f@ == fetch && b@ == branch,
            _ => false,
        }
    }

    pub open spec fn setting_head(
        self,
        init: Seq<char>,
        advertised: Seq<char>,
        fetch: Seq<char>,
        branch: Seq<char>,
    ) -> bool {
        match self {
            InitStage::SettingHead { init: i, advertised: a, fetch: f, branch: b } => i@ == init
                && a@ == advertised && f@ == fetch && b@ == branch,
            _ => false,
        }
    }

    pub open spec fn resetting(self, init: Seq<char>, advertised: Seq<char>, fetch: Seq<char>) -> bool {
        match self {
            InitStage::Resetting { init: i, advertised: a, fetch: f } => i@ == init && a@
                == advertised && f@ == fetch,
            _ => false,
        }
    }

    pub open spec fn checking_status(
        self,
        init: Seq<char>,
        advertised: Seq<char>,
        fetch: Seq<char>,
        reset: Seq<char>,
    ) -> bool {
        match self {
            InitStage::CheckingStatus { init: i, advertised: a, fetch: f, reset: r } => i@ == init
                && a@ == advertised && f@ == fetch && r@ == reset,
            _ => false,
        }
    }

    pub open spec fn cleaning_up(self, message: Seq<char>, details: Seq<char>) -> bool {
        match self {
            InitStage::CleaningUp { message: m, details: d } => m@ == message && d@ == details,
            _ => false,
        }
    }
}

impl InitFlow {
    /// Whether `other` registers the same directory with the same proxy.
    pub open spec fn same_job(self, other: InitFlow) -> bool {
        &&& other.url@ == self.url@
        &&& other.local_path@ == self.local_path@
        &&& other.branch@ == self.branch@
        &&& other.proxy_mode == self.proxy_mode
        &&& other.proxy_address@ == self.proxy_address@
    }

    /// Whether `reply` is of the kind the registration waits for.
    pub open spec fn expects(self, reply: Reply) -> bool {
        match self.stage {
            InitStage::Inspecting => reply is Kind,
            InitStage::CheckingGitDirectory => reply is Flag,
            InitStage::CleaningUp { .. } => reply is Done,
            _ => reply is Output,
        }
    }

    /// Whether `r` removes the new `.git` and then reports `message`.
    pub open spec fn cleans_up(self, r: Step<InitFlow, GitResult>, message: Seq<char>, details: Seq<char>) -> bool {
        r matches Step::Perform(e, f) && e == Effect::RemoveGitDirectory(self.local_path)
            && self.same_job(f) && f.stage.cleaning_up(message, details)
    }

    /// The step that follows `reply`.
    pub open spec fn resumes(self, reply: Reply, r: Step<InitFlow, GitResult>) -> bool {
        let dir = Some(self.local_path@);
        match self.stage {
            InitStage::CheckingGit => match reply {
                Reply::Output(Err(e)) => init_fails(r, "未找到 Git，请先安装 Git for Windows"@, e@),
                _ => (r matches Step::Perform(e, f) && self.same_job(f) && e
                    == Effect::InspectPath(self.local_path) && f.stage is Inspecting),
            },
            InitStage::Inspecting => match reply {
                Reply::Kind(RepositoryPathKind::NonGit) => (r matches Step::Perform(e, f)
                    && self.same_job(f) && e == Effect::GitDirectoryExists(self.local_path)
                    && f.stage is CheckingGitDirectory),
                Reply::Kind(RepositoryPathKind::Git) => init_fails(
                    r,
                    "目标目录已经是 Git 仓库"@,
                    Seq::empty(),
                ),
                Reply::Kind(RepositoryPathKind::Missing) | Reply::Kind(RepositoryPathKind::Empty) => {
                    init_fails(r, "空目录无需注册，请直接执行克隆"@, Seq::empty())
                },
                Reply::Kind(RepositoryPathKind::NestedGit) => init_fails(
                    r,
                    "目标目录位于另一个 Git 仓库中，已停止注册"@,
                    Seq::empty(),
                ),
                _ => init_fails(r, "目标目录无效"@, Seq::empty()),
            },
            InitStage::CheckingGitDirectory => match reply {
                Reply::Flag(true) => init_fails(
                    r,
                    "目录中已存在无效的 .git，请先手动检查"@,
                    Seq::empty(),
                ),
                _ => (r matches Step::Perform(e, f) && self.same_job(f) && is_local_git(
                    e,
                    dir,
                    seq!["init"@],
                ) && f.stage is Initializing),
            },
            InitStage::Initializing => match reply {
                Reply::Output(Err(e)) => init_fails(r, "初始化 Git 仓库失败"@, e@),
                _ => (r matches Step::Perform(e, f) && self.same_job(f) && is_local_git(
                    e,
                    dir,
                    seq!["remote"@, "add"@, "origin"@, trim(self.url@)],
                ) && f.stage.adding_remote(reply_text(reply))),
            },
            InitStage::AddingRemote { init } => match reply {
                Reply::Output(Err(e)) => self.cleans_up(r, "关联 origin 失败"@, e@),
                _ => (r matches Step::Perform(e, f) && self.same_job(f) && is_git(
                    e,
                    dir,
                    seq!["ls-remote"@, "--symref"@, "origin"@, "HEAD"@],
                    self.proxy_mode,
                    self.proxy_address@,
                ) && f.stage.reading_remote_head(init@)),
            },
            InitStage::ReadingRemoteHead { init } => match reply {
                Reply::Output(Err(e)) => self.cleans_up(r, "无法读取远程默认分支"@, e@),
                _ => {
                    let advertised = reply_text(reply);
                    if trim(self.branch@).len() == 0 && spec_default_branch(advertised) is None {
                        self.cleans_up(r, "无法识别远程默认分支，请先填写分支名"@, advertised)
                    } else {
                        let branch = if trim(self.branch@).len() == 0 {
                            spec_default_branch(advertised)->0
                        } else {
                            trim(self.branch@)
                        };
                        (r matches Step::Perform(e, f) && self.same_job(f) && is_git(
                            e,
                            dir,
                            seq!["fetch"@, "--prune"@, "origin"@],
                            self.proxy_mode,
                            self.proxy_address@,
                        ) && f.stage.fetching(init@, advertised, branch))
                    }
                },
            },
            InitStage::Fetching { init, advertised, branch } => match reply {
                Reply::Output(Err(e)) => self.cleans_up(r, "获取远程仓库失败"@, e@),
                _ => (r matches Step::Perform(e, f) && self.same_job(f) && is_local_git(
                    e,
                    dir,
                    seq!["show-ref"@, "--verify"@, "refs/remotes/origin/"@ + branch@],
                ) && f.stage.verifying_branch(init@, advertised@, reply_text(reply), branch@)),
            },
            InitStage::VerifyingBranch { init, advertised, fetch, branch } => match reply {
                Reply::Output(Err(e)) => self.cleans_up(r, "远程不存在分支 "@ + branch@, e@),
                _ => (r matches Step::Perform(e, f) && self.same_job(f) && is_local_git(
                    e,
                    dir,
                    seq!["symbolic-ref"@, "HEAD"@, "refs/heads/"@ + branch@],
                ) && f.stage.setting_head(init@, advertised@, fetch@, branch@)),
            },
            InitStage::SettingHead { init, advertised, fetch, branch } => match reply {
                Reply::Output(Err(e)) => self.cleans_up(r, "设置本地分支失败"@, e@),
                _ => (r matches Step::Perform(e, f) && self.same_job(f) && is_local_git(
                    e,
                    dir,
                    seq!["reset"@, "--mixed"@, "origin/"@ + branch@],
                ) && f.stage.resetting(init@, advertised@, fetch@)),
            },
            InitStage::Resetting { init, advertised, fetch } => match reply {
                Reply::Output(Err(e)) => self.cleans_up(r, "建立远程基线失败"@, e@),
                _ => (r matches Step::Perform(e, f) && self.same_job(f) && is_local_git(
                    e,
                    dir,
                    seq!["status"@, "--porcelain"@],
                ) && f.stage.checking_status(init@, advertised@, fetch@, reply_text(reply))),
            },
            InitStage::CheckingStatus { init, advertised, fetch, reset } => match reply {
                Reply::Output(Err(e)) => self.cleans_up(r, "无法检查注册结果"@, e@),
                _ => {
                    let status = reply_text(reply);
                    (r matches Step::Finish(g) && g.success && g.message@ == registered_message(
                        count_nonblank(lines(status)),
                    ) && g.details@ == join_lines(
                        nonblank(seq![init@, advertised@, fetch@, reset@, status]),
                    ))
                },
            },
            InitStage::CleaningUp { message, details } => init_fails(r, message@, details@),
        }
    }
}

fn init_failure(message: &str, details: String) -> (r: Step<InitFlow, GitResult>)
    ensures
        init_fails(r, message@, details@),
{
    Step::Finish(GitResult { success: false, message: String::from_str(message), details })
}

fn output_text(reply: Reply) -> (r: String)
    ensures
        r@ == reply_text(reply),
{
    match reply {
        Reply::Output(Ok(o)) => o,
        _ => String::new(),
    }
}

/// Starts registering `repo`'s directory: the first effect checks that Git
/// is installed.
pub fn initialize(repo: &Repository, proxy_mode: ProxyMode, proxy_address: &str) -> (r: Step<InitFlow, GitResult>)
    ensures
        r matches Step::Perform(e, f) && is_local_git(e, None, seq!["--version"@])
            && f.stage is CheckingGit && f.url@ == repo.url@ && f.local_path@ == repo.local_path@
            && f.branch@ == repo.branch@ && f.proxy_mode == proxy_mode && f.proxy_address@
            == proxy_address@,
{
    let flow = InitFlow {
        url: repo.url.clone(),
        local_path: repo.local_path.clone(),
        branch: repo.branch.clone(),
        proxy_mode,
        proxy_address: String::from_str(proxy_address),
        stage: InitStage::CheckingGit,
    };
    Step::Perform(local_git(None, args1("--version")), flow)
}

impl InitFlow {
    fn next(self, effect: Effect, stage: InitStage) -> (r: Step<InitFlow, GitResult>)
        ensures
            r matches Step::Perform(e, f) && e == effect && f.stage == stage && self.same_job(f),
    {
        Step::Perform(effect, InitFlow { stage, ..self })
    }

    fn clean_up(self, message: String, details: String) -> (r: Step<InitFlow, GitResult>)
        ensures
            self.cleans_up(r, message@, details@),
    {
        let path = self.local_path.clone();
        self.next(Effect::RemoveGitDirectory(path), InitStage::CleaningUp { message, details })
    }

    fn in_repository(&self, args: Vec<String>) -> (e: Effect)
        ensures
            is_local_git(e, Some(self.local_path@), string_views(args@)),
    {
        local_git(Some(self.local_path.clone()), args)
    }

    fn networked(&self, args: Vec<String>) -> (e: Effect)
        ensures
            is_git(e, Some(self.local_path@), string_views(args@), self.proxy_mode, self.proxy_address@),
    {
        Effect::Git(
            GitCommand {
                directory: Some(self.local_path.clone()),
                args,
                proxy_mode: self.proxy_mode,
                proxy_address: self.proxy_address.clone(),
            },
        )
    }

    /// Continues the registration with the reply to its last effect.
    pub fn resume(self, reply: Reply) -> (r: Step<InitFlow, GitResult>)
        requires
            self.expects(reply),
        ensures
            self.resumes(reply, r),
    {
        match self.stage {
            InitStage::CheckingGit => match reply {
                Reply::Output(Err(e)) => init_failure("未找到 Git，请先安装 Git for Windows", e),
                _ => {
                    let path = self.local_path.clone();
                    self.next(Effect::InspectPath(path), InitStage::Inspecting)
                },
            },
            InitStage::Inspecting => match reply {
                Reply::Kind(RepositoryPathKind::NonGit) => {
                    let path = self.local_path.clone();
                    self.next(Effect::GitDirectoryExists(path), InitStage::CheckingGitDirectory)
                },
                Reply::Kind(RepositoryPathKind::Git) => init_failure(
                    "目标目录已经是 Git 仓库",
                    String::new(),
                ),
                Reply::Kind(RepositoryPathKind::Missing) | Reply::Kind(RepositoryPathKind::Empty) => {
                    init_failure("空目录无需注册，请直接执行克隆", String::new())
                },
                Reply::Kind(RepositoryPathKind::NestedGit) => init_failure(
                    "目标目录位于另一个 Git 仓库中，已停止注册",
                    String::new(),
                ),
                _ => init_failure("目标目录无效", String::new()),
            },
            InitStage::CheckingGitDirectory => match reply {
                Reply::Flag(true) => init_failure(
                    "目录中已存在无效的 .git，请先手动检查",
                    String::new(),
                ),
                _ => {
                    let e = self.in_repository(args1("init"));
                    self.next(e, InitStage::Initializing)
                },
            },
            InitStage::Initializing => match reply {
                Reply::Output(Err(e)) => init_failure("初始化 Git 仓库失败", e),
                _ => {
                    let init = output_text(reply);
                    let url = trim_str(self.url.as_str());
                    let e = self.in_repository(args4("remote", "add", "origin", url.as_str()));
                    self.next(e, InitStage::AddingRemote { init })
                },
            },
            InitStage::AddingRemote { init } => match reply {
                Reply::Output(Err(e)) => {
                    let flow = InitFlow { stage: InitStage::Initializing, ..self };
                    flow.clean_up(String::from_str("关联 origin 失败"), e)
                },
                _ => {
                    let flow = InitFlow { stage: InitStage::Initializing, ..self };
                    let e = flow.networked(args4("ls-remote", "--symref", "origin", "HEAD"));
                    flow.next(e, InitStage::ReadingRemoteHead { init })
                },
            },
            InitStage::ReadingRemoteHead { init } => match reply {
                Reply::Output(Err(e)) => {
                    let flow = InitFlow { stage: InitStage::Initializing, ..self };
                    flow.clean_up(String::from_str("无法读取远程默认分支"), e)
                },
                _ => {
                    let advertised = output_text(reply);
                    let configured = trim_str(self.branch.as_str());
                    let flow = InitFlow { stage: InitStage::Initializing, ..self };
                    let branch = if configured.as_str().is_empty() {
                        match default_branch(advertised.as_str()) {
                            Some(b) => b,
                            None => {
                                return flow.clean_up(
                                    String::from_str("无法识别远程默认分支，请先填写分支名"),
                                    advertised,
                                );
                            },
                        }
                    } else {
                        configured
                    };
                    let e = flow.networked(args3("fetch", "--prune", "origin"));
                    flow.next(e, InitStage::Fetching { init, advertised, branch })
                },
            },
            InitStage::Fetching { init, advertised, branch } => match reply {
                Reply::Output(Err(e)) => {
                    let flow = InitFlow { stage: InitStage::Initializing, ..self };
                    flow.clean_up(String::from_str("获取远程仓库失败"), e)
                },
                _ => {
                    let fetch = output_text(reply);
                    let flow = InitFlow { stage: InitStage::Initializing, ..self };
                    let reference = String::from_str("refs/remotes/origin/").concat(branch.as_str());
                    let e = flow.in_repository(args3("show-ref", "--verify", reference.as_str()));
                    flow.next(e, InitStage::VerifyingBranch { init, advertised, fetch, branch })
                },
            },
            InitStage::VerifyingBranch { init, advertised, fetch, branch } => match reply {
                Reply::Output(Err(e)) => {
                    let flow = InitFlow { stage: InitStage::Initializing, ..self };
                    let message = String::from_str("远程不存在分支 ").concat(branch.as_str());
                    flow.clean_up(message, e)
                },
                _ => {
                    let flow = InitFlow { stage: InitStage::Initializing, ..self };
                    let reference = String::from_str("refs/heads/").concat(branch.as_str());
                    let e = flow.in_repository(args3("symbolic-ref", "HEAD", reference.as_str()));
                    flow.next(e, InitStage::SettingHead { init, advertised, fetch, branch })
                },
            },
            InitStage::SettingHead { init, advertised, fetch, branch } => match reply {
                Reply::Output(Err(e)) => {
                    let flow = InitFlow { stage: InitStage::Initializing, ..self };
                    flow.clean_up(String::from_str("设置本地分支失败"), e)
                },
                _ => {
                    let flow = InitFlow { stage: InitStage::Initializing, ..self };
                    let target = String::from_str("origin/").concat(branch.as_str());
                    let e = flow.in_repository(args3("reset", "--mixed", target.as_str()));
                    flow.next(e, InitStage::Resetting { init, advertised, fetch })
                },
            },
            InitStage::Resetting { init, advertised, fetch } => match reply {
                Reply::Output(Err(e)) => {
                    let flow = InitFlow { stage: InitStage::Initializing, ..self };
                    flow.clean_up(String::from_str("建立远程基线失败"), e)
                },
                _ => {
                    let reset = output_text(reply);
                    let flow = InitFlow { stage: InitStage::Initializing, ..self };
                    let e = flow.in_repository(args2("status", "--porcelain"));
                    flow.next(e, InitStage::CheckingStatus { init, advertised, fetch, reset })
                },
            },
            InitStage::CheckingStatus { init, advertised, fetch, reset } => match reply {
                Reply::Output(Err(e)) => {
                    let flow = InitFlow { stage: InitStage::Initializing, ..self };
                    flow.clean_up(String::from_str("无法检查注册结果"), e)
                },
                _ => {
                    let status = output_text(reply);
                    let changes = count_nonblank_lines(status.as_str());
                    let message = if changes == 0 {
                        String::from_str("Git 仓库注册完成")
                    } else {
                        String::from_str("Git 仓库注册完成，保留了 ").concat(
                            decimal_string(changes).as_str(),
                        ).concat(" 项本地改动")
                    };
                    let mut parts: Vec<String> = Vec::new();
                    parts.push(init);
                    parts.push(advertised);
                    parts.push(fetch);
                    parts.push(reset);
                    parts.push(status);
                    let ghost views = string_views(parts@);
                    let details = join_nonblank(&parts);
                    proof {
                        assert(views =~= seq![
                            views[0],
                            views[1],
                            views[2],
                            views[3],
                            views[4],
                        ]);
                    }
                    Step::Finish(GitResult { success: true, message, details })
                },
            },
            InitStage::CleaningUp { message, details } => Step::Finish(
                GitResult { success: false, message, details },
            ),
        }
    }
}


/// The Git commands a registration may run: none of them rewrites the
/// working files.
pub open spec fn keeps_working_files(args: Seq<Seq<char>>) -> bool {
    &&& args.len() > 0
    &&& {
        let c = args[0];
        ||| c == "--version"@
        ||| c == "init"@
        ||| c == "remote"@
        ||| c == "ls-remote"@
        ||| c == "fetch"@
        ||| c == "show-ref"@
        ||| c == "symbolic-ref"@
        ||| c == "status"@
        ||| (c == "reset"@ && args.len() > 1 && args[1] == "--mixed"@)
    }
}

/// Registering a directory never rewrites its files: every Git command it
/// runs is one of those above, and its only reset keeps the working tree
/// (`--mixed`).
pub proof fn law_registration_keeps_files(flow: InitFlow, reply: Reply, r: Step<InitFlow, GitResult>)
    requires
        flow.expects(reply),
        flow.resumes(reply, r),
        r matches Step::Perform(Effect::Git(c), _),
    ensures
        r matches Step::Perform(Effect::Git(c), _) && keeps_working_files(string_views(c.args@)),
{
}

/// A registration that fails after creating the repository removes the new
/// `.git` before it reports the failure.
pub proof fn law_failed_registration_cleans_up(
    flow: InitFlow,
    error: String,
    r: Step<InitFlow, GitResult>,
    last: Step<InitFlow, GitResult>,
    outcome: Result<(), String>,
)
    requires
        flow.stage.created(),
        flow.resumes(Reply::Output(Err(error)), r),
        r matches Step::Perform(_, f) && f.resumes(Reply::Done(outcome), last),
    ensures
        r matches Step::Perform(e, _) && e == Effect::RemoveGitDirectory(flow.local_path),
        last matches Step::Finish(g) && !g.success,
{
}


/// A configured branch is the one a registration works on, whatever default
/// branch the remote advertises: after `ls-remote` and `fetch`, the branch
/// verified, the one `HEAD` is pointed at and the one reset to are all the
/// trimmed configured branch.
pub proof fn law_configured_branch_wins(
    flow: InitFlow,
    advertised: String,
    fetched: String,
    verified: String,
    headed: String,
    r1: Step<InitFlow, GitResult>,
    r2: Step<InitFlow, GitResult>,
    r3: Step<InitFlow, GitResult>,
    r4: Step<InitFlow, GitResult>,
)
    requires
        flow.stage is ReadingRemoteHead,
        trim(flow.branch@).len() > 0,
        flow.resumes(Reply::Output(Ok(advertised)), r1),
        r1 matches Step::Perform(_, f1) && f1.resumes(Reply::Output(Ok(fetched)), r2),
        r2 matches Step::Perform(_, f2) && f2.resumes(Reply::Output(Ok(verified)), r3),
        r3 matches Step::Perform(_, f3) && f3.resumes(Reply::Output(Ok(headed)), r4),
    ensures
        r1 matches Step::Perform(e, _) && is_git(
            e,
            Some(flow.local_path@),
            seq!["fetch"@, "--prune"@, "origin"@],
            flow.proxy_mode,
            flow.proxy_address@,
        ),
        r2 matches Step::Perform(e, _) && is_local_git(
            e,
            Some(flow.local_path@),
            seq!["show-ref"@, "--verify"@, "refs/remotes/origin/"@ + trim(flow.branch@)],
        ),
        r3 matches Step::Perform(e, _) && is_local_git(
            e,
            Some(flow.local_path@),
            seq!["symbolic-ref"@, "HEAD"@, "refs/heads/"@ + trim(flow.branch@)],
        ),
        r4 matches Step::Perform(e, _) && is_local_git(
            e,
            Some(flow.local_path@),
            seq!["reset"@, "--mixed"@, "origin/"@ + trim(flow.branch@)],
        ),
{
}

} // verus!
