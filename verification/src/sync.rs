//! Syncing a registered repository: a first sync clones it; later syncs
//! fast-forward the checked-out branch, and only when the working copy is
//! clean, its origin is the registered address and the right branch is
//! checked out.
use vstd::prelude::*;
use crate::effects::{args1, args2, args3, is_git, is_local_git, local_git, Effect, GitCommand, Reply, Step};
use crate::git::{normalize_remote, normalized_remote, short, short_text};
use crate::models::{GitResult, ProxyMode, Repository, RepositoryPathKind};
use crate::text::{is_blank, string_views, trim, trim_str};

verus! {

/// Where a sync stands: which effect's reply it waits for.
pub enum UpdateStage {
    /// `git --version`
    CheckingGit,
    /// the classification of the local directory
    Inspecting,
    /// creating the parent directories for a clone
    CreatingParent,
    /// `git clone`
    Cloning,
    /// `git remote get-url origin`
    ReadingOrigin,
    /// `git status --porcelain`
    CheckingStatus,
    /// `git fetch --prune origin`
    Fetching,
    /// `git branch --show-current`
    ReadingBranch { fetch: String },
    /// `git rev-parse HEAD` before the merge
    ReadingBefore { fetch: String, branch: String },
    /// `git merge --ff-only origin/<branch>`
    Merging { fetch: String, before: String },
    /// `git rev-parse HEAD` after the merge
    ReadingAfter { fetch: String, before: String, merge: String },
}

/// A sync in progress.
pub struct UpdateFlow {
    pub url: String,
    pub local_path: String,
    pub branch: String,
    pub proxy_mode: ProxyMode,
    pub proxy_address: String,
    pub stage: UpdateStage,
    /// The origin address that the repository reported, once read.
    pub origin: Ghost<Seq<char>>,
    /// What `git status --porcelain` reported, once read.
    pub status: Ghost<Seq<char>>,
}

/// The arguments of the first sync's `git clone`: with `--branch <b>
/// --single-branch` when a branch is configured, then the address and the
/// local path.
pub open spec fn clone_args(url: Seq<char>, local_path: Seq<char>, branch: Seq<char>) -> Seq<
    Seq<char>,
> {
    let b = trim(branch);
    let middle = if b.len() > 0 {
        seq!["--branch"@, b, "--single-branch"@]
    } else {
        seq![]
    };
    seq!["clone"@, "--progress"@] + middle + seq![url, local_path]
}

/// Whether a step ends the sync with a failure.
pub open spec fn fails_with(r: Step<UpdateFlow, GitResult>, message: Seq<char>, details: Seq<char>) -> bool {
    r matches Step::Finish(g) && !g.success && g.message@ == message && g.details@ == details
}

/// Whether a step ends the sync with a success.
pub open spec fn succeeds_with(r: Step<UpdateFlow, GitResult>, message: Seq<char>, details: Seq<char>) -> bool {
    r matches Step::Finish(g) && g.success && g.message@ == message && g.details@ == details
}

/// The branch the sync works on: the configured one, or the checked-out
/// one when none is configured.
pub open spec fn wanted_branch(configured: Seq<char>, current: Seq<char>) -> Seq<char> {
    if trim(configured).len() == 0 {
        current
    } else {
        trim(configured)
    }
}

/// The text of a command's reply, or nothing when it failed.
pub open spec fn output_or_empty(reply: Reply) -> Seq<char> {
    match reply {
        Reply::Output(Ok(o)) => o@,
        _ => Seq::empty(),
    }
}

impl UpdateStage {
    pub open spec fn reading_branch(self, fetch: Seq<char>) -> bool {
        match self {
            UpdateStage::ReadingBranch { fetch: f } => f@ == fetch,
            _ => false,
        }
    }

    pub open spec fn reading_before(self, fetch: Seq<char>, branch: Seq<char>) -> bool {
        match self {
            UpdateStage::ReadingBefore { fetch: f, branch: b } => f@ == fetch && b@ == branch,
            _ => false,
        }
    }

    pub open spec fn merging(self, fetch: Seq<char>, before: Seq<char>) -> bool {
        match self {
            UpdateStage::Merging { fetch: f, before: b } => f@ == fetch && b@ == before,
            _ => false,
        }
    }

    pub open spec fn reading_after(self, fetch: Seq<char>, before: Seq<char>, merge: Seq<char>) -> bool {
        match self {
            UpdateStage::ReadingAfter { fetch: f, before: b, merge: m } => f@ == fetch && b@
                == before && m@ == merge,
            _ => false,
        }
    }

    /// Whether the sync has passed the origin check.
    pub open spec fn past_origin(self) -> bool {
        !(self is CheckingGit || self is Inspecting || self is CreatingParent || self is Cloning
            || self is ReadingOrigin)
    }

    /// Whether the sync has passed the working-copy check.
    pub open spec fn past_status(self) -> bool {
        self.past_origin() && !(self is CheckingStatus)
    }
}

impl UpdateFlow {
    /// Whether `other` syncs the same repository with the same proxy.
    pub open spec fn same_job(self, other: UpdateFlow) -> bool {
        &&& other.url@ == self.url@
        &&& other.local_path@ == self.local_path@
        &&& other.branch@ == self.branch@
        &&& other.proxy_mode == self.proxy_mode
        &&& other.proxy_address@ == self.proxy_address@
    }

    /// What every sync keeps: once past the origin check the reported origin
    /// matches the registered address, and once past the working-copy check
    /// the working copy was clean.
    pub open spec fn consistent(self) -> bool {
        &&& self.stage.past_origin() ==> normalized_remote(trim(self.origin@))
            == normalized_remote(trim(self.url@))
        &&& self.stage.past_status() ==> trim(self.status@).len() == 0
    }

    /// Whether `reply` is of the kind the sync waits for.
    pub open spec fn expects(self, reply: Reply) -> bool {
        match self.stage {
            UpdateStage::Inspecting => reply is Kind,
            UpdateStage::CreatingParent => reply is Done,
            _ => reply is Output,
        }
    }

    /// The step that follows `reply`.
    pub open spec fn resumes(self, reply: Reply, r: Step<UpdateFlow, GitResult>) -> bool {
        let dir = Some(self.local_path@);
        match self.stage {
            UpdateStage::CheckingGit => match reply {
                Reply::Output(Err(e)) => fails_with(r, "未找到 Git，请先安装 Git for Windows"@, e@),
                _ => (r matches Step::Perform(e, f) && self.same_job(f) && f.consistent() && e == Effect::InspectPath(
                    self.local_path,
                ) && f.stage is Inspecting),
            },
            UpdateStage::Inspecting => match reply {
                Reply::Kind(RepositoryPathKind::Missing) | Reply::Kind(RepositoryPathKind::Empty) => {
                    (r matches Step::Perform(e, f) && self.same_job(f) && f.consistent()
                        && e == Effect::CreateParentDirectory(self.local_path)
                        && f.stage is CreatingParent)
                },
                Reply::Kind(RepositoryPathKind::Git) => (r matches Step::Perform(e, f)
                    && self.same_job(f) && f.consistent() && is_local_git(e, dir, seq!["remote"@, "get-url"@, "origin"@])
                    && f.stage is ReadingOrigin),
                Reply::Kind(RepositoryPathKind::NonGit) => fails_with(
                    r,
                    "目标目录不是 Git 仓库，请先注册为 Git 仓库"@,
                    Seq::empty(),
                ),
                Reply::Kind(RepositoryPathKind::NestedGit) => fails_with(
                    r,
                    "目标目录位于另一个 Git 仓库中，不能作为独立项目更新"@,
                    Seq::empty(),
                ),
                _ => fails_with(r, "目标目录无效"@, Seq::empty()),
            },
            UpdateStage::CreatingParent => match reply {
                Reply::Done(Err(e)) => fails_with(r, "无法创建本地目录"@, e@),
                _ => (r matches Step::Perform(e, f) && self.same_job(f) && f.consistent() && is_git(
                    e,
                    None,
                    clone_args(self.url@, self.local_path@, self.branch@),
                    self.proxy_mode,
                    self.proxy_address@,
                ) && f.stage is Cloning),
            },
            UpdateStage::Cloning => match reply {
                Reply::Output(Ok(o)) => succeeds_with(r, "克隆完成"@, o@),
                Reply::Output(Err(e)) => fails_with(r, "克隆失败"@, e@),
                _ => true,
            },
            UpdateStage::ReadingOrigin => match reply {
                Reply::Output(Err(e)) => fails_with(r, "仓库没有 origin 远程地址"@, e@),
                Reply::Output(Ok(o)) => if normalized_remote(trim(o@)) != normalized_remote(
                    trim(self.url@),
                ) {
                    fails_with(
                        r,
                        "本地 origin 与注册地址不一致"@,
                        "origin: "@ + trim(o@) + "\nregistered: "@ + self.url@,
                    )
                } else {
                    (r matches Step::Perform(e, f) && self.same_job(f) && f.consistent() && is_local_git(
                        e,
                        dir,
                        seq!["status"@, "--porcelain"@],
                    ) && f.stage is CheckingStatus && f.origin@ == o@)
                },
                _ => true,
            },
            UpdateStage::CheckingStatus => match reply {
                Reply::Output(Err(e)) => fails_with(r, "无法检查工作区状态"@, e@),
                Reply::Output(Ok(o)) => if trim(o@).len() > 0 {
                    fails_with(r, "检测到未提交的本地改动，已跳过"@, o@)
                } else {
                    (r matches Step::Perform(e, f) && self.same_job(f) && f.consistent() && is_git(
                        e,
                        dir,
                        seq!["fetch"@, "--prune"@, "origin"@],
                        self.proxy_mode,
                        self.proxy_address@,
                    ) && f.stage is Fetching && f.status@ == o@)
                },
                _ => true,
            },
            UpdateStage::Fetching => match reply {
                Reply::Output(Err(e)) => fails_with(r, "获取远程更新失败"@, e@),
                Reply::Output(Ok(o)) => (r matches Step::Perform(e, f) && self.same_job(f) && f.consistent()
                    && is_local_git(e, dir, seq!["branch"@, "--show-current"@])
                    && f.stage.reading_branch(o@)),
                _ => true,
            },
            UpdateStage::ReadingBranch { fetch } => {
                let current = trim(output_or_empty(reply));
                let branch = wanted_branch(self.branch@, current);
                if branch.len() == 0 {
                    fails_with(r, "当前处于 detached HEAD，请填写分支名"@, Seq::empty())
                } else if current != branch {
                    fails_with(
                        r,
                        "当前分支为 "@ + current + "，与设置的 "@ + branch + " 不同"@,
                        Seq::empty(),
                    )
                } else {
                    (r matches Step::Perform(e, f) && self.same_job(f) && f.consistent() && is_local_git(
                        e,
                        dir,
                        seq!["rev-parse"@, "HEAD"@],
                    ) && f.stage.reading_before(fetch@, branch))
                }
            },
            UpdateStage::ReadingBefore { fetch, branch } => {
                let before = trim(output_or_empty(reply));
                (r matches Step::Perform(e, f) && self.same_job(f) && f.consistent() && is_local_git(
                    e,
                    dir,
                    seq!["merge"@, "--ff-only"@, "origin/"@ + branch@],
                ) && f.stage.merging(fetch@, before))
            },
            UpdateStage::Merging { fetch, before } => match reply {
                Reply::Output(Err(e)) => fails_with(r, "无法快进更新"@, e@),
                Reply::Output(Ok(o)) => (r matches Step::Perform(e, f) && self.same_job(f) && f.consistent()
                    && is_local_git(e, dir, seq!["rev-parse"@, "HEAD"@])
                    && f.stage.reading_after(fetch@, before@, o@)),
                _ => true,
            },
            UpdateStage::ReadingAfter { fetch, before, merge } => {
                let after = trim(output_or_empty(reply));
                let details = fetch@ + "\n"@ + merge@;
                if before@ == after {
                    succeeds_with(r, "已是最新"@, details)
                } else {
                    succeeds_with(
                        r,
                        "更新完成（"@ + short_text(before@) + " → "@ + short_text(after) + "）"@,
                        details,
                    )
                }
            },
        }
    }
}

fn failure(message: &str, details: String) -> (r: Step<UpdateFlow, GitResult>)
    ensures
        fails_with(r, message@, details@),
{
    Step::Finish(GitResult { success: false, message: String::from_str(message), details })
}

fn text_of(reply: Reply) -> (r: String)
    ensures
        r@ == output_or_empty(reply),
{
    match reply {
        Reply::Output(Ok(o)) => o,
        _ => String::new(),
    }
}

/// Starts syncing `repo`: the first effect checks that Git is installed.
pub fn update(repo: &Repository, proxy_mode: ProxyMode, proxy_address: &str) -> (r: Step<UpdateFlow, GitResult>)
    ensures
        r matches Step::Perform(e, f) && is_local_git(e, None, seq!["--version"@])
            && f.stage is CheckingGit && f.url@ == repo.url@ && f.local_path@ == repo.local_path@
            && f.branch@ == repo.branch@ && f.proxy_mode == proxy_mode && f.proxy_address@
            == proxy_address@ && f.consistent(),
{
    let flow = UpdateFlow {
        url: repo.url.clone(),
        local_path: repo.local_path.clone(),
        branch: repo.branch.clone(),
        proxy_mode,
        proxy_address: String::from_str(proxy_address),
        stage: UpdateStage::CheckingGit,
        origin: Ghost(Seq::empty()),
        status: Ghost(Seq::empty()),
    };
    Step::Perform(local_git(None, args1("--version")), flow)
}

impl UpdateFlow {
    fn next(self, effect: Effect, stage: UpdateStage) -> (r: Step<UpdateFlow, GitResult>)
        ensures
            r matches Step::Perform(e, f) && e == effect && f.stage == stage && self.same_job(f)
                && f.origin == self.origin && f.status == self.status,
    {
        Step::Perform(effect, UpdateFlow { stage, ..self })
    }

    /// Continues the sync with the reply to its last effect.
    pub fn resume(self, reply: Reply) -> (r: Step<UpdateFlow, GitResult>)
        requires
            self.consistent(),
            self.expects(reply),
        ensures
            self.resumes(reply, r),
    {
        let dir = self.local_path.clone();
        match self.stage {
            UpdateStage::CheckingGit => match reply {
                Reply::Output(Err(e)) => failure("未找到 Git，请先安装 Git for Windows", e),
                _ => {
                    let path = self.local_path.clone();
                    self.next(Effect::InspectPath(path), UpdateStage::Inspecting)
                },
            },
            UpdateStage::Inspecting => match reply {
                Reply::Kind(RepositoryPathKind::Missing) | Reply::Kind(RepositoryPathKind::Empty) => {
                    let path = self.local_path.clone();
                    self.next(Effect::CreateParentDirectory(path), UpdateStage::CreatingParent)
                },
                Reply::Kind(RepositoryPathKind::Git) => {
                    let e = local_git(Some(dir), args3("remote", "get-url", "origin"));
                    self.next(e, UpdateStage::ReadingOrigin)
                },
                Reply::Kind(RepositoryPathKind::NonGit) => failure(
                    "目标目录不是 Git 仓库，请先注册为 Git 仓库",
                    String::new(),
                ),
                Reply::Kind(RepositoryPathKind::NestedGit) => failure(
                    "目标目录位于另一个 Git 仓库中，不能作为独立项目更新",
                    String::new(),
                ),
                _ => failure("目标目录无效", String::new()),
            },
            UpdateStage::CreatingParent => match reply {
                Reply::Done(Err(e)) => failure("无法创建本地目录", e),
                _ => {
                    let args = self.clone_arguments();
                    let command = GitCommand {
                        directory: None,
                        args,
                        proxy_mode: self.proxy_mode,
                        proxy_address: self.proxy_address.clone(),
                    };
                    self.next(Effect::Git(command), UpdateStage::Cloning)
                },
            },
            UpdateStage::Cloning => match reply {
                Reply::Output(Ok(o)) => Step::Finish(
                    GitResult { success: true, message: String::from_str("克隆完成"), details: o },
                ),
                Reply::Output(Err(e)) => failure("克隆失败", e),
                _ => failure("克隆失败", String::new()),
            },
            UpdateStage::ReadingOrigin => match reply {
                Reply::Output(Err(e)) => failure("仓库没有 origin 远程地址", e),
                Reply::Output(Ok(o)) => {
                    let remote = trim_str(o.as_str());
                    let registered = trim_str(self.url.as_str());
                    if normalize_remote(remote.as_str()) != normalize_remote(registered.as_str()) {
                        let details = String::from_str("origin: ").concat(remote.as_str()).concat(
                            "\nregistered: ",
                        ).concat(self.url.as_str());
                        failure("本地 origin 与注册地址不一致", details)
                    } else {
                        let e = local_git(Some(dir), args2("status", "--porcelain"));
                        let flow = UpdateFlow {
                            stage: UpdateStage::CheckingStatus,
                            origin: Ghost(o@),
                            ..self
                        };
                        Step::Perform(e, flow)
                    }
                },
                _ => failure("仓库没有 origin 远程地址", String::new()),
            },
            UpdateStage::CheckingStatus => match reply {
                Reply::Output(Err(e)) => failure("无法检查工作区状态", e),
                Reply::Output(Ok(o)) => {
                    if !is_blank(o.as_str()) {
                        failure("检测到未提交的本地改动，已跳过", o)
                    } else {
                        let command = GitCommand {
                            directory: Some(dir),
                            args: args3("fetch", "--prune", "origin"),
                            proxy_mode: self.proxy_mode,
                            proxy_address: self.proxy_address.clone(),
                        };
                        let flow = UpdateFlow {
                            stage: UpdateStage::Fetching,
                            status: Ghost(o@),
                            ..self
                        };
                        Step::Perform(Effect::Git(command), flow)
                    }
                },
                _ => failure("无法检查工作区状态", String::new()),
            },
            UpdateStage::Fetching => match reply {
                Reply::Output(Err(e)) => failure("获取远程更新失败", e),
                Reply::Output(Ok(o)) => {
                    let e = local_git(Some(dir), args2("branch", "--show-current"));
                    self.next(e, UpdateStage::ReadingBranch { fetch: o })
                },
                _ => failure("获取远程更新失败", String::new()),
            },
            UpdateStage::ReadingBranch { fetch } => {
                let current = trim_str(text_of(reply).as_str());
                let configured = trim_str(self.branch.as_str());
                let branch = if configured.as_str().is_empty() {
                    current.clone()
                } else {
                    configured
                };
                if branch.as_str().is_empty() {
                    failure("当前处于 detached HEAD，请填写分支名", String::new())
                } else if current != branch {
                    let message = String::from_str("当前分支为 ").concat(current.as_str()).concat(
                        "，与设置的 ",
                    ).concat(branch.as_str()).concat(" 不同");
                    failure(message.as_str(), String::new())
                } else {
                    let e = local_git(Some(dir), args2("rev-parse", "HEAD"));
                    let flow = UpdateFlow {
                        stage: UpdateStage::ReadingBefore { fetch, branch },
                        url: self.url,
                        local_path: self.local_path,
                        branch: self.branch,
                        proxy_mode: self.proxy_mode,
                        proxy_address: self.proxy_address,
                        origin: self.origin,
                        status: self.status,
                    };
                    Step::Perform(e, flow)
                }
            },
            UpdateStage::ReadingBefore { fetch, branch } => {
                let before = trim_str(text_of(reply).as_str());
                let target = String::from_str("origin/").concat(branch.as_str());
                let mut args = args2("merge", "--ff-only");
                let ghost head = args@;
                args.push(target);
                proof {
                    assert(string_views(args@) =~= string_views(head).push(target@));
                    assert(string_views(args@) =~= seq!["merge"@, "--ff-only"@, "origin/"@ + branch@]);
                }
                let e = local_git(Some(dir), args);
                let flow = UpdateFlow {
                    stage: UpdateStage::Merging { fetch, before },
                    url: self.url,
                    local_path: self.local_path,
                    branch: self.branch,
                    proxy_mode: self.proxy_mode,
                    proxy_address: self.proxy_address,
                    origin: self.origin,
                    status: self.status,
                };
                Step::Perform(e, flow)
            },
            UpdateStage::Merging { fetch, before } => match reply {
                Reply::Output(Err(e)) => failure("无法快进更新", e),
                Reply::Output(Ok(o)) => {
                    let e = local_git(Some(dir), args2("rev-parse", "HEAD"));
                    let flow = UpdateFlow {
                        stage: UpdateStage::ReadingAfter { fetch, before, merge: o },
                        url: self.url,
                        local_path: self.local_path,
                        branch: self.branch,
                        proxy_mode: self.proxy_mode,
                        proxy_address: self.proxy_address,
                        origin: self.origin,
                        status: self.status,
                    };
                    Step::Perform(e, flow)
                },
                _ => failure("无法快进更新", String::new()),
            },
            UpdateStage::ReadingAfter { fetch, before, merge } => {
                let after = trim_str(text_of(reply).as_str());
                let details = fetch.concat("\n").concat(merge.as_str());
                if before == after {
                    Step::Finish(
                        GitResult { success: true, message: String::from_str("已是最新"), details },
                    )
                } else {
                    let message = String::from_str("更新完成（").concat(short(before.as_str())).concat(
                        " → ",
                    ).concat(short(after.as_str())).concat("）");
                    Step::Finish(GitResult { success: true, message, details })
                }
            },
        }
    }

    fn clone_arguments(&self) -> (r: Vec<String>)
        ensures
            string_views(r@) == clone_args(self.url@, self.local_path@, self.branch@),
    {
        let mut args = args2("clone", "--progress");
        let branch = trim_str(self.branch.as_str());
        let ghost head = string_views(args@);
        if !branch.as_str().is_empty() {
            args.push(String::from_str("--branch"));
            args.push(branch);
            args.push(String::from_str("--single-branch"));
        }
        let ghost with_branch = string_views(args@);
        assert(with_branch =~= head + (if trim(self.branch@).len() > 0 {
            seq!["--branch"@, trim(self.branch@), "--single-branch"@]
        } else {
            seq![]
        }));
        args.push(self.url.clone());
        args.push(self.local_path.clone());
        assert(string_views(args@) =~= with_branch + seq![self.url@, self.local_path@]);
        args
    }
}


/// A sync fetches or merges only after the repository reported an origin
/// that matches the registered address and a clean working copy.
pub proof fn law_sync_fetches_and_merges_only_when_checked(
    flow: UpdateFlow,
    reply: Reply,
    r: Step<UpdateFlow, GitResult>,
)
    requires
        flow.consistent(),
        flow.expects(reply),
        flow.resumes(reply, r),
        r matches Step::Perform(Effect::Git(c), _) && c.args@.len() > 0 && (c.args@[0]@ == "fetch"@
            || c.args@[0]@ == "merge"@),
    ensures
        r matches Step::Perform(_, f) && normalized_remote(trim(f.origin@)) == normalized_remote(
            trim(f.url@),
        ) && trim(f.status@).len() == 0,
{
    reveal_strlit("fetch");
    reveal_strlit("merge");
    reveal_strlit("remote");
    reveal_strlit("status");
    reveal_strlit("branch");
    reveal_strlit("rev-parse");
    reveal_strlit("clone");
    reveal_strlit("--version");
    let c = r->Perform_0->Git_0;
    let first = c.args@[0]@;
    assert(string_views(c.args@)[0] == first);
    assert("fetch"@[0] != "remote"@[0] && "merge"@[0] != "remote"@[0]);
    assert("fetch"@[0] != "status"@[0] && "merge"@[0] != "status"@[0]);
    assert("fetch"@[0] != "branch"@[0] && "merge"@[0] != "branch"@[0]);
    assert("fetch"@[0] != "rev-parse"@[0] && "merge"@[0] != "rev-parse"@[0]);
    assert("fetch"@[0] != "clone"@[0] && "merge"@[0] != "clone"@[0]);
    assert("fetch"@[0] != "--version"@[0] && "merge"@[0] != "--version"@[0]);
    let f = r->Perform_1;
    match flow.stage {
        UpdateStage::CheckingStatus => {
            assert(f.stage is Fetching);
        },
        UpdateStage::ReadingBefore { .. } => {
            assert(f.stage is Merging);
        },
        UpdateStage::ReadingOrigin => {
            assert(first == "status"@);
        },
        UpdateStage::CreatingParent => {
            assert(first == "clone"@);
        },
        UpdateStage::Fetching => {
            assert(first == "branch"@);
        },
        UpdateStage::ReadingBranch { .. } => {
            assert(first == "rev-parse"@);
        },
        UpdateStage::Merging { .. } => {
            assert(first == "rev-parse"@);
        },
        UpdateStage::Inspecting => {
            assert(first == "remote"@);
        },
        _ => {},
    }
}

/// A working copy with local changes is never synced: the sync ends with a
/// failure that carries the reported changes.
pub proof fn law_dirty_working_copy_stops_sync(
    flow: UpdateFlow,
    status: String,
    r: Step<UpdateFlow, GitResult>,
)
    requires
        flow.stage is CheckingStatus,
        trim(status@).len() > 0,
        flow.resumes(Reply::Output(Ok(status)), r),
    ensures
        fails_with(r, "检测到未提交的本地改动，已跳过"@, status@),
{
}

/// A sync whose directory is absent or empty clones it: after the parent
/// directory is made, the only Git command is the clone of the registered
/// address into the directory.
pub proof fn law_first_sync_clones(
    flow: UpdateFlow,
    kind: RepositoryPathKind,
    r: Step<UpdateFlow, GitResult>,
    created: Step<UpdateFlow, GitResult>,
)
    requires
        flow.stage is Inspecting,
        kind == RepositoryPathKind::Missing || kind == RepositoryPathKind::Empty,
        flow.resumes(Reply::Kind(kind), r),
        r matches Step::Perform(_, f) && f.resumes(Reply::Done(Ok(())), created),
    ensures
        r matches Step::Perform(e, _) && e == Effect::CreateParentDirectory(flow.local_path),
        created matches Step::Perform(e, g) && is_git(
            e,
            None,
            clone_args(flow.url@, flow.local_path@, flow.branch@),
            flow.proxy_mode,
            flow.proxy_address@,
        ) && g.stage is Cloning,
{
}


/// A merge that fails ends the sync with that failure: no further command
/// runs, the sync does not report success, and Git's message is kept as the
/// details. So a sync reports success after merging only when the merge
/// itself succeeded.
pub proof fn law_failed_merge_fails_sync(
    flow: UpdateFlow,
    error: String,
    r: Step<UpdateFlow, GitResult>,
)
    requires
        flow.stage is Merging,
        flow.resumes(Reply::Output(Err(error)), r),
    ensures
        r matches Step::Finish(g) && !g.success && g.message@ == "无法快进更新"@ && g.details@
            == error@,
{
}

} // verus!
