//! GitHub sign-in through Git Credential Manager, the installation status
//! shown beside it, and reading the checked-out branch.
use vstd::prelude::*;
use crate::effects::{args1, args2, args3, args4, is_git, is_local_git, local_git, Effect, GitCommand, Reply, Step};
use crate::git::{is_unavailable, account_lines, github_accounts, join_error, joined_error, unavailable_profile};
use crate::models::{GitAccountProfile, GitAuthStatus, ProxyMode};
use crate::text::{eq_ignore_ascii_case, eq_ignore_case, join_strings, joined, lines, string_views, trim, trim_str};

verus! {

/// Reading the checked-out branch of a directory.
pub struct BranchFlow {
    pub path: String,
}

/// Starts reading the branch checked out in `path`.
pub fn detect_branch(path: &str) -> (r: Step<BranchFlow, String>)
    ensures
        r matches Step::Perform(e, f) && is_local_git(e, Some(path@), seq!["branch"@, "--show-current"@])
            && f.path@ == path@,
{
    let e = local_git(Some(String::from_str(path)), args2("branch", "--show-current"));
    Step::Perform(e, BranchFlow { path: String::from_str(path) })
}

impl BranchFlow {
    /// The branch name, trimmed; empty when Git failed or no branch is
    /// checked out.
    pub fn resume(self, reply: Reply) -> (r: Step<BranchFlow, String>)
        ensures
            match reply {
                Reply::Output(Ok(o)) => r matches Step::Finish(b) && b@ == trim(o@),
                _ => r matches Step::Finish(b) && b@.len() == 0,
            },
    {
        match reply {
            Reply::Output(Ok(o)) => Step::Finish(trim_str(o.as_str())),
            _ => Step::Finish(String::new()),
        }
    }
}

/// The first stored account equal to `account` up to ASCII case.
pub open spec fn matching_account(stored: Seq<Seq<char>>, account: Seq<char>) -> Option<Seq<char>>
    decreases stored.len(),
{
    if stored.len() == 0 {
        None
    } else if eq_ignore_case(stored[0], account) {
        Some(stored[0])
    } else {
        matching_account(stored.drop_first(), account)
    }
}

/// Where a sign-out stands.
pub enum LogoutStage {
    /// `git credential-manager github list`
    Listing,
    /// `git credential-manager github logout <account>`
    LoggingOut { stored: String },
}

/// A sign-out in progress; `account` is the trimmed account asked for.
pub struct LogoutFlow {
    pub account: String,
    pub stage: LogoutStage,
}

pub open spec fn list_accounts_args() -> Seq<Seq<char>> {
    seq!["credential-manager"@, "github"@, "list"@]
}

/// Whether a step ends with `Err(message)`.
pub open spec fn ends_err<F>(r: Step<F, Result<String, String>>, message: Seq<char>) -> bool {
    r matches Step::Finish(Err(m)) && m@ == message
}

/// Whether a step ends with `Ok(message)`.
pub open spec fn ends_ok<F>(r: Step<F, Result<String, String>>, message: Seq<char>) -> bool {
    r matches Step::Finish(Ok(m)) && m@ == message
}

/// Starts signing `account` (trimmed) out of GitHub: a blank account is
/// refused; otherwise the stored accounts are listed first.
pub fn github_logout(account: &str) -> (r: Step<LogoutFlow, Result<String, String>>)
    ensures
        trim(account@).len() == 0 ==> ends_err(r, "账户名不能为空"@),
        trim(account@).len() > 0 ==> (r matches Step::Perform(e, f) && is_local_git(
            e,
            None,
            list_accounts_args(),
        ) && f.account@ == trim(account@) && f.stage is Listing),
{
    let account = trim_str(account);
    if account.as_str().is_empty() {
        return Step::Finish(Err(String::from_str("账户名不能为空")));
    }
    let e = local_git(None, args3("credential-manager", "github", "list"));
    Step::Perform(e, LogoutFlow { account, stage: LogoutStage::Listing })
}

impl LogoutFlow {
    pub open spec fn expects(self, reply: Reply) -> bool {
        reply is Output
    }

    /// The step that follows `reply`.
    pub open spec fn resumes(self, reply: Reply, r: Step<LogoutFlow, Result<String, String>>) -> bool {
        match self.stage {
            LogoutStage::Listing => match reply {
                Reply::Output(Err(e)) => ends_err(r, "无法读取 GitHub 账户："@ + e@),
                Reply::Output(Ok(o)) => match matching_account(
                    account_lines(lines(o@)),
                    self.account@,
                ) {
                    None => ends_err(r, "该 GitHub 账户不在凭据管理器中"@),
                    Some(stored) => (r matches Step::Perform(e, f) && is_local_git(
                        e,
                        None,
                        seq!["credential-manager"@, "github"@, "logout"@, stored],
                    ) && f.account@ == self.account@ && f.stage.logging_out(stored)),
                },
                _ => true,
            },
            LogoutStage::LoggingOut { stored } => match reply {
                Reply::Output(Err(e)) => ends_err(r, "退出 GitHub 失败："@ + e@),
                Reply::Output(Ok(_)) => ends_ok(r, "已退出 GitHub 账户 "@ + stored@),
                _ => true,
            },
        }
    }

    /// Continues the sign-out with the reply to its last command.
    #[verifier::loop_isolation(false)]
    pub fn resume(self, reply: Reply) -> (r: Step<LogoutFlow, Result<String, String>>)
        requires
            self.expects(reply),
        ensures
            self.resumes(reply, r),
    {
        match self.stage {
            LogoutStage::Listing => {
                let ghost expected = listed_accounts(reply);
                let listing = match reply {
                    Reply::Output(o) => o,
                    _ => Err(String::new()),
                };
                match github_accounts(listing) {
                    Err(e) => Step::Finish(
                        Err(String::from_str("无法读取 GitHub 账户：").concat(e.as_str())),
                    ),
                    Ok(names) => {
                        let mut i: usize = 0;
                        let ghost all = string_views(names@);
                        assert(all.skip(0) =~= all);
                        while i < names.len()
                            invariant
                                i <= names@.len(),
                                all == string_views(names@),
                                all == expected,
                                matching_account(all, self.account@) == matching_account(
                                    all.skip(i as int),
                                    self.account@,
                                ),
                            decreases names@.len() - i,
                        {
                            assert(all.skip(i as int)[0] == names@[i as int]@);
                            if eq_ignore_ascii_case(names[i].as_str(), self.account.as_str()) {
                                let stored = names[i].clone();
                                assert(stored@ == all[i as int]);
                                assert(matching_account(all, self.account@) == Some(stored@));
                                let e = local_git(
                                    None,
                                    args4("credential-manager", "github", "logout", stored.as_str()),
                                );
                                return Step::Perform(
                                    e,
                                    LogoutFlow {
                                        account: self.account,
                                        stage: LogoutStage::LoggingOut { stored },
                                    },
                                );
                            }
                            assert(all.skip(i as int).drop_first() =~= all.skip(i + 1));
                            i = i + 1;
                        }
                        Step::Finish(Err(String::from_str("该 GitHub 账户不在凭据管理器中")))
                    },
                }
            },
            LogoutStage::LoggingOut { stored } => match reply {
                Reply::Output(Err(e)) => Step::Finish(
                    Err(String::from_str("退出 GitHub 失败：").concat(e.as_str())),
                ),
                _ => Step::Finish(Ok(String::from_str("已退出 GitHub 账户 ").concat(stored.as_str()))),
            },
        }
    }
}

impl LogoutStage {
    pub open spec fn logging_out(self, stored: Seq<char>) -> bool {
        match self {
            LogoutStage::LoggingOut { stored: s } => s@ == stored,
            _ => false,
        }
    }
}

/// Where a sign-in stands.
pub enum LoginStage {
    /// `git --version`
    CheckingGit,
    /// `git credential-manager --version`
    CheckingManager,
    /// `git config --get-all credential.helper`
    ReadingHelper,
    /// `git credential-manager configure`
    Configuring,
    /// `git credential-manager github login --browser`
    LoggingIn,
    /// `git credential-manager github list`
    Listing,
}

/// A sign-in in progress.
pub struct LoginFlow {
    pub proxy_mode: ProxyMode,
    pub proxy_address: String,
    pub stage: LoginStage,
}

pub open spec fn login_args() -> Seq<Seq<char>> {
    seq!["credential-manager"@, "github"@, "login"@, "--browser"@]
}

/// The accounts in a listing reply; none when the listing failed.
pub open spec fn listed_accounts(reply: Reply) -> Seq<Seq<char>> {
    match reply {
        Reply::Output(Ok(o)) => account_lines(lines(o@)),
        _ => seq![],
    }
}

/// Starts signing in to GitHub in the browser: the first effect checks that
/// Git is installed.
pub fn github_login(proxy_mode: ProxyMode, proxy_address: &str) -> (r: Step<LoginFlow, Result<String, String>>)
    ensures
        r matches Step::Perform(e, f) && is_local_git(e, None, seq!["--version"@]) && f.proxy_mode
            == proxy_mode && f.proxy_address@ == proxy_address@ && f.stage is CheckingGit,
{
    let e = local_git(None, args1("--version"));
    Step::Perform(
        e,
        LoginFlow {
            proxy_mode,
            proxy_address: String::from_str(proxy_address),
            stage: LoginStage::CheckingGit,
        },
    )
}

impl LoginFlow {
    pub open spec fn expects(self, reply: Reply) -> bool {
        reply is Output
    }

    pub open spec fn same_proxy(self, f: LoginFlow) -> bool {
        f.proxy_mode == self.proxy_mode && f.proxy_address@ == self.proxy_address@
    }

    /// Whether `r` opens the browser sign-in with the flow's proxy.
    pub open spec fn logs_in(self, r: Step<LoginFlow, Result<String, String>>) -> bool {
        r matches Step::Perform(e, f) && is_git(e, None, login_args(), self.proxy_mode, self.proxy_address@)
            && self.same_proxy(f) && f.stage is LoggingIn
    }

    /// The step that follows `reply`.
    pub open spec fn resumes(self, reply: Reply, r: Step<LoginFlow, Result<String, String>>) -> bool {
        match self.stage {
            LoginStage::CheckingGit => match reply {
                Reply::Output(Err(e)) => ends_err(
                    r,
                    joined_error("未找到 Git，请先安装 Git for Windows"@, e@),
                ),
                _ => (r matches Step::Perform(e, f) && is_local_git(
                    e,
                    None,
                    seq!["credential-manager"@, "--version"@],
                ) && self.same_proxy(f) && f.stage is CheckingManager),
            },
            LoginStage::CheckingManager => match reply {
                Reply::Output(Err(_)) => ends_err(
                    r,
                    "未找到 Git Credential Manager，请重新安装 Git for Windows"@,
                ),
                _ => (r matches Step::Perform(e, f) && is_local_git(
                    e,
                    None,
                    seq!["config"@, "--get-all"@, "credential.helper"@],
                ) && self.same_proxy(f) && f.stage is ReadingHelper),
            },
            LoginStage::ReadingHelper => match reply {
                Reply::Output(Ok(o)) if trim(o@).len() > 0 => self.logs_in(r),
                _ => (r matches Step::Perform(e, f) && is_local_git(
                    e,
                    None,
                    seq!["credential-manager"@, "configure"@],
                ) && self.same_proxy(f) && f.stage is Configuring),
            },
            LoginStage::Configuring => match reply {
                Reply::Output(Err(e)) => ends_err(r, "配置 Git Credential Manager 失败："@ + e@),
                _ => self.logs_in(r),
            },
            LoginStage::LoggingIn => match reply {
                Reply::Output(Err(e)) => ends_err(r, "GitHub 登录失败："@ + e@),
                _ => (r matches Step::Perform(e, f) && is_local_git(e, None, list_accounts_args())
                    && self.same_proxy(f) && f.stage is Listing),
            },
            LoginStage::Listing => {
                let accounts = listed_accounts(reply);
                if accounts.len() == 0 {
                    ends_err(r, "登录流程已结束，但没有检测到 GitHub 账户"@)
                } else {
                    ends_ok(r, "GitHub 登录完成："@ + joined(accounts, "、"@))
                }
            },
        }
    }

    fn next(self, effect: Effect, stage: LoginStage) -> (r: Step<LoginFlow, Result<String, String>>)
        ensures
            r matches Step::Perform(e, f) && e == effect && f.stage == stage && self.same_proxy(f),
    {
        Step::Perform(effect, LoginFlow { stage, ..self })
    }

    fn log_in(self) -> (r: Step<LoginFlow, Result<String, String>>)
        ensures
            self.logs_in(r),
    {
        let command = GitCommand {
            directory: None,
            args: args4("credential-manager", "github", "login", "--browser"),
            proxy_mode: self.proxy_mode,
            proxy_address: self.proxy_address.clone(),
        };
        self.next(Effect::Git(command), LoginStage::LoggingIn)
    }

    /// Continues the sign-in with the reply to its last command.
    pub fn resume(self, reply: Reply) -> (r: Step<LoginFlow, Result<String, String>>)
        requires
            self.expects(reply),
        ensures
            self.resumes(reply, r),
    {
        match self.stage {
            LoginStage::CheckingGit => match reply {
                Reply::Output(Err(e)) => Step::Finish(
                    Err(join_error(String::from_str("未找到 Git，请先安装 Git for Windows"), e)),
                ),
                _ => {
                    let e = local_git(None, args2("credential-manager", "--version"));
                    self.next(e, LoginStage::CheckingManager)
                },
            },
            LoginStage::CheckingManager => match reply {
                Reply::Output(Err(_)) => Step::Finish(
                    Err(String::from_str("未找到 Git Credential Manager，请重新安装 Git for Windows")),
                ),
                _ => {
                    let e = local_git(None, args3("config", "--get-all", "credential.helper"));
                    self.next(e, LoginStage::ReadingHelper)
                },
            },
            LoginStage::ReadingHelper => {
                let configured = match reply {
                    Reply::Output(Ok(o)) => !trim_str(o.as_str()).as_str().is_empty(),
                    _ => false,
                };
                if configured {
                    self.log_in()
                } else {
                    let e = local_git(None, args2("credential-manager", "configure"));
                    self.next(e, LoginStage::Configuring)
                }
            },
            LoginStage::Configuring => match reply {
                Reply::Output(Err(e)) => Step::Finish(
                    Err(String::from_str("配置 Git Credential Manager 失败：").concat(e.as_str())),
                ),
                _ => self.log_in(),
            },
            LoginStage::LoggingIn => match reply {
                Reply::Output(Err(e)) => Step::Finish(
                    Err(String::from_str("GitHub 登录失败：").concat(e.as_str())),
                ),
                _ => {
                    let e = local_git(None, args3("credential-manager", "github", "list"));
                    self.next(e, LoginStage::Listing)
                },
            },
            LoginStage::Listing => {
                let ghost was_ok = reply matches Reply::Output(Ok(_));
                let listing = match reply {
                    Reply::Output(o) => o,
                    _ => Err(String::new()),
                };
                let names = match github_accounts(listing) {
                    Ok(names) => names,
                    Err(_) => Vec::new(),
                };
                proof {
                    if !was_ok {
                        assert(string_views(names@) =~= Seq::<Seq<char>>::empty());
                    }
                }
                if names.len() == 0 {
                    Step::Finish(Err(String::from_str("登录流程已结束，但没有检测到 GitHub 账户")))
                } else {
                    let list = join_strings(&names, "、");
                    Step::Finish(Ok(String::from_str("GitHub 登录完成：").concat(list.as_str())))
                }
            },
        }
    }
}

/// What Git reports about the installation and the stored accounts.
pub struct AuthFacts {
    pub git_version: String,
    pub credential_manager_version: String,
    pub credential_helper: String,
    pub account_names: Vec<String>,
}

/// Where gathering the installation status stands.
pub enum AuthStage {
    /// `git --version`
    ReadingGitVersion,
    /// `git credential-manager --version`
    ReadingManagerVersion { git_version: String },
    /// `git config --show-origin --get-all credential.helper`
    ReadingHelper { git_version: String, manager_version: String },
    /// `git credential-manager github list`
    Listing { git_version: String, manager_version: String, helper: String },
}

pub struct AuthFlow {
    pub stage: AuthStage,
}

/// Starts gathering the installation status.
pub fn auth_status() -> (r: Step<AuthFlow, AuthFacts>)
    ensures
        r matches Step::Perform(e, f) && is_local_git(e, None, seq!["--version"@])
            && f.stage is ReadingGitVersion,
{
    Step::Perform(
        local_git(None, args1("--version")),
        AuthFlow { stage: AuthStage::ReadingGitVersion },
    )
}

fn text_or_empty(reply: Reply) -> (r: String)
    ensures
        r@ == crate::sync::output_or_empty(reply),
{
    match reply {
        Reply::Output(Ok(o)) => o,
        _ => String::new(),
    }
}

impl AuthStage {
    pub open spec fn reading_manager(self, git: Seq<char>) -> bool {
        match self {
            AuthStage::ReadingManagerVersion { git_version: g } => g@ == git,
            _ => false,
        }
    }

    pub open spec fn reading_helper(self, git: Seq<char>, manager: Seq<char>) -> bool {
        match self {
            AuthStage::ReadingHelper { git_version: g, manager_version: m } => g@ == git && m@
                == manager,
            _ => false,
        }
    }

    pub open spec fn listing(self, git: Seq<char>, manager: Seq<char>, helper: Seq<char>) -> bool {
        match self {
            AuthStage::Listing { git_version: g, manager_version: m, helper: h } => g@ == git && m@
                == manager && h@ == helper,
            _ => false,
        }
    }
}

/// Whether the gathered facts are these.
pub open spec fn facts_are(
    r: Step<AuthFlow, AuthFacts>,
    git: Seq<char>,
    manager: Seq<char>,
    helper: Seq<char>,
    names: Seq<Seq<char>>,
) -> bool {
    r matches Step::Finish(a) && a.git_version@ == git && a.credential_manager_version@ == manager
        && a.credential_helper@ == helper && string_views(a.account_names@) == names
}

impl AuthFlow {
    pub open spec fn expects(self, reply: Reply) -> bool {
        reply is Output
    }

    /// The step that follows `reply`: each reply's text is kept (empty when
    /// the command failed); accounts are listed only when the credential
    /// manager answered.
    pub open spec fn resumes(self, reply: Reply, r: Step<AuthFlow, AuthFacts>) -> bool {
        let text = crate::sync::output_or_empty(reply);
        match self.stage {
            AuthStage::ReadingGitVersion => (r matches Step::Perform(e, f) && is_local_git(
                e,
                None,
                seq!["credential-manager"@, "--version"@],
            ) && f.stage.reading_manager(text)),
            AuthStage::ReadingManagerVersion { git_version } => (r matches Step::Perform(e, f)
                && is_local_git(
                e,
                None,
                seq!["config"@, "--show-origin"@, "--get-all"@, "credential.helper"@],
            ) && f.stage.reading_helper(git_version@, text)),
            AuthStage::ReadingHelper { git_version, manager_version } => if manager_version@.len()
                == 0 {
                facts_are(r, git_version@, manager_version@, text, seq![])
            } else {
                (r matches Step::Perform(e, f) && is_local_git(e, None, list_accounts_args())
                    && f.stage.listing(git_version@, manager_version@, text))
            },
            AuthStage::Listing { git_version, manager_version, helper } => facts_are(
                r,
                git_version@,
                manager_version@,
                helper@,
                listed_accounts(reply),
            ),
        }
    }

    /// Continues gathering with the reply to the last command.
    pub fn resume(self, reply: Reply) -> (r: Step<AuthFlow, AuthFacts>)
        requires
            self.expects(reply),
        ensures
            self.resumes(reply, r),
    {
        match self.stage {
            AuthStage::ReadingGitVersion => {
                let git_version = text_or_empty(reply);
                let e = local_git(None, args2("credential-manager", "--version"));
                Step::Perform(e, AuthFlow { stage: AuthStage::ReadingManagerVersion { git_version } })
            },
            AuthStage::ReadingManagerVersion { git_version } => {
                let manager_version = text_or_empty(reply);
                let e = local_git(
                    None,
                    args4("config", "--show-origin", "--get-all", "credential.helper"),
                );
                Step::Perform(
                    e,
                    AuthFlow { stage: AuthStage::ReadingHelper { git_version, manager_version } },
                )
            },
            AuthStage::ReadingHelper { git_version, manager_version } => {
                let helper = text_or_empty(reply);
                if manager_version.as_str().is_empty() {
                    let account_names: Vec<String> = Vec::new();
                    assert(string_views(account_names@) =~= Seq::<Seq<char>>::empty());
                    Step::Finish(
                        AuthFacts {
                            git_version,
                            credential_manager_version: manager_version,
                            credential_helper: helper,
                            account_names,
                        },
                    )
                } else {
                    let e = local_git(None, args3("credential-manager", "github", "list"));
                    Step::Perform(
                        e,
                        AuthFlow { stage: AuthStage::Listing { git_version, manager_version, helper } },
                    )
                }
            },
            AuthStage::Listing { git_version, manager_version, helper } => {
                let ghost was_ok = reply matches Reply::Output(Ok(_));
                let listing = match reply {
                    Reply::Output(o) => o,
                    _ => Err(String::new()),
                };
                let account_names = match github_accounts(listing) {
                    Ok(names) => names,
                    Err(_) => Vec::new(),
                };
                proof {
                    if !was_ok {
                        assert(string_views(account_names@) =~= Seq::<Seq<char>>::empty());
                    }
                }
                Step::Finish(
                    AuthFacts {
                        git_version,
                        credential_manager_version: manager_version,
                        credential_helper: helper,
                        account_names,
                    },
                )
            },
        }
    }
}

/// The installation status shown from the gathered facts and the accounts'
/// profiles: Git and the credential manager count as available when they
/// reported a version.
pub fn auth_status_from(facts: AuthFacts, accounts: Vec<GitAccountProfile>) -> (s: GitAuthStatus)
    ensures
        s.git_available == (facts.git_version@.len() > 0),
        s.git_version@ == facts.git_version@,
        s.credential_manager_available == (facts.credential_manager_version@.len() > 0),
        s.credential_manager_version@ == facts.credential_manager_version@,
        s.credential_helper@ == facts.credential_helper@,
        s.accounts@ == accounts@,
{
    GitAuthStatus {
        git_available: !facts.git_version.as_str().is_empty(),
        git_version: facts.git_version,
        credential_manager_available: !facts.credential_manager_version.as_str().is_empty(),
        credential_manager_version: facts.credential_manager_version,
        credential_helper: facts.credential_helper,
        accounts,
    }
}

/// The profiles shown when no profile can be fetched: each account as
/// unavailable.
pub fn unavailable_profiles(names: &Vec<String>) -> (r: Vec<GitAccountProfile>)
    ensures
        r@.len() == names@.len(),
        forall|i: int| 0 <= i < names@.len() ==> is_unavailable(#[trigger] r@[i], names@[i]@),
{
    let mut out: Vec<GitAccountProfile> = Vec::new();
    let mut i: usize = 0;
    while i < names.len()
        invariant
            i <= names@.len(),
            out@.len() == i,
            forall|k: int|
                0 <= k < i ==> is_unavailable(#[trigger] out@[k], names@[k]@),
        decreases names@.len() - i,
    {
        out.push(unavailable_profile(names[i].clone()));
        i = i + 1;
    }
    out
}


/// The account a sign-out logs out is one the credential manager listed,
/// and it equals the requested account up to ASCII case.
pub proof fn law_logout_only_stored_accounts(stored: Seq<Seq<char>>, account: Seq<char>)
    ensures
        matching_account(stored, account) matches Some(a) ==> stored.contains(a) && eq_ignore_case(
            a,
            account,
        ),
        matching_account(stored, account) is None ==> forall|i: int|
            0 <= i < stored.len() ==> !eq_ignore_case(#[trigger] stored[i], account),
    decreases stored.len(),
{
    if stored.len() > 0 && !eq_ignore_case(stored[0], account) {
        law_logout_only_stored_accounts(stored.drop_first(), account);
        if let Some(a) = matching_account(stored.drop_first(), account) {
            let k = choose|k: int| 0 <= k < stored.drop_first().len() && stored.drop_first()[k] == a;
            assert(stored[k + 1] == a);
        }
        assert forall|i: int| 0 < i < stored.len() implies stored[i] == stored.drop_first()[i - 1] by {}
    } else if stored.len() > 0 {
        assert(stored[0] == stored[0]);
    }
}


/// A browser sign-in that fails ends the sign-in with that failure: no
/// account listing follows and no success is reported.
pub proof fn law_failed_login_is_reported(
    flow: LoginFlow,
    error: String,
    r: Step<LoginFlow, Result<String, String>>,
)
    requires
        flow.stage is LoggingIn,
        flow.resumes(Reply::Output(Err(error)), r),
    ensures
        r matches Step::Finish(Err(m)) && m@ == "GitHub 登录失败："@ + error@,
{
}

} // verus!
