use git_auto_pull::accounts::{auth_status, auth_status_from, detect_branch, github_login, github_logout, unavailable_profiles};
use git_auto_pull::effects::{command_outcome, Effect, GitCommand, Reply, Step};
use git_auto_pull::inspect::inspect_path;
use git_auto_pull::models::{GitResult, ProxyMode, Repository, RepositoryPathKind};
use git_auto_pull::register::initialize;
use git_auto_pull::sync::update;

fn first_arg(command: &GitCommand) -> String {
    command.args.first().cloned().unwrap_or_default()
}

fn ok(text: &str) -> Reply {
    Reply::Output(Ok(text.to_string()))
}

fn repository() -> Repository {
    let mut r = Repository::default();
    r.url = "https://github.com/user/project.git".into();
    r.local_path = "/work/project".into();
    r
}

/// Runs a sync against scripted Git replies, keyed by the first argument.
fn run_update(
    repo: &Repository,
    kind: RepositoryPathKind,
    answer: &dyn Fn(&GitCommand) -> Reply,
) -> (GitResult, Vec<Vec<String>>) {
    let mut seen = Vec::new();
    let mut step = update(repo, ProxyMode::Disabled, "");
    loop {
        match step {
            Step::Finish(r) => return (r, seen),
            Step::Perform(effect, flow) => {
                let reply = match &effect {
                    Effect::InspectPath(_) => Reply::Kind(kind),
                    Effect::CreateParentDirectory(_) => Reply::Done(Ok(())),
                    Effect::Git(c) => {
                        seen.push(c.args.clone());
                        answer(c)
                    }
                    _ => panic!("unexpected effect"),
                };
                step = flow.resume(reply);
            }
        }
    }
}

#[test]
fn sync_fast_forwards_a_clean_matching_repository() {
    let repo = repository();
    let (result, seen) = run_update(&repo, RepositoryPathKind::Git, &|c| {
        match first_arg(c).as_str() {
            "remote" => ok("git@github.com:User/Project.git"),
            "status" => ok(""),
            "fetch" => ok("fetched"),
            "branch" => ok("main\n"),
            "merge" => ok("Fast-forward"),
            "rev-parse" if c.directory.is_some() => ok("0123456789"),
            _ => ok("git version 2.45.0"),
        }
    });
    assert!(result.success);
    assert_eq!(result.message, "已是最新");
    assert_eq!(result.details, "fetched\nFast-forward");
    assert!(seen.contains(&vec!["merge".to_string(), "--ff-only".into(), "origin/main".into()]));
}

#[test]
fn sync_refuses_dirty_or_foreign_repositories() {
    let repo = repository();
    let (dirty, seen) = run_update(&repo, RepositoryPathKind::Git, &|c| match first_arg(c).as_str() {
        "remote" => ok("https://github.com/user/project"),
        "status" => ok(" M file.txt"),
        _ => ok("git version"),
    });
    assert!(!dirty.success);
    assert_eq!(dirty.message, "检测到未提交的本地改动，已跳过");
    assert_eq!(dirty.details, " M file.txt");
    assert!(!seen.iter().any(|a| a[0] == "fetch" || a[0] == "merge"));
    let (foreign, _) = run_update(&repo, RepositoryPathKind::Git, &|c| match first_arg(c).as_str() {
        "remote" => ok("https://example.com/other.git"),
        _ => ok("git version"),
    });
    assert_eq!(foreign.message, "本地 origin 与注册地址不一致");
    assert_eq!(
        foreign.details,
        "origin: https://example.com/other.git\nregistered: https://github.com/user/project.git"
    );
    let (nested, _) = run_update(&repo, RepositoryPathKind::NestedGit, &|_| ok("git version"));
    assert_eq!(nested.message, "目标目录位于另一个 Git 仓库中，不能作为独立项目更新");
    let (no_git, _) = run_update(&repo, RepositoryPathKind::Git, &|_| Reply::Output(Err("not found".into())));
    assert_eq!(no_git.message, "未找到 Git，请先安装 Git for Windows");
    assert_eq!(no_git.details, "not found");
}

#[test]
fn sync_reports_branch_mismatch_and_progress() {
    let mut repo = repository();
    repo.branch = " dev ".into();
    let (wrong, _) = run_update(&repo, RepositoryPathKind::Git, &|c| match first_arg(c).as_str() {
        "remote" => ok("https://github.com/user/project"),
        "status" => ok(""),
        "branch" => ok("main"),
        _ => ok("x"),
    });
    assert_eq!(wrong.message, "当前分支为 main，与设置的 dev 不同");
    let moved = std::cell::Cell::new(false);
    let (progress, _) = run_update(&repository(), RepositoryPathKind::Git, &|c| match first_arg(c).as_str() {
        "remote" => ok("https://github.com/user/project"),
        "status" => ok(""),
        "branch" => ok("main"),
        "merge" => {
            moved.set(true);
            ok("merged")
        }
        "rev-parse" => ok(if moved.get() { "fedcba9876543210" } else { "0123456789abcdef" }),
        _ => ok("fetched"),
    });
    assert_eq!(progress.message, "更新完成（0123456 → fedcba9）");
}

#[test]
fn failed_registration_removes_the_new_repository() {
    let mut repo = repository();
    repo.branch = String::new();
    let mut removed = false;
    let mut step = initialize(&repo, ProxyMode::System, "");
    let result = loop {
        match step {
            Step::Finish(r) => break r,
            Step::Perform(effect, flow) => {
                let reply = match &effect {
                    Effect::InspectPath(_) => Reply::Kind(RepositoryPathKind::NonGit),
                    Effect::GitDirectoryExists(_) => Reply::Flag(false),
                    Effect::RemoveGitDirectory(_) => {
                        removed = true;
                        Reply::Done(Ok(()))
                    }
                    Effect::Git(c) => match first_arg(c).as_str() {
                        "ls-remote" => ok("abc123\tHEAD"),
                        _ => ok(""),
                    },
                    _ => panic!("unexpected effect"),
                };
                step = flow.resume(reply);
            }
        }
    };
    assert!(removed);
    assert!(!result.success);
    assert_eq!(result.message, "无法识别远程默认分支，请先填写分支名");
    assert_eq!(result.details, "abc123\tHEAD");
}

#[test]
fn registration_refuses_repositories_and_empty_directories() {
    for (kind, message) in [
        (RepositoryPathKind::Git, "目标目录已经是 Git 仓库"),
        (RepositoryPathKind::Empty, "空目录无需注册，请直接执行克隆"),
        (RepositoryPathKind::Invalid, "目标目录无效"),
    ] {
        let mut step = initialize(&repository(), ProxyMode::System, "");
        let result = loop {
            match step {
                Step::Finish(r) => break r,
                Step::Perform(effect, flow) => {
                    let reply = match effect {
                        Effect::InspectPath(_) => Reply::Kind(kind),
                        _ => ok("git version"),
                    };
                    step = flow.resume(reply);
                }
            }
        };
        assert_eq!(result.message, message);
    }
}

#[test]
fn directories_inside_other_repositories_are_nested() {
    let mut step = inspect_path("  /work/outer/inner  ");
    let status = loop {
        match step {
            Step::Finish(s) => break s,
            Step::Perform(effect, flow) => {
                let reply = match &effect {
                    Effect::PathExists(p) => {
                        assert_eq!(p, "/work/outer/inner");
                        Reply::Flag(true)
                    }
                    Effect::IsDirectory(_) => Reply::Flag(true),
                    Effect::ReadDirectory(_) => Reply::Entries(Ok(true)),
                    Effect::Git(_) => ok("/work/outer\n"),
                    Effect::SamePath(a, b) => Reply::Flag(a == b),
                    _ => panic!("unexpected effect"),
                };
                step = flow.resume(reply);
            }
        }
    };
    assert_eq!(status.kind, RepositoryPathKind::NestedGit);
    assert_eq!(status.message, "目录位于其他 Git 仓库内：/work/outer");
    match inspect_path("   ") {
        Step::Finish(s) => assert_eq!(s.message, "请先选择本地目录"),
        _ => panic!("a blank path is invalid"),
    }
}

fn run_git<F, T>(mut step: Step<F, T>, resume: impl Fn(F, Reply) -> Step<F, T>, answer: impl Fn(&GitCommand) -> Reply) -> (T, Vec<Vec<String>>) {
    let mut seen = Vec::new();
    loop {
        match step {
            Step::Finish(t) => return (t, seen),
            Step::Perform(Effect::Git(c), f) => {
                seen.push(c.args.clone());
                let reply = answer(&c);
                step = resume(f, reply);
            }
            Step::Perform(_, _) => panic!("unexpected effect"),
        }
    }
}

#[test]
fn logout_finds_the_stored_account() {
    let (done, seen) = run_git(github_logout(" Alice "), |f, r| f.resume(r), |c| match c.args[2].as_str() {
        "list" => ok("warning: x\nalice\n"),
        _ => ok(""),
    });
    assert_eq!(done.unwrap(), "已退出 GitHub 账户 alice");
    assert_eq!(seen[1], vec!["credential-manager", "github", "logout", "alice"]);
    let (missing, _) = run_git(github_logout("bob"), |f, r| f.resume(r), |_| ok("alice"));
    assert_eq!(missing.unwrap_err(), "该 GitHub 账户不在凭据管理器中");
    match github_logout("  ") {
        Step::Finish(r) => assert_eq!(r.unwrap_err(), "账户名不能为空"),
        _ => panic!("a blank account is refused"),
    }
}

#[test]
fn login_configures_the_helper_and_reports_accounts() {
    let (done, seen) = run_git(github_login(ProxyMode::Custom, "http://p:1"), |f, r| f.resume(r), |c| {
        match c.args.last().map(String::as_str) {
            Some("list") => ok("alice\nbob"),
            Some("credential.helper") => ok(""),
            _ => ok("ok"),
        }
    });
    assert_eq!(done.unwrap(), "GitHub 登录完成：alice、bob");
    assert!(seen.contains(&vec!["credential-manager".to_string(), "configure".into()]));
    let (nothing, _) = run_git(github_login(ProxyMode::System, ""), |f, r| f.resume(r), |c| {
        match c.args.last().map(String::as_str) {
            Some("list") => ok(""),
            _ => ok("manager-core"),
        }
    });
    assert_eq!(nothing.unwrap_err(), "登录流程已结束，但没有检测到 GitHub 账户");
    let (no_git, _) = run_git(github_login(ProxyMode::System, ""), |f, r| f.resume(r), |_| Reply::Output(Err("missing".into())));
    assert_eq!(no_git.unwrap_err(), "未找到 Git，请先安装 Git for Windows：missing");
}

#[test]
fn auth_status_lists_accounts_only_with_the_manager() {
    let (facts, seen) = run_git(auth_status(), |f, r| f.resume(r), |c| match c.args[0].as_str() {
        "--version" => ok("git version 2.45.0"),
        "credential-manager" if c.args.len() == 2 => Reply::Output(Err("unknown".into())),
        _ => ok("helper"),
    });
    assert_eq!(seen.len(), 3);
    assert!(facts.account_names.is_empty());
    let names = vec!["alice".to_string()];
    let status = auth_status_from(facts, unavailable_profiles(&names));
    assert!(status.git_available);
    assert!(!status.credential_manager_available);
    assert_eq!(status.accounts[0].login, "alice");
}

#[test]
fn branches_and_git_commands() {
    let (branch, seen) = run_git(detect_branch("/work"), |f, r| f.resume(r), |_| ok(" main \n"));
    assert_eq!(branch, "main");
    assert_eq!(seen[0], vec!["branch", "--show-current"]);
    let command = GitCommand {
        directory: None,
        args: vec!["fetch".into()],
        proxy_mode: ProxyMode::Custom,
        proxy_address: " http://p:1 ".into(),
    };
    assert_eq!(
        command.command_line(),
        vec!["-c", "http.proxy=http://p:1", "-c", "https.proxy=http://p:1", "fetch"]
    );
    let disabled = GitCommand { proxy_mode: ProxyMode::Disabled, ..command };
    assert_eq!(
        disabled.command_line(),
        vec!["-c", "http.proxy=", "-c", "https.proxy=", "fetch"]
    );
    assert_eq!(command_outcome("out\n".into(), "err\n", true), Ok("out\nerr".to_string()));
    assert_eq!(command_outcome(String::new(), " bad ", false), Err("bad".to_string()));
}
