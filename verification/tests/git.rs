use git_auto_pull::effects::{Effect, GitCommand, Reply, Step};
use git_auto_pull::git::{
    clean_profile_text, default_branch, github_accounts, into_result, join_error,
    normalize_remote, short, valid_github_login,
};
use git_auto_pull::inspect::inspect_path;
use git_auto_pull::models::{GitResult, ProxyMode, Repository, RepositoryPathKind, RepositoryPathStatus};
use git_auto_pull::register::initialize;
use git_auto_pull::sync::update;
use git_auto_pull::web::{is_allowed_avatar_url, UrlParts};

fn args(command: &GitCommand) -> Vec<&str> {
    command.args.iter().map(String::as_str).collect()
}

fn ok(text: &str) -> Reply {
    Reply::Output(Ok(text.to_string()))
}

/// Classifies a directory as the file system in `facts` describes it:
/// (exists, is a directory, has entries, toplevel reported by Git).
fn classify(value: &str, exists: bool, is_dir: bool, has_entries: bool, toplevel: Option<&str>) -> RepositoryPathStatus {
    let mut step = inspect_path(value);
    loop {
        match step {
            Step::Finish(status) => return status,
            Step::Perform(effect, flow) => {
                let reply = match &effect {
                    Effect::PathExists(_) => Reply::Flag(exists),
                    Effect::IsDirectory(_) => Reply::Flag(is_dir),
                    Effect::ReadDirectory(_) => Reply::Entries(Ok(has_entries)),
                    Effect::Git(_) => match toplevel {
                        Some(top) => ok(top),
                        None => Reply::Output(Err("fatal: not a git repository".to_string())),
                    },
                    Effect::SamePath(a, b) => Reply::Flag(a == b),
                    _ => panic!("unexpected effect"),
                };
                step = flow.resume(reply);
            }
        }
    }
}

#[test]
fn parses_default_branch() {
    let output = "ref: refs/heads/main\tHEAD\nabc123\tHEAD";
    assert_eq!(default_branch(output).as_deref(), Some("main"));
}

#[test]
fn normalizes_common_remote_formats() {
    assert_eq!(
        normalize_remote("git@github.com:user/project.git"),
        normalize_remote("https://github.com/user/project/")
    );
}

#[test]
fn validates_github_accounts_and_avatar_hosts() {
    assert!(valid_github_login("sleep-into-a-coma"));
    assert!(!valid_github_login("-invalid"));
    assert!(!valid_github_login("invalid/name"));
    assert!(is_allowed_avatar_url(
        &UrlParts::parse("https://avatars.githubusercontent.com/u/1?v=4").unwrap()
    ));
    assert!(!is_allowed_avatar_url(
        &UrlParts::parse("https://example.com/avatar.png").unwrap()
    ));
    assert!(!is_allowed_avatar_url(
        &UrlParts::parse("http://avatars.githubusercontent.com/u/1").unwrap()
    ));
}

#[test]
fn classifies_clone_and_registration_targets() {
    let missing = classify("/tmp/git-auto-pull-paths/missing", false, false, false, None);
    let empty = classify("/tmp/git-auto-pull-paths/empty", true, true, false, None);
    let existing = classify("/tmp/git-auto-pull-paths/existing", true, true, true, None);
    assert_eq!(missing.kind, RepositoryPathKind::Missing);
    assert_eq!(empty.kind, RepositoryPathKind::Empty);
    assert_eq!(existing.kind, RepositoryPathKind::NonGit);
}

#[test]
fn registers_existing_directory_without_overwriting_files() {
    let mut repository = Repository::default();
    repository.url = "/tmp/git-auto-pull-init/remote.git".into();
    repository.local_path = "/tmp/git-auto-pull-init/existing".into();
    repository.branch = "main".into();
    let mut commands: Vec<Vec<String>> = Vec::new();
    let mut step = initialize(&repository, ProxyMode::System, "");
    let result: GitResult = loop {
        match step {
            Step::Finish(result) => break result,
            Step::Perform(effect, flow) => {
                let reply = match &effect {
                    Effect::InspectPath(_) => Reply::Kind(RepositoryPathKind::NonGit),
                    Effect::GitDirectoryExists(_) => Reply::Flag(false),
                    Effect::Git(command) => {
                        commands.push(command.args.clone());
                        match args(command)[0] {
                            "--version" => ok("git version 2.45.0"),
                            "init" => ok("Initialized empty Git repository"),
                            "ls-remote" => ok("ref: refs/heads/main\tHEAD\nabc123\tHEAD"),
                            "show-ref" => ok("abc123 refs/remotes/origin/main"),
                            "reset" => ok("Unstaged changes after reset:\nM\tfile.txt"),
                            "status" => ok(" M file.txt"),
                            _ => ok(""),
                        }
                    }
                    _ => panic!("unexpected effect"),
                };
                step = flow.resume(reply);
            }
        }
    };
    assert!(result.success, "{}\n{}", result.message, result.details);
    assert_eq!(result.message, "Git 仓库注册完成，保留了 1 项本地改动");
    assert!(commands.iter().any(|c| c == &["reset", "--mixed", "origin/main"]));
    assert!(!commands.iter().any(|c| c.iter().any(|a| a == "--hard" || a == "checkout")));
}

#[test]
fn reports_first_sync_as_clone() {
    let mut repository = Repository::default();
    repository.url = "/tmp/git-auto-pull-clone/remote.git".into();
    repository.local_path = "/tmp/git-auto-pull-clone/local".into();
    let mut clone_args: Vec<String> = Vec::new();
    let mut step = update(&repository, ProxyMode::System, "");
    let result = loop {
        match step {
            Step::Finish(result) => break result,
            Step::Perform(effect, flow) => {
                let reply = match &effect {
                    Effect::InspectPath(_) => Reply::Kind(RepositoryPathKind::Missing),
                    Effect::CreateParentDirectory(_) => Reply::Done(Ok(())),
                    Effect::Git(command) => {
                        if args(command)[0] == "clone" {
                            clone_args = command.args.clone();
                            ok("Cloning into 'local'...")
                        } else {
                            ok("git version 2.45.0")
                        }
                    }
                    _ => panic!("unexpected effect"),
                };
                step = flow.resume(reply);
            }
        }
    };
    assert!(result.success, "{}\n{}", result.message, result.details);
    assert_eq!(result.message, "克隆完成");
    assert_eq!(
        clone_args,
        vec![
            "clone",
            "--progress",
            "/tmp/git-auto-pull-clone/remote.git",
            "/tmp/git-auto-pull-clone/local"
        ]
    );
}

#[test]
fn default_branch_skips_other_lines_and_needs_heads() {
    assert_eq!(default_branch("abc\tHEAD\nref: refs/heads/dev HEAD\r\n").as_deref(), Some("dev"));
    assert_eq!(default_branch("ref: refs/tags/v1\tHEAD"), None);
    assert_eq!(default_branch("ref: refs/heads/main"), None);
    assert_eq!(default_branch(""), None);
}

#[test]
fn normalize_remote_lowercases_and_strips() {
    assert_eq!(normalize_remote("  https://GitHub.com/User/Repo.git.git/\\ "), "github.com/user/repo");
    assert_eq!(normalize_remote("ssh://git@host:22/a"), "git@host/22/a");
    assert_eq!(normalize_remote("C:\\work\\repo"), "c//work/repo");
}

#[test]
fn github_logins_are_bounded() {
    assert!(valid_github_login("a"));
    assert!(!valid_github_login(""));
    assert!(!valid_github_login("end-"));
    assert!(valid_github_login(&"a".repeat(39)));
    assert!(!valid_github_login(&"a".repeat(40)));
    assert!(!valid_github_login("名字"));
}

#[test]
fn profile_text_is_trimmed_and_cut() {
    assert_eq!(clean_profile_text(Some("  hello world ".into()), 5).as_deref(), Some("hello"));
    assert_eq!(clean_profile_text(Some("   ".into()), 5), None);
    assert_eq!(clean_profile_text(None, 5), None);
    assert_eq!(clean_profile_text(Some(" 你好 ".into()), 80).as_deref(), Some("你好"));
}

#[test]
fn errors_join_their_details() {
    assert_eq!(join_error("失败".into(), "  ".into()), "失败");
    assert_eq!(join_error("失败".into(), "原因".into()), "失败：原因");
}

#[test]
fn results_keep_their_outcome() {
    let ok = into_result(Ok(("m".into(), "d".into())));
    assert!(ok.success);
    let err = into_result(Err(("m".into(), "d".into())));
    assert!(!err.success);
    assert_eq!(err.message, "m");
    assert_eq!(err.details, "d");
}

#[test]
fn commit_hashes_are_shortened() {
    assert_eq!(short("0123456789abcdef"), "0123456");
    assert_eq!(short("abc"), "abc");
    assert_eq!(short("ééééé"), "ééééé");
}

#[test]
fn account_listing_skips_warnings_and_blank_lines() {
    let names = github_accounts(Ok("warning: old\n  alice \n\nbob\r\n".into())).unwrap();
    assert_eq!(names, vec!["alice", "bob"]);
    assert_eq!(github_accounts(Err("boom".into())).unwrap_err(), "boom");
}

#[test]
fn trailing_slash_and_git_suffix_name_the_same_remote() {
    for v in ["https://github.com/User/Repo", "git@host:team/app", "C:\\repos\\tool", ""] {
        let base = normalize_remote(v);
        assert_eq!(normalize_remote(&format!("{v}/")), base);
        assert_eq!(normalize_remote(&format!("{v}.git")), base);
        assert!(!base.contains(':') && !base.contains('\\'));
    }
}

#[test]
fn whitespace_around_a_directory_keeps_its_classification() {
    for (exists, is_dir, entries, top) in [
        (false, false, false, None),
        (true, false, false, None),
        (true, true, false, None),
        (true, true, true, None),
        (true, true, true, Some("/work/repo")),
        (true, true, true, Some("/work")),
    ] {
        let bare = classify("/work/repo", exists, is_dir, entries, top);
        let padded = classify(" \t/work/repo\n ", exists, is_dir, entries, top);
        assert_eq!(bare.kind, padded.kind);
        assert_eq!(bare.message, padded.message);
    }
}
