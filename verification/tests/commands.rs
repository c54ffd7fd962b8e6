use git_auto_pull::commands::{
    begin_initialize, begin_update, delete_repository, due_repositories, finish_task, guess_name,
    hides_on_close, initialize_outcome, sanitize_settings, save_repository, store_repository,
    tagged, tray_action, update_all_result, update_outcome, update_start_message, saved_message,
    TrayAction,
};
use git_auto_pull::models::{
    CloseBehavior, GitResult, Repository, RepositoryPathKind, Settings, Timestamp,
};

fn repo(id: &str, url: &str, path: &str) -> Repository {
    let mut r = Repository::default();
    r.id = id.into();
    r.url = url.into();
    r.local_path = path.into();
    r
}

fn at(seconds: i64) -> Timestamp {
    Timestamp { seconds, nanos: 0 }
}

#[test]
fn names_are_guessed_from_addresses() {
    assert_eq!(guess_name("https://github.com/user/project.git/"), "project");
    assert_eq!(guess_name("git@github.com:user/tool"), "tool");
    assert_eq!(guess_name("plain"), "plain");
    assert_eq!(guess_name("host:"), "");
}

#[test]
fn saving_fills_in_and_refuses_conflicts() {
    let mut settings = Settings::default();
    let mut first = repo("", "https://github.com/user/alpha.git", "C:\\Work\\Alpha");
    first.interval_minutes = 0;
    let saved = save_repository(&mut settings, first, [0xab; 16]).unwrap();
    assert_eq!(saved.id, "abababab-abab-4bab-abab-abababababab");
    assert_eq!(saved.name, "alpha");
    assert_eq!(saved.interval_minutes, 1);
    assert_eq!(settings.repositories.len(), 1);
    let clash = repo("other", "https://github.com/user/beta.git", "c:\\work\\alpha");
    assert_eq!(
        store_repository(&mut settings, clash).unwrap_err(),
        "该本地目录已由其他项目使用"
    );
    assert_eq!(settings.repositories.len(), 1);
    let mut edited = saved.clone();
    edited.name = "Alpha".into();
    edited.interval_minutes = 20000;
    let again = store_repository(&mut settings, edited).unwrap();
    assert_eq!(again.interval_minutes, 10080);
    assert_eq!(settings.repositories.len(), 1);
    assert_eq!(settings.repositories[0].name, "Alpha");
    let fresh = save_repository(&mut settings, repo("", "https://h/x", "D:\\x"), [0; 16]).unwrap();
    assert_eq!(fresh.id, "00000000-0000-4000-8000-000000000000");
    let taken = save_repository(&mut settings, repo("", "https://h/y", "d:\\X"), [0xff; 16]);
    assert_eq!(taken.unwrap_err(), "该本地目录已由其他项目使用");
    let kept = save_repository(&mut settings, repo("mine", "https://h/z", "E:\\z"), [0xff; 16]).unwrap();
    assert_eq!(kept.id, "mine");
    assert_eq!(settings.repositories.len(), 3);
    assert_eq!(
        save_repository(&mut settings, repo("", " ", "x"), [0; 16]).unwrap_err(),
        "请填写 Git 地址和本地目录"
    );
}

#[test]
fn deleting_removes_every_match() {
    let mut settings = Settings::default();
    settings.repositories = vec![repo("a", "u", "p1"), repo("b", "u", "p2"), repo("a", "u", "p3")];
    delete_repository(&mut settings, "a");
    assert_eq!(settings.repositories.len(), 1);
    assert_eq!(settings.repositories[0].id, "b");
}

#[test]
fn saved_settings_are_within_range() {
    let mut settings = Settings::default();
    settings.max_log_size_mb = 0;
    settings.contrast = 250;
    settings.ui_font_size = 30;
    settings.code_font_size = 2;
    let mut r = repo("a", "u", "p");
    r.interval_minutes = 99999;
    settings.repositories = vec![r];
    let s = sanitize_settings(settings);
    assert_eq!(s.max_log_size_mb, 1);
    assert_eq!(s.contrast, 100);
    assert_eq!(s.ui_font_size, 20);
    assert_eq!(s.code_font_size, 10);
    assert_eq!(s.repositories[0].interval_minutes, 10080);
    let t = sanitize_settings(s.clone());
    assert_eq!(t.max_log_size_mb, s.max_log_size_mb);
    assert_eq!(t.repositories[0].interval_minutes, 10080);
}

#[test]
fn tasks_mark_and_unmark_repositories() {
    let mut settings = Settings::default();
    settings.repositories = vec![repo("a", "u", "p")];
    assert_eq!(begin_initialize(&mut settings, "x").unwrap_err(), "项目不存在");
    let started = begin_initialize(&mut settings, "a").unwrap();
    assert!(started.is_running);
    assert_eq!(started.last_status, "正在注册 Git 仓库…");
    assert_eq!(begin_initialize(&mut settings, "a").unwrap_err(), "项目正在执行其他任务");
    assert!(begin_update(&mut settings, "a", RepositoryPathKind::Git, at(10)).unwrap().is_none());
    let result = GitResult { success: true, message: "已是最新".into(), details: String::new() };
    finish_task(&mut settings, "a", &result, Some(at(20)));
    assert!(!settings.repositories[0].is_running);
    assert_eq!(settings.repositories[0].last_status, "已是最新");
    assert_eq!(settings.repositories[0].last_success, Some(at(20)));
    let running = begin_update(&mut settings, "a", RepositoryPathKind::Missing, at(30)).unwrap().unwrap();
    assert_eq!(running.last_status, "正在克隆…");
    assert_eq!(running.last_attempt, Some(at(30)));
    let failed = GitResult { success: false, message: "克隆失败".into(), details: String::new() };
    finish_task(&mut settings, "a", &failed, Some(at(40)));
    assert_eq!(settings.repositories[0].last_success, Some(at(20)));
    assert_eq!(update_outcome(failed).unwrap_err(), "克隆失败");
    assert_eq!(initialize_outcome(result).unwrap(), "已是最新");
}

#[test]
fn scheduler_picks_due_repositories() {
    let mut settings = Settings::default();
    let mut fresh = repo("fresh", "u", "p1");
    fresh.auto_pull = true;
    let mut recent = repo("recent", "u", "p2");
    recent.auto_pull = true;
    recent.interval_minutes = 30;
    recent.last_attempt = Some(Timestamp { seconds: 1000, nanos: 500 });
    let mut old = recent.clone();
    old.id = "old".into();
    old.last_attempt = Some(at(0));
    let mut busy = old.clone();
    busy.id = "busy".into();
    busy.is_running = true;
    let manual = repo("manual", "u", "p3");
    settings.repositories = vec![fresh, recent, old, busy, manual];
    let now = at(1000 + 30 * 60);
    assert_eq!(due_repositories(&settings, now), vec!["fresh".to_string(), "old".to_string()]);
}

#[test]
fn messages_and_menus() {
    assert_eq!(update_all_result(Vec::new()), Ok(()));
    assert_eq!(
        update_all_result(vec!["a".into(), "b".into()]).unwrap_err(),
        "2 个项目更新失败：a；b"
    );
    assert_eq!(tray_action("show"), TrayAction::ShowWindow);
    assert_eq!(tray_action("update"), TrayAction::UpdateAll);
    assert_eq!(tray_action("quit"), TrayAction::Quit);
    assert_eq!(tray_action("other"), TrayAction::Nothing);
    let mut settings = Settings::default();
    assert!(hides_on_close(&settings));
    settings.close_behavior = CloseBehavior::Exit;
    assert!(!hides_on_close(&settings));
    assert_eq!(tagged("repo", "开始克隆"), "[repo] 开始克隆");
    assert_eq!(update_start_message(RepositoryPathKind::Empty), "开始克隆");
    assert_eq!(update_start_message(RepositoryPathKind::Git), "开始检查更新");
    assert_eq!(saved_message("x"), "已保存项目：x");
}
