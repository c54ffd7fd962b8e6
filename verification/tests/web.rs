use git_auto_pull::models::ProxyMode;
use git_auto_pull::web::{
    avatar_content_type, avatar_data_url, check_avatar_url, check_install_endpoint,
    check_profile_length, check_update_endpoint, client_proxy, git_proxy_address, github_profile,
    install_target, profile_proxy, profile_url, read_limited, update_status, ClientProxy, GitHubPublicProfile,
    UrlParts,
};

#[test]
fn avatar_data_urls_hold_standard_base64() {
    assert_eq!(avatar_data_url("image/png", b"Man"), "data:image/png;base64,TWFu");
    assert_eq!(avatar_data_url("image/gif", b"Ma"), "data:image/gif;base64,TWE=");
    assert_eq!(avatar_data_url("image/gif", b"M"), "data:image/gif;base64,TQ==");
    assert_eq!(avatar_data_url("image/webp", &[0xfb, 0xff]), "data:image/webp;base64,+/8=");
    assert_eq!(avatar_data_url("image/jpeg", b""), "data:image/jpeg;base64,");
}

#[test]
fn avatar_addresses_are_checked() {
    assert!(check_avatar_url("https://AVATARS.githubusercontent.com/u/1").is_ok());
    assert_eq!(check_avatar_url("not a url").unwrap_err(), "头像地址无效");
    assert_eq!(check_avatar_url("https://example.com/a.png").unwrap_err(), "头像地址不受信任");
    let parts = UrlParts::parse("HTTPS://Example.COM/x").unwrap();
    assert_eq!(parts.scheme, "https");
    assert_eq!(parts.host.as_deref(), Some("example.com"));
    assert!(UrlParts::parse("relative/path").is_none());
}

#[test]
fn avatar_responses_are_checked() {
    assert_eq!(avatar_content_type(Some(2_000_000), Some("image/png".into())).unwrap_err(), "头像文件过大");
    assert_eq!(avatar_content_type(None, Some(" image/png ; charset=x".into())).unwrap(), "image/png");
    assert_eq!(avatar_content_type(Some(10), Some("text/html".into())).unwrap_err(), "头像图片类型不受支持");
    assert_eq!(avatar_content_type(None, None).unwrap_err(), "头像图片类型不受支持");
}

#[test]
fn bounded_reads_refuse_large_bodies() {
    assert_eq!(read_limited(Ok(vec![1, 2, 3]), 3).unwrap(), vec![1, 2, 3]);
    assert_eq!(read_limited(Ok(vec![1, 2, 3, 4]), 3).unwrap_err(), "响应超过允许大小");
    assert_eq!(read_limited(Err("io".into()), 3).unwrap_err(), "io");
    assert!(check_profile_length(Some(131072)).is_ok());
    assert_eq!(check_profile_length(Some(131073)).unwrap_err(), "公开资料响应过大");
}

#[test]
fn profiles_are_looked_up_for_valid_logins_only() {
    assert_eq!(profile_url("octocat").as_deref(), Some("https://api.github.com/users/octocat"));
    assert_eq!(profile_url("bad/name"), None);
    let public = GitHubPublicProfile {
        login: "Octocat".into(),
        name: Some("  The Octocat  ".into()),
        bio: Some("   ".into()),
        company: None,
        location: Some("x".repeat(150)),
        public_repos: 8,
        followers: 9,
        avatar_url: None,
    };
    let shown = github_profile("octocat", Ok((public, Some("data:image/png;base64,".into()))));
    assert_eq!(shown.login, "Octocat");
    assert_eq!(shown.name.as_deref(), Some("The Octocat"));
    assert_eq!(shown.bio, None);
    assert_eq!(shown.location.map(|l| l.chars().count()), Some(100));
    assert_eq!(shown.public_repos, 8);
    assert!(shown.profile_error.is_none());
    let unavailable = github_profile("octocat", Err("timeout".into()));
    assert_eq!(unavailable.login, "octocat");
    assert_eq!(unavailable.profile_error.as_deref(), Some("公开资料暂不可用"));
}

#[test]
fn profile_client_proxies_follow_the_mode() {
    assert!(matches!(client_proxy(ProxyMode::Disabled, "x"), ClientProxy::Direct));
    assert!(matches!(client_proxy(ProxyMode::System, ""), ClientProxy::FromGit));
    assert!(matches!(client_proxy(ProxyMode::Custom, "  "), ClientProxy::Environment));
    match client_proxy(ProxyMode::Custom, " http://proxy:8080 ") {
        ClientProxy::Configured(a) => assert_eq!(a, "http://proxy:8080"),
        _ => panic!("expected a configured proxy"),
    }
    assert_eq!(git_proxy_address(Ok(" http://p:1 \n".into())).as_deref(), Some("http://p:1"));
    assert_eq!(git_proxy_address(Ok("  ".into())), None);
    assert_eq!(git_proxy_address(Err("".into())), None);
}

#[test]
fn update_endpoints_must_be_https() {
    assert_eq!(check_update_endpoint("  ").unwrap_err(), "请先填写更新服务地址");
    assert_eq!(check_update_endpoint("::").unwrap_err(), "更新服务地址无效");
    assert_eq!(check_update_endpoint("http://example.com/x.json").unwrap_err(), "更新服务必须使用 HTTPS");
    assert!(check_update_endpoint("https://example.com/x.json").is_ok());
    assert_eq!(check_install_endpoint("").unwrap_err(), "更新服务地址无效");
}

#[test]
fn update_answers_name_the_version() {
    let none = update_status(None);
    assert!(!none.available);
    assert_eq!(none.message, "当前已是最新版本");
    let some = update_status(Some("3.4.0".into()));
    assert!(some.available);
    assert_eq!(some.version.as_deref(), Some("3.4.0"));
    assert_eq!(some.message, "发现新版本 3.4.0");
    assert_eq!(install_target(None).unwrap_err(), "当前已是最新版本");
    assert_eq!(install_target(Some("1".into())).unwrap(), "1");
}

#[test]
fn profile_proxy_checks_addresses() {
    assert!(matches!(profile_proxy(ProxyMode::Disabled, "x", Err(String::new())), Ok(ClientProxy::Direct)));
    assert!(matches!(profile_proxy(ProxyMode::Custom, "  ", Err(String::new())), Ok(ClientProxy::Environment)));
    match profile_proxy(ProxyMode::Custom, " http://127.0.0.1:8080 ", Err(String::new())) {
        Ok(ClientProxy::Configured(a)) => assert_eq!(a, "http://127.0.0.1:8080"),
        other => panic!("unexpected {other:?}"),
    }
    let refused = profile_proxy(ProxyMode::Custom, "http://[bad", Err(String::new())).unwrap_err();
    assert!(refused.starts_with("代理地址无效："));
    assert!(refused.len() > "代理地址无效：".len());
    assert!(matches!(profile_proxy(ProxyMode::System, "", Err("no".into())), Ok(ClientProxy::Environment)));
    assert!(matches!(profile_proxy(ProxyMode::System, "", Ok(" \n".into())), Ok(ClientProxy::Environment)));
    match profile_proxy(ProxyMode::System, "", Ok("http://proxy.local:3128\n".into())) {
        Ok(ClientProxy::Configured(a)) => assert_eq!(a, "http://proxy.local:3128"),
        other => panic!("unexpected {other:?}"),
    }
    let refused = profile_proxy(ProxyMode::System, "", Ok("http://[bad".into())).unwrap_err();
    assert!(refused.starts_with("Git 代理地址无效："));
}

#[test]
fn profile_client_settings_are_fixed() {
    let c = git_auto_pull::web::profile_client_settings();
    assert_eq!(c.connect_timeout_secs, 6);
    assert_eq!(c.timeout_secs, 12);
    assert!(!c.follows_redirects);
    assert_eq!(c.user_agent, "Git-Auto-Pull/3.3.0");
}
