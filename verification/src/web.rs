//! What is decided around the HTTP requests for public GitHub profiles and
//! avatars, and around the proxy they use: which addresses are trusted, which
//! responses are accepted, and how a profile is shown.
use vstd::prelude::*;
use base64::Engine;
use crate::git::{is_unavailable, clean_profile_text, cleaned_text, is_valid_login, option_view, unavailable_profile, valid_github_login};
use crate::models::{GitAccountProfile, ProxyMode};
use crate::text::{
    before_first, chars_of, eq_ignore_ascii_case, eq_ignore_case, position_of, string_of, trim,
    trim_bounds, trim_str, is_blank,
};

verus! {

/// `url::ParseError`, the error of `url::Url::parse`, carried opaquely.
#[verifier::external_type_specification]
#[verifier::external_body]
pub struct ExUrlParseError(url::ParseError);

/// The parts of an absolute URL that the checks read.
pub struct UrlParts {
    pub scheme: String,
    pub host: Option<String>,
}

/// The scheme and host that `url::Url::parse` finds in `input`, or `None`
/// when it refuses the input.
pub uninterp spec fn parsed_url(input: Seq<char>) -> Option<(Seq<char>, Option<Seq<char>>)>;

/// `url::Url::parse`, then `Url::scheme` and `Url::host_str` of the result.
/// Claimed: success exactly when `parsed_url` of the input is `Some`, and
/// then the scheme and host are the ones it names. What the parser accepts
/// and how it normalises is left to the name.
#[verifier::external_body]
fn parse_url(input: &str) -> (r: Result<UrlParts, url::ParseError>)
    ensures
        r is Ok <==> parsed_url(input@) is Some,
        r matches Ok(p) ==> parsed_url(input@) == Some((p.scheme@, option_view(p.host))),
{
    url::Url::parse(input).map(
        |u| UrlParts { scheme: u.scheme().to_string(), host: u.host_str().map(|h| h.to_string()) },
    )
}

impl UrlParts {
    /// The scheme and host of `input` read as an absolute URL; `None` when
    /// it is not one.
    pub fn parse(input: &str) -> (r: Option<UrlParts>)
        ensures
            r is Some <==> parsed_url(input@) is Some,
            r matches Some(p) ==> parsed_url(input@) == Some((p.scheme@, option_view(p.host))),
    {
        match parse_url(input) {
            Ok(parts) => Some(parts),
            Err(_) => None,
        }
    }
}

pub open spec fn avatar_host() -> Seq<char> {
    "avatars.githubusercontent.com"@
}

/// An avatar address is trusted when it is HTTPS on GitHub's avatar host.
pub open spec fn is_trusted_avatar(scheme: Seq<char>, host: Option<Seq<char>>) -> bool {
    &&& scheme == "https"@
    &&& host matches Some(h) && eq_ignore_case(h, avatar_host())
}

/// Whether avatars may be downloaded from `url`.
pub fn is_allowed_avatar_url(url: &UrlParts) -> (r: bool)
    ensures
        r == is_trusted_avatar(url.scheme@, option_view(url.host)),
{
    let https = String::from_str("https");
    if url.scheme != https {
        return false;
    }
    match &url.host {
        Some(host) => eq_ignore_ascii_case(host.as_str(), "avatars.githubusercontent.com"),
        None => false,
    }
}

/// Checks an avatar address before it is downloaded.
pub fn check_avatar_url(value: &str) -> (r: Result<(), String>)
    ensures
        match parsed_url(value@) {
            None => r matches Err(e) && e@ == "头像地址无效"@,
            Some((scheme, host)) => if is_trusted_avatar(scheme, host) {
                r is Ok
            } else {
                r matches Err(e) && e@ == "头像地址不受信任"@
            },
        },
{
    match UrlParts::parse(value) {
        None => Err(String::from_str("头像地址无效")),
        Some(parts) => {
            if is_allowed_avatar_url(&parts) {
                Ok(())
            } else {
                Err(String::from_str("头像地址不受信任"))
            }
        },
    }
}

/// At most this many bytes of a public profile are read.
pub const MAX_PROFILE_BYTES: u64 = 131072;

/// At most this many bytes of an avatar are read.
pub const MAX_AVATAR_BYTES: u64 = 1572864;

/// Finishes a bounded read. `read` is what reading at most `limit + 1`
/// bytes of a response returned; more than `limit` bytes are refused.
pub fn read_limited(read: Result<Vec<u8>, String>, limit: u64) -> (r: Result<Vec<u8>, String>)
    ensures
        match read {
            Err(e) => r matches Err(f) && f@ == e@,
            Ok(bytes) => if bytes@.len() > limit {
                r matches Err(f) && f@ == "响应超过允许大小"@
            } else {
                r matches Ok(b) && b@ == bytes@
            },
        },
{
    match read {
        Err(e) => Err(e),
        Ok(bytes) => {
            if bytes.len() as u64 > limit {
                Err(String::from_str("响应超过允许大小"))
            } else {
                Ok(bytes)
            }
        },
    }
}

/// Refuses a profile response that announces more bytes than are read.
pub fn check_profile_length(content_length: Option<u64>) -> (r: Result<(), String>)
    ensures
        match content_length {
            Some(n) if n > MAX_PROFILE_BYTES => r matches Err(e) && e@ == "公开资料响应过大"@,
            _ => r is Ok,
        },
{
    match content_length {
        Some(n) => {
            if n > MAX_PROFILE_BYTES {
                Err(String::from_str("公开资料响应过大"))
            } else {
                Ok(())
            }
        },
        None => Ok(()),
    }
}

/// The image types accepted for avatars.
pub open spec fn is_avatar_type(t: Seq<char>) -> bool {
    t == "image/png"@ || t == "image/jpeg"@ || t == "image/gif"@ || t == "image/webp"@
}

/// The media type of a `Content-Type` header: what precedes the first `;`,
/// trimmed.
pub open spec fn media_type(header: Seq<char>) -> Seq<char> {
    trim(before_first(header, ';'))
}

/// Checks an avatar response's announced length and its `Content-Type`
/// (absent when the header is missing or not visible ASCII); gives the media
/// type to put in the data URL.
pub fn avatar_content_type(content_length: Option<u64>, content_type: Option<String>) -> (r: Result<String, String>)
    ensures
        content_length matches Some(n) && n > MAX_AVATAR_BYTES ==> (r matches Err(e) && e@
            == "头像文件过大"@),
        !(content_length matches Some(n) && n > MAX_AVATAR_BYTES) ==> match content_type {
            Some(h) if is_avatar_type(media_type(h@)) => r matches Ok(t) && t@ == media_type(h@),
            _ => r matches Err(e) && e@ == "头像图片类型不受支持"@,
        },
{
    match content_length {
        Some(n) => {
            if n > MAX_AVATAR_BYTES {
                return Err(String::from_str("头像文件过大"));
            }
        },
        None => {},
    }
    let unsupported = String::from_str("头像图片类型不受支持");
    match content_type {
        None => Err(unsupported),
        Some(header) => {
            let v = chars_of(header.as_str());
            let end = position_of(&v, ';');
            let first = string_of(&v, 0, end);
            assert(first@ =~= before_first(header@, ';'));
            let t = trim_str(first.as_str());
            if t == String::from_str("image/png") || t == String::from_str("image/jpeg") || t
                == String::from_str("image/gif") || t == String::from_str("image/webp") {
                Ok(t)
            } else {
                Err(unsupported)
            }
        },
    }
}

/// The character of the standard Base64 alphabet with index `i`.
pub open spec fn base64_digit(i: int) -> char {
    if i < 26 {
        (65 + i) as char
    } else if i < 52 {
        (97 + (i - 26)) as char
    } else if i < 62 {
        (48 + (i - 52)) as char
    } else if i == 62 {
        '+'
    } else {
        '/'
    }
}

/// Base64 with the standard alphabet and `=` padding (RFC 4648, section 4):
/// each three bytes become four characters; a final one or two bytes become
/// four characters ending in `==` or `=`.
pub open spec fn base64_standard(b: Seq<u8>) -> Seq<char>
    decreases b.len(),
{
    if b.len() == 0 {
        seq![]
    } else {
        let x = b[0] as int;
        if b.len() == 1 {
            seq![base64_digit(x / 4), base64_digit((x % 4) * 16), '=', '=']
        } else {
            let y = b[1] as int;
            if b.len() == 2 {
                seq![
                    base64_digit(x / 4),
                    base64_digit((x % 4) * 16 + y / 16),
                    base64_digit((y % 16) * 4),
                    '=',
                ]
            } else {
                let z = b[2] as int;
                seq![
                    base64_digit(x / 4),
                    base64_digit((x % 4) * 16 + y / 16),
                    base64_digit((y % 16) * 4 + z / 64),
                    base64_digit(z % 64),
                ] + base64_standard(b.skip(3))
            }
        }
    }
}

/// `base64::engine::general_purpose::STANDARD.encode`. Claimed: the result
/// is the padded standard Base64 of the input. The engine panics when the
/// encoded length overflows `usize`, which the precondition excludes.
#[verifier::external_body]
fn encode_base64(bytes: &[u8]) -> (r: String)
    requires
        bytes@.len() / 3 * 4 + 4 <= usize::MAX,
    ensures
        r@ == base64_standard(bytes@),
{
    base64::engine::general_purpose::STANDARD.encode(bytes)
}

/// The `data:` URL under which a downloaded avatar is shown.
pub fn avatar_data_url(content_type: &str, bytes: &[u8]) -> (r: String)
    requires
        bytes@.len() / 3 * 4 + 4 <= usize::MAX,
    ensures
        r@ == "data:"@ + content_type@ + ";base64,"@ + base64_standard(bytes@),
{
    let encoded = encode_base64(bytes);
    String::from_str("data:").concat(content_type).concat(";base64,").concat(encoded.as_str())
}

/// The public profile that GitHub's users API returns.
#[derive(Clone, Debug)]
pub struct GitHubPublicProfile {
    pub login: String,
    pub name: Option<String>,
    pub bio: Option<String>,
    pub company: Option<String>,
    pub location: Option<String>,
    pub public_repos: u32,
    pub followers: u32,
    pub avatar_url: Option<String>,
}

/// The address of the public profile of `account`, when the account is a
/// valid GitHub login; other accounts are not looked up.
pub fn profile_url(account: &str) -> (r: Option<String>)
    ensures
        is_valid_login(account@) ==> (r matches Some(u) && u@ == "https://api.github.com/users/"@
            + account@),
        !is_valid_login(account@) ==> r is None,
{
    if valid_github_login(account) {
        Some(String::from_str("https://api.github.com/users/").concat(account))
    } else {
        None
    }
}

/// How a fetched public profile is shown: the login GitHub reports, texts
/// trimmed and cut (name 80, bio 240, company and location 100 characters),
/// the counts, the avatar when it could be downloaded, and no error.
pub open spec fn shows_profile(
    p: GitAccountProfile,
    profile: GitHubPublicProfile,
    avatar_data: Option<Seq<char>>,
) -> bool {
    &&& p.login@ == profile.login@
    &&& option_view(p.name) == cleaned_text(option_view(profile.name), 80)
    &&& option_view(p.bio) == cleaned_text(option_view(profile.bio), 240)
    &&& option_view(p.company) == cleaned_text(option_view(profile.company), 100)
    &&& option_view(p.location) == cleaned_text(option_view(profile.location), 100)
    &&& p.public_repos == profile.public_repos
    &&& p.followers == profile.followers
    &&& option_view(p.avatar_data) == avatar_data
    &&& p.profile_error is None
}

/// The profile shown for `account` from what fetching it gave: the fetched
/// profile with its avatar, or the unavailable profile when fetching failed.
pub fn github_profile(
    account: &str,
    fetched: Result<(GitHubPublicProfile, Option<String>), String>,
) -> (p: GitAccountProfile)
    ensures
        match fetched {
            Ok((profile, avatar)) => shows_profile(p, profile, option_view(avatar)),
            Err(_) => is_unavailable(p, account@),
        },
{
    match fetched {
        Ok((profile, avatar_data)) => GitAccountProfile {
            login: profile.login,
            name: clean_profile_text(profile.name, 80),
            bio: clean_profile_text(profile.bio, 240),
            company: clean_profile_text(profile.company, 100),
            location: clean_profile_text(profile.location, 100),
            public_repos: profile.public_repos,
            followers: profile.followers,
            avatar_data,
            profile_error: None,
        },
        Err(_) => unavailable_profile(String::from_str(account)),
    }
}

/// How the profile client talks to GitHub besides its proxy.
pub struct ClientSettings {
    /// Seconds allowed for connecting.
    pub connect_timeout_secs: u64,
    /// Seconds allowed for a whole request.
    pub timeout_secs: u64,
    /// Whether redirects are followed.
    pub follows_redirects: bool,
    pub user_agent: String,
}

/// The profile client's settings: 6 seconds to connect, 12 for a request,
/// no redirects followed, and the application's user agent.
pub fn profile_client_settings() -> (c: ClientSettings)
    ensures
        c.connect_timeout_secs == 6,
        c.timeout_secs == 12,
        !c.follows_redirects,
        c.user_agent@ == "Git-Auto-Pull/3.3.0"@,
{
    ClientSettings {
        connect_timeout_secs: 6,
        timeout_secs: 12,
        follows_redirects: false,
        user_agent: String::from_str("Git-Auto-Pull/3.3.0"),
    }
}

/// Which proxy the profile client uses.
#[derive(Clone, Debug)]
pub enum ClientProxy {
    /// No proxy at all.
    Direct,
    /// Whatever the HTTP client finds in the environment.
    Environment,
    /// The address the user configured.
    Configured(String),
    /// The address Git is configured with, to be asked for.
    FromGit,
}

/// The proxy for the profile client: none when proxies are disabled, the
/// configured address when one is given, Git's `http.proxy` in system mode,
/// the environment otherwise.
pub fn client_proxy(mode: ProxyMode, address: &str) -> (r: ClientProxy)
    ensures
        mode == ProxyMode::Disabled ==> r is Direct,
        mode == ProxyMode::System ==> r is FromGit,
        mode == ProxyMode::Custom && trim(address@).len() > 0 ==> (r matches ClientProxy::Configured(
            a,
        ) && a@ == trim(address@)),
        mode == ProxyMode::Custom && trim(address@).len() == 0 ==> r is Environment,
{
    match mode {
        ProxyMode::Disabled => ClientProxy::Direct,
        ProxyMode::System => ClientProxy::FromGit,
        ProxyMode::Custom => {
            let t = trim_str(address);
            if t.as_str().is_empty() {
                ClientProxy::Environment
            } else {
                ClientProxy::Configured(t)
            }
        },
    }
}

/// The proxy address in what `git config --get http.proxy` returned, if it
/// names one.
pub fn git_proxy_address(output: Result<String, String>) -> (r: Option<String>)
    ensures
        match output {
            Ok(o) => if trim(o@).len() > 0 {
                r matches Some(a) && a@ == trim(o@)
            } else {
                r is None
            },
            Err(_) => r is None,
        },
{
    match output {
        Ok(o) => {
            let t = trim_str(o.as_str());
            if t.as_str().is_empty() {
                None
            } else {
                Some(t)
            }
        },
        Err(_) => None,
    }
}


/// What `reqwest::Proxy::all` says when it refuses `address` as a proxy (the
/// text of its error), or `None` when it accepts it.
pub uninterp spec fn proxy_rejection(address: Seq<char>) -> Option<Seq<char>>;

/// `reqwest::Proxy::all`, which reads `address` as the URL of a proxy for all
/// traffic (trying again with `http://` in front when the scheme seems to be
/// missing). Claimed: the result is `proxy_rejection` of the address, `None`
/// when the proxy is accepted and the error's text when it is refused; which
/// addresses are accepted is left to the name.
#[verifier::external_body]
fn check_proxy(address: &str) -> (r: Option<String>)
    ensures
        option_view(r) == proxy_rejection(address@),
{
    match reqwest::Proxy::all(address) {
        Ok(_) => None,
        Err(e) => Some(e.to_string()),
    }
}

/// The proxy address that `git config --get http.proxy` reported, trimmed,
/// when it names one.
pub open spec fn git_proxy(output: Result<String, String>) -> Option<Seq<char>> {
    match output {
        Ok(o) => if trim(o@).len() > 0 {
            Some(trim(o@))
        } else {
            None
        },
        Err(_) => None,
    }
}

/// The proxy that the profile client is built with, or the error that stops
/// building it: no proxy when proxies are disabled; the configured address
/// in custom mode, refused with "代理地址无效：" and the proxy error when
/// `reqwest` does not accept it; in system mode the address in
/// `git_output` (what `git config --get http.proxy` returned, read only in
/// that mode), refused with "Git 代理地址无效："; the environment's proxy
/// when no address is given.
pub fn profile_proxy(mode: ProxyMode, address: &str, git_output: Result<String, String>) -> (r: Result<ClientProxy, String>)
    ensures
        mode == ProxyMode::Disabled ==> r matches Ok(ClientProxy::Direct),
        mode == ProxyMode::Custom && trim(address@).len() == 0 ==> r matches Ok(ClientProxy::Environment),
        mode == ProxyMode::Custom && trim(address@).len() > 0 ==> match proxy_rejection(trim(address@)) {
            Some(e) => r matches Err(m) && m@ == "代理地址无效："@ + e,
            None => r matches Ok(ClientProxy::Configured(a)) && a@ == trim(address@),
        },
        mode == ProxyMode::System ==> match git_proxy(git_output) {
            None => r matches Ok(ClientProxy::Environment),
            Some(g) => match proxy_rejection(g) {
                Some(e) => r matches Err(m) && m@ == "Git 代理地址无效："@ + e,
                None => r matches Ok(ClientProxy::Configured(a)) && a@ == g,
            },
        },
{
    match client_proxy(mode, address) {
        ClientProxy::Configured(a) => match check_proxy(a.as_str()) {
            Some(e) => Err(String::from_str("代理地址无效：").concat(e.as_str())),
            None => Ok(ClientProxy::Configured(a)),
        },
        ClientProxy::FromGit => match git_proxy_address(git_output) {
            Some(a) => match check_proxy(a.as_str()) {
                Some(e) => Err(String::from_str("Git 代理地址无效：").concat(e.as_str())),
                None => Ok(ClientProxy::Configured(a)),
            },
            None => Ok(ClientProxy::Environment),
        },
        other => Ok(other),
    }
}

/// Whether an update endpoint may be used: an absolute HTTPS URL.
pub open spec fn endpoint_error(endpoint: Seq<char>) -> Option<Seq<char>> {
    match parsed_url(endpoint) {
        None => Some("更新服务地址无效"@),
        Some((scheme, _)) => if scheme != "https"@ {
            Some("更新服务必须使用 HTTPS"@)
        } else {
            None
        },
    }
}

/// Checks the update endpoint before an install: it must be an absolute
/// HTTPS URL.
pub fn check_install_endpoint(endpoint: &str) -> (r: Result<(), String>)
    ensures
        match endpoint_error(endpoint@) {
            Some(m) => r matches Err(e) && e@ == m,
            None => r is Ok,
        },
{
    match UrlParts::parse(endpoint) {
        None => Err(String::from_str("更新服务地址无效")),
        Some(parts) => {
            if parts.scheme != String::from_str("https") {
                Err(String::from_str("更新服务必须使用 HTTPS"))
            } else {
                Ok(())
            }
        },
    }
}

/// Checks the update endpoint before looking for an update: it must be
/// filled in and be an absolute HTTPS URL.
pub fn check_update_endpoint(endpoint: &str) -> (r: Result<(), String>)
    ensures
        trim(endpoint@).len() == 0 ==> (r matches Err(e) && e@ == "请先填写更新服务地址"@),
        trim(endpoint@).len() > 0 ==> match endpoint_error(endpoint@) {
            Some(m) => r matches Err(e) && e@ == m,
            None => r is Ok,
        },
{
    if is_blank(endpoint) {
        return Err(String::from_str("请先填写更新服务地址"));
    }
    check_install_endpoint(endpoint)
}

/// What looking for an application update found.
pub struct UpdateStatus {
    pub available: bool,
    pub version: Option<String>,
    pub message: String,
}

/// The answer to looking for an update: the newer version when there is
/// one.
pub fn update_status(version: Option<String>) -> (r: UpdateStatus)
    ensures
        match version {
            None => !r.available && r.version is None && r.message@ == "当前已是最新版本"@,
            Some(v) => r.available && option_view(r.version) == Some(v@) && r.message@
                == "发现新版本 "@ + v@,
        },
{
    match version {
        None => UpdateStatus {
            available: false,
            version: None,
            message: String::from_str("当前已是最新版本"),
        },
        Some(v) => {
            let message = String::from_str("发现新版本 ").concat(v.as_str());
            UpdateStatus { available: true, version: Some(v), message }
        },
    }
}

/// Whether there is an update to install; without one the install is
/// refused.
pub fn install_target(version: Option<String>) -> (r: Result<String, String>)
    ensures
        match version {
            None => r matches Err(e) && e@ == "当前已是最新版本"@,
            Some(v) => r matches Ok(w) && w@ == v@,
        },
{
    match version {
        None => Err(String::from_str("当前已是最新版本")),
        Some(v) => Ok(v),
    }
}

} // verus!
