//! The values that the application keeps, shows and exchanges: registered
//! repositories, settings, and the results of Git work.
use vstd::prelude::*;

verus! {

/// Where the release manifest for application updates is fetched from.
pub const DEFAULT_UPDATE_ENDPOINT: &'static str =
    "https://github.com/sleep-into-a-coma/Git-Myself-Pull/releases/latest/download/latest.json";

/// A point in time: whole seconds since the Unix epoch and the nanoseconds
/// within that second.
#[derive(Clone, Copy, Debug, PartialEq, Eq, Structural)]
pub struct Timestamp {
    pub seconds: i64,
    pub nanos: u32,
}

impl Timestamp {
    /// The instant in nanoseconds since the epoch.
    pub open spec fn total_nanos(self) -> int {
        self.seconds * 1_000_000_000 + self.nanos
    }

    pub open spec fn valid(self) -> bool {
        self.nanos < 1_000_000_000
    }
}

/// A repository that the application keeps in step with its remote.
#[derive(Clone, Debug)]
pub struct Repository {
    pub id: String,
    pub name: String,
    pub url: String,
    pub local_path: String,
    pub branch: String,
    pub auto_pull: bool,
    pub interval_minutes: u32,
    pub last_attempt: Option<Timestamp>,
    pub last_success: Option<Timestamp>,
    pub last_status: String,
    pub is_running: bool,
}

/// How Git and HTTP traffic reaches the network.
#[derive(Clone, Copy, Debug, PartialEq, Eq, Structural)]
pub enum ProxyMode {
    System,
    Disabled,
    Custom,
}

/// What closing the main window does.
#[derive(Clone, Copy, Debug, PartialEq, Eq, Structural)]
pub enum CloseBehavior {
    Background,
    Exit,
}

#[derive(Clone, Copy, Debug, PartialEq, Eq, Structural)]
pub enum ThemeMode {
    System,
    Light,
    Dark,
}

#[derive(Clone, Copy, Debug, PartialEq, Eq, Structural)]
pub enum MotionPreference {
    System,
    Reduce,
    Full,
}

/// Everything the user can configure.
#[derive(Clone, Debug)]
pub struct Settings {
    pub repositories: Vec<Repository>,
    pub start_with_windows: bool,
    pub close_behavior: CloseBehavior,
    pub proxy_mode: ProxyMode,
    pub proxy_address: String,
    pub auto_maintain_logs: bool,
    pub max_log_size_mb: u32,
    pub auto_check_updates: bool,
    pub update_endpoint: String,
    pub theme_mode: ThemeMode,
    pub accent_color: String,
    pub light_background: String,
    pub light_foreground: String,
    pub dark_background: String,
    pub dark_foreground: String,
    pub ui_font: String,
    pub code_font: String,
    pub translucent_sidebar: bool,
    pub contrast: u8,
    pub pointer_cursor: bool,
    pub motion_preference: MotionPreference,
    pub ui_font_size: u8,
    pub code_font_size: u8,
}

/// What the user interface is shown.
#[derive(Clone, Debug)]
pub struct AppState {
    pub version: String,
    pub settings: Settings,
    pub logs: Vec<String>,
}

/// The outcome of a sync or a registration.
#[derive(Debug)]
pub struct GitResult {
    pub success: bool,
    pub message: String,
    pub details: String,
}

/// What a local directory is, as far as syncing is concerned.
#[derive(Clone, Copy, Debug, PartialEq, Eq, Structural)]
pub enum RepositoryPathKind {
    Missing,
    Empty,
    Git,
    NonGit,
    NestedGit,
    Invalid,
}

#[derive(Clone, Debug)]
pub struct RepositoryPathStatus {
    pub kind: RepositoryPathKind,
    pub message: String,
}

/// Whether Git and its credential manager are installed, and which GitHub
/// accounts the credential manager holds.
#[derive(Clone, Debug)]
pub struct GitAuthStatus {
    pub git_available: bool,
    pub git_version: String,
    pub credential_manager_available: bool,
    pub credential_manager_version: String,
    pub credential_helper: String,
    pub accounts: Vec<GitAccountProfile>,
}

/// A GitHub account with the public profile shown beside it.
#[derive(Clone, Debug)]
pub struct GitAccountProfile {
    pub login: String,
    pub name: Option<String>,
    pub bio: Option<String>,
    pub company: Option<String>,
    pub location: Option<String>,
    pub public_repos: u32,
    pub followers: u32,
    pub avatar_data: Option<String>,
    pub profile_error: Option<String>,
}

impl Repository {
    /// A copy of this repository with equal fields.
    pub fn duplicate(&self) -> (r: Repository)
        ensures
            r == *self,
    {
        Repository {
            id: self.id.clone(),
            name: self.name.clone(),
            url: self.url.clone(),
            local_path: self.local_path.clone(),
            branch: self.branch.clone(),
            auto_pull: self.auto_pull,
            interval_minutes: self.interval_minutes,
            last_attempt: self.last_attempt,
            last_success: self.last_success,
            last_status: self.last_status.clone(),
            is_running: self.is_running,
        }
    }
}

pub fn default_interval() -> (r: u32)
    ensures
        r == 30,
{
    30
}

pub open spec fn default_status_text() -> Seq<char> {
    "尚未更新"@
}

pub fn default_status() -> (r: String)
    ensures
        r@ == default_status_text(),
{
    String::from_str("尚未更新")
}

impl Default for Repository {
    fn default() -> (r: Repository)
        ensures
            r.id@.len() == 0,
            r.name@.len() == 0,
            r.url@.len() == 0,
            r.local_path@.len() == 0,
            r.branch@.len() == 0,
            !r.auto_pull,
            r.interval_minutes == 30,
            r.last_attempt is None,
            r.last_success is None,
            r.last_status@ == default_status_text(),
            !r.is_running,
    {
        Repository {
            id: String::new(),
            name: String::new(),
            url: String::new(),
            local_path: String::new(),
            branch: String::new(),
            auto_pull: false,
            interval_minutes: default_interval(),
            last_attempt: None,
            last_success: None,
            last_status: default_status(),
            is_running: false,
        }
    }
}

impl Default for ProxyMode {
    fn default() -> (r: ProxyMode)
        ensures
            r == ProxyMode::System,
    {
        ProxyMode::System
    }
}

impl Default for CloseBehavior {
    fn default() -> (r: CloseBehavior)
        ensures
            r == CloseBehavior::Background,
    {
        CloseBehavior::Background
    }
}

impl Default for ThemeMode {
    fn default() -> (r: ThemeMode)
        ensures
            r == ThemeMode::System,
    {
        ThemeMode::System
    }
}

impl Default for MotionPreference {
    fn default() -> (r: MotionPreference)
        ensures
            r == MotionPreference::System,
    {
        MotionPreference::System
    }
}

pub fn yes() -> (r: bool)
    ensures
        r,
{
    true
}

pub fn default_log_size() -> (r: u32)
    ensures
        r == 5,
{
    5
}

pub fn default_update_endpoint() -> (r: String)
    ensures
        r@ == DEFAULT_UPDATE_ENDPOINT@,
{
    String::from_str(DEFAULT_UPDATE_ENDPOINT)
}

pub fn default_accent_color() -> (r: String)
    ensures
        r@ == "#0169cc"@,
{
    String::from_str("#0169cc")
}

pub fn default_light_background() -> (r: String)
    ensures
        r@ == "#ffffff"@,
{
    String::from_str("#ffffff")
}

pub fn default_light_foreground() -> (r: String)
    ensures
        r@ == "#0d0d0d"@,
{
    String::from_str("#0d0d0d")
}

pub fn default_dark_background() -> (r: String)
    ensures
        r@ == "#202223"@,
{
    String::from_str("#202223")
}

pub fn default_dark_foreground() -> (r: String)
    ensures
        r@ == "#f4f4f4"@,
{
    String::from_str("#f4f4f4")
}

pub fn default_ui_font() -> (r: String)
    ensures
        r@ == "'Segoe UI Variable', 'Microsoft YaHei UI', 'Segoe UI', sans-serif"@,
{
    String::from_str("'Segoe UI Variable', 'Microsoft YaHei UI', 'Segoe UI', sans-serif")
}

pub fn default_code_font() -> (r: String)
    ensures
        r@ == "'Cascadia Mono', Consolas, monospace"@,
{
    String::from_str("'Cascadia Mono', Consolas, monospace")
}

pub fn default_contrast() -> (r: u8)
    ensures
        r == 45,
{
    45
}

pub fn default_ui_font_size() -> (r: u8)
    ensures
        r == 14,
{
    14
}

pub fn default_code_font_size() -> (r: u8)
    ensures
        r == 12,
{
    12
}

/// The default look: system theme, default colours and fonts, translucent
/// sidebar, contrast 45, arrow cursor, system motion, font sizes 14 and 12.
pub open spec fn has_default_appearance(s: Settings) -> bool {
    &&& s.theme_mode == ThemeMode::System
    &&& s.accent_color@ == "#0169cc"@
    &&& s.light_background@ == "#ffffff"@
    &&& s.light_foreground@ == "#0d0d0d"@
    &&& s.dark_background@ == "#202223"@
    &&& s.dark_foreground@ == "#f4f4f4"@
    &&& s.ui_font@ == "'Segoe UI Variable', 'Microsoft YaHei UI', 'Segoe UI', sans-serif"@
    &&& s.code_font@ == "'Cascadia Mono', Consolas, monospace"@
    &&& s.translucent_sidebar
    &&& s.contrast == 45
    &&& !s.pointer_cursor
    &&& s.motion_preference == MotionPreference::System
    &&& s.ui_font_size == 14
    &&& s.code_font_size == 12
}

/// The settings of a first start: no repositories, the default look, the
/// system proxy, log maintenance and update checks on.
pub open spec fn is_default_settings(s: Settings) -> bool {
    &&& s.repositories@.len() == 0
    &&& !s.start_with_windows
    &&& s.close_behavior == CloseBehavior::Background
    &&& s.proxy_mode == ProxyMode::System
    &&& s.proxy_address@.len() == 0
    &&& s.auto_maintain_logs
    &&& s.max_log_size_mb == 5
    &&& s.auto_check_updates
    &&& s.update_endpoint@ == DEFAULT_UPDATE_ENDPOINT@
    &&& has_default_appearance(s)
}

impl Default for Settings {
    fn default() -> (r: Settings)
        ensures
            is_default_settings(r),
    {
        Settings {
            repositories: Vec::new(),
            start_with_windows: false,
            close_behavior: CloseBehavior::Background,
            proxy_mode: ProxyMode::System,
            proxy_address: String::new(),
            auto_maintain_logs: yes(),
            max_log_size_mb: default_log_size(),
            auto_check_updates: yes(),
            update_endpoint: default_update_endpoint(),
            theme_mode: ThemeMode::System,
            accent_color: default_accent_color(),
            light_background: default_light_background(),
            light_foreground: default_light_foreground(),
            dark_background: default_dark_background(),
            dark_foreground: default_dark_foreground(),
            ui_font: default_ui_font(),
            code_font: default_code_font(),
            translucent_sidebar: yes(),
            contrast: default_contrast(),
            pointer_cursor: false,
            motion_preference: MotionPreference::System,
            ui_font_size: default_ui_font_size(),
            code_font_size: default_code_font_size(),
        }
    }
}

} // verus!
