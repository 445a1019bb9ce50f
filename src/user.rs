//! Users, plans and quotas, devices, sessions and local settings.

use vstd::prelude::*;
use vstd::string::*;

use crate::base::{new_id, now, Id, Identifiable, Temporal, Timestamp};

verus! {

/// Subscription plan of an account.
#[derive(Clone, Copy, Debug, PartialEq, Eq, Structural)]
pub enum UserPlan {
    Free,
    Pro,
    Team,
    Enterprise,
}

/// The lowercase form of a text, character by character as Unicode defines it.
pub uninterp spec fn lowercase_of(s: Seq<char>) -> Seq<char>;

/// Relies on `str::to_lowercase`: the Unicode lowercase form of the text,
/// which depends on the text alone.
#[verifier::external_body]
fn to_lowercase(s: &str) -> (r: String)
    ensures
        r@ == lowercase_of(s@),
{
    s.to_lowercase()
}

/// The plan whose lowercase name is exactly `t`.
pub open spec fn plan_named(t: Seq<char>) -> Option<UserPlan> {
    if t == "free"@ {
        Some(UserPlan::Free)
    } else if t == "pro"@ {
        Some(UserPlan::Pro)
    } else if t == "team"@ {
        Some(UserPlan::Team)
    } else if t == "enterprise"@ {
        Some(UserPlan::Enterprise)
    } else {
        None
    }
}

impl Default for UserPlan {
    fn default() -> (r: Self)
        ensures
            r == UserPlan::Free,
    {
        UserPlan::Free
    }
}

impl UserPlan {
    pub fn as_str(&self) -> (r: &'static str)
        ensures
            r@ == match *self {
                UserPlan::Free => "free"@,
                UserPlan::Pro => "pro"@,
                UserPlan::Team => "team"@,
                UserPlan::Enterprise => "enterprise"@,
            },
    {
        match self {
            UserPlan::Free => "free",
            UserPlan::Pro => "pro",
            UserPlan::Team => "team",
            UserPlan::Enterprise => "enterprise",
        }
    }

    /// The plan named exactly `t` (already in lowercase).
    pub fn from_lowercase(t: &str) -> (r: Option<Self>)
        ensures
            r == plan_named(t@),
    {
        let s = String::from_str(t);
        if s == String::from_str("free") {
            Some(UserPlan::Free)
        } else if s == String::from_str("pro") {
            Some(UserPlan::Pro)
        } else if s == String::from_str("team") {
            Some(UserPlan::Team)
        } else if s == String::from_str("enterprise") {
            Some(UserPlan::Enterprise)
        } else {
            None
        }
    }

    /// The plan named `s`, in any case.
    pub fn from_str(s: &str) -> (r: Option<Self>)
        ensures
            r == plan_named(lowercase_of(s@)),
    {
        let lower = to_lowercase(s);
        Self::from_lowercase(lower.as_str())
    }
}

/// Limits and usage of an account.
#[derive(Clone, Debug, PartialEq, Eq, Structural)]
pub struct UserQuota {
    pub max_collections: u32,
    pub max_requests_per_collection: u32,
    pub max_storage_mb: u32,
    /// Collaborators per shared collection.
    pub max_collaborators: u32,
    pub collections_count: u32,
    pub storage_used_mb: u32,
}

/// The limits of a plan, with no usage yet.
pub open spec fn plan_quota(plan: UserPlan) -> UserQuota {
    let (c, r, s, k) = match plan {
        UserPlan::Free => (10u32, 100u32, 100u32, 0u32),
        UserPlan::Pro => (100u32, 1000u32, 1000u32, 5u32),
        UserPlan::Team => (1000u32, 10000u32, 10000u32, 50u32),
        UserPlan::Enterprise => (u32::MAX, u32::MAX, u32::MAX, u32::MAX),
    };
    UserQuota {
        max_collections: c,
        max_requests_per_collection: r,
        max_storage_mb: s,
        max_collaborators: k,
        collections_count: 0,
        storage_used_mb: 0,
    }
}

impl Default for UserQuota {
    fn default() -> (r: Self)
        ensures
            r == plan_quota(UserPlan::Free),
    {
        Self::free()
    }
}

impl UserQuota {
    pub fn free() -> (r: Self)
        ensures
            r == plan_quota(UserPlan::Free),
    {
        UserQuota {
            max_collections: 10,
            max_requests_per_collection: 100,
            max_storage_mb: 100,
            max_collaborators: 0,
            collections_count: 0,
            storage_used_mb: 0,
        }
    }

    pub fn pro() -> (r: Self)
        ensures
            r == plan_quota(UserPlan::Pro),
    {
        UserQuota {
            max_collections: 100,
            max_requests_per_collection: 1000,
            max_storage_mb: 1000,
            max_collaborators: 5,
            collections_count: 0,
            storage_used_mb: 0,
        }
    }

    pub fn team() -> (r: Self)
        ensures
            r == plan_quota(UserPlan::Team),
    {
        UserQuota {
            max_collections: 1000,
            max_requests_per_collection: 10000,
            max_storage_mb: 10000,
            max_collaborators: 50,
            collections_count: 0,
            storage_used_mb: 0,
        }
    }

    pub fn enterprise() -> (r: Self)
        ensures
            r == plan_quota(UserPlan::Enterprise),
    {
        UserQuota {
            max_collections: u32::MAX,
            max_requests_per_collection: u32::MAX,
            max_storage_mb: u32::MAX,
            max_collaborators: u32::MAX,
            collections_count: 0,
            storage_used_mb: 0,
        }
    }

    pub fn for_plan(plan: UserPlan) -> (r: Self)
        ensures
            r == plan_quota(plan),
    {
        match plan {
            UserPlan::Free => Self::free(),
            UserPlan::Pro => Self::pro(),
            UserPlan::Team => Self::team(),
            UserPlan::Enterprise => Self::enterprise(),
        }
    }
}

/// An account.
#[derive(Clone, Debug, PartialEq, Eq)]
pub struct User {
    pub id: Id,
    pub email: String,
    pub name: String,
    pub avatar_url: Option<String>,
    pub bio: Option<String>,
    /// Whether the email address has been verified.
    pub is_verified: bool,
    pub is_active: bool,
    pub plan: UserPlan,
    pub quota: UserQuota,
    pub created_at: Timestamp,
    pub updated_at: Timestamp,
    pub last_login_at: Option<Timestamp>,
}

impl User {
    /// A new active, unverified account on the free plan, just logged in.
    pub fn new(email: String, name: String) -> (r: Self)
        ensures
            r.email == email,
            r.name == name,
            r.avatar_url is None,
            r.bio is None,
            !r.is_verified,
            r.is_active,
            r.plan == UserPlan::Free,
            r.quota == plan_quota(UserPlan::Free),
            r.created_at == r.updated_at,
            r.last_login_at == Some(r.created_at),
    {
        let t = now();
        User {
            id: new_id(),
            email,
            name,
            avatar_url: None,
            bio: None,
            is_verified: false,
            is_active: true,
            plan: UserPlan::Free,
            quota: UserQuota::default(),
            created_at: t,
            updated_at: t,
            last_login_at: Some(t),
        }
    }

    pub fn with_avatar(self, avatar_url: String) -> (r: Self)
        ensures
            r == (User { avatar_url: Some(avatar_url), ..self }),
    {
        let mut u = self;
        u.avatar_url = Some(avatar_url);
        u
    }

    pub fn with_bio(self, bio: String) -> (r: Self)
        ensures
            r == (User { bio: Some(bio), ..self }),
    {
        let mut u = self;
        u.bio = Some(bio);
        u
    }

    /// Whether one more collection fits the quota.
    pub fn can_create_collection(&self, current_count: usize) -> (r: bool)
        ensures
            r == (current_count < self.quota.max_collections),
    {
        current_count < self.quota.max_collections as usize
    }

    /// Whether one more request fits in a collection.
    pub fn can_add_requests(&self, current_count: usize) -> (r: bool)
        ensures
            r == (current_count < self.quota.max_requests_per_collection),
    {
        current_count < self.quota.max_requests_per_collection as usize
    }
}

impl Temporal for User {
    fn created_at(&self) -> Timestamp {
        self.created_at
    }

    fn updated_at(&self) -> Timestamp {
        self.updated_at
    }
}

impl Identifiable for User {
    fn id(&self) -> Id {
        self.id
    }
}

/// Kind of device.
#[derive(Clone, Copy, Debug, PartialEq, Eq, Structural)]
pub enum DeviceType {
    Desktop,
    Mobile,
    Web,
    Cli,
}

impl DeviceType {
    pub fn as_str(&self) -> (r: &'static str)
        ensures
            r@ == match *self {
                DeviceType::Desktop => "desktop"@,
                DeviceType::Mobile => "mobile"@,
                DeviceType::Web => "web"@,
                DeviceType::Cli => "cli"@,
            },
    {
        match self {
            DeviceType::Desktop => "desktop",
            DeviceType::Mobile => "mobile",
            DeviceType::Web => "web",
            DeviceType::Cli => "cli",
        }
    }
}

/// A device of a user.
#[derive(Clone, Debug, PartialEq, Eq)]
pub struct Device {
    pub id: Id,
    pub user_id: Id,
    pub name: String,
    pub device_type: DeviceType,
    pub os_info: Option<String>,
    pub last_seen: Timestamp,
    pub is_online: bool,
    pub created_at: Timestamp,
}

impl Device {
    pub fn new(user_id: Id, name: String, device_type: DeviceType) -> (r: Self)
        ensures
            r.user_id == user_id,
            r.name == name,
            r.device_type == device_type,
            r.os_info is None,
            !r.is_online,
            r.last_seen == r.created_at,
    {
        let t = now();
        Device {
            id: new_id(),
            user_id,
            name,
            device_type,
            os_info: None,
            last_seen: t,
            is_online: false,
            created_at: t,
        }
    }

    pub fn with_os_info(self, os_info: String) -> (r: Self)
        ensures
            r == (Device { os_info: Some(os_info), ..self }),
    {
        let mut d = self;
        d.os_info = Some(os_info);
        d
    }
}

impl Identifiable for Device {
    fn id(&self) -> Id {
        self.id
    }
}

/// Thirty days, in milliseconds.
pub const SESSION_LIFETIME_MS: i64 = 2592000000;

/// A login session.
#[derive(Clone, Debug, PartialEq, Eq)]
pub struct Session {
    pub id: Id,
    pub user_id: Id,
    pub device_id: Option<Id>,
    pub access_token: Option<String>,
    pub refresh_token: Option<String>,
    pub expires_at: Timestamp,
    pub created_at: Timestamp,
    pub last_used_at: Timestamp,
}

impl Session {
    /// A session that expires thirty days after its creation (or at the latest
    /// representable time, if that comes first).
    pub fn new(user_id: Id) -> (r: Self)
        ensures
            r.user_id == user_id,
            r.device_id is None,
            r.access_token is None,
            r.refresh_token is None,
            r.expires_at == if r.created_at <= i64::MAX - SESSION_LIFETIME_MS {
                r.created_at + SESSION_LIFETIME_MS
            } else {
                i64::MAX as int
            },
            r.last_used_at == r.created_at,
    {
        let t = now();
        let expires_at = if t <= i64::MAX - SESSION_LIFETIME_MS {
            t + SESSION_LIFETIME_MS
        } else {
            i64::MAX
        };
        Session {
            id: new_id(),
            user_id,
            device_id: None,
            access_token: None,
            refresh_token: None,
            expires_at,
            created_at: t,
            last_used_at: t,
        }
    }

    pub fn with_device(self, device_id: Id) -> (r: Self)
        ensures
            r == (Session { device_id: Some(device_id), ..self }),
    {
        let mut s = self;
        s.device_id = Some(device_id);
        s
    }

    pub fn with_tokens(self, access_token: String, refresh_token: String) -> (r: Self)
        ensures
            r == (Session {
                access_token: Some(access_token),
                refresh_token: Some(refresh_token),
                ..self
            }),
    {
        let mut s = self;
        s.access_token = Some(access_token);
        s.refresh_token = Some(refresh_token);
        s
    }

    /// Whether the session has expired at time `t`.
    pub fn is_expired_at(&self, t: Timestamp) -> (r: bool)
        ensures
            r == (t > self.expires_at),
    {
        t > self.expires_at
    }

    /// Whether the session has expired now.
    pub fn is_expired(&self) -> bool {
        self.is_expired_at(now())
    }

    /// Whether the session has not expired now.
    pub fn is_valid(&self) -> bool {
        !self.is_expired()
    }
}

impl Identifiable for Session {
    fn id(&self) -> Id {
        self.id
    }
}

/// Interface theme.
#[derive(Clone, Copy, Debug, PartialEq, Eq, Structural)]
pub enum Theme {
    Light,
    Dark,
    System,
}

/// Editor preferences.
#[derive(Clone, Debug, PartialEq, Eq)]
pub struct EditorSettings {
    pub font_size: u32,
    pub font_family: String,
    pub tab_size: u32,
    pub insert_final_newline: bool,
    pub trim_trailing_whitespace: bool,
    pub word_wrap: bool,
    pub line_numbers: bool,
    pub minimap: bool,
    pub format_on_paste: bool,
}

impl Default for EditorSettings {
    fn default() -> (r: Self)
        ensures
            r.font_size == 14,
            r.font_family@ == "Monaco, Menlo, monospace"@,
            r.tab_size == 4,
            r.insert_final_newline,
            r.trim_trailing_whitespace,
            !r.word_wrap,
            r.line_numbers,
            r.minimap,
            r.format_on_paste,
    {
        EditorSettings {
            font_size: 14,
            font_family: String::from_str("Monaco, Menlo, monospace"),
            tab_size: 4,
            insert_final_newline: true,
            trim_trailing_whitespace: true,
            word_wrap: false,
            line_numbers: true,
            minimap: true,
            format_on_paste: true,
        }
    }
}

#[derive(Clone, Copy, Debug, PartialEq, Eq, Structural)]
pub enum ProxyProtocol {
    Http,
    Https,
    Socks5,
}

#[derive(Clone, Debug, PartialEq, Eq)]
pub struct ProxyAuth {
    pub username: String,
    pub password: String,
}

/// Proxy preferences.
#[derive(Clone, Debug, PartialEq, Eq)]
pub struct ProxySettings {
    pub enabled: bool,
    pub protocol: ProxyProtocol,
    pub host: String,
    pub port: u16,
    pub auth: Option<ProxyAuth>,
}

/// Synchronization mode, as the settings record it.
#[derive(Clone, Copy, Debug, PartialEq, Eq, Structural)]
pub enum SyncMode {
    Offline,
    OnlineAuto,
    OnlineManual,
    Hybrid,
}

/// Conflict strategy, as the settings record it.
#[derive(Clone, Copy, Debug, PartialEq, Eq, Structural)]
pub enum ConflictStrategy {
    LocalWins,
    RemoteWins,
    LastWriteWins,
    Manual,
}

/// A configured cloud server.
#[derive(Clone, Debug, PartialEq, Eq)]
pub struct CloudServerConfig {
    pub server_url: String,
    pub api_key: Option<String>,
    pub organization_id: Option<String>,
}

/// Cloud sync preferences.
#[derive(Clone, Debug, PartialEq, Eq)]
pub struct CloudSyncSettings {
    pub mode: SyncMode,
    pub auto_sync_interval_secs: u32,
    pub conflict_strategy: ConflictStrategy,
    pub server_config: Option<CloudServerConfig>,
    pub last_sync_at: Option<Timestamp>,
    pub pending_changes: u32,
}

impl Default for CloudSyncSettings {
    fn default() -> (r: Self)
        ensures
            r.mode == SyncMode::Offline,
            r.auto_sync_interval_secs == 300,
            r.conflict_strategy == ConflictStrategy::LastWriteWins,
            r.server_config is None,
            r.last_sync_at is None,
            r.pending_changes == 0,
    {
        CloudSyncSettings {
            mode: SyncMode::Offline,
            auto_sync_interval_secs: 300,
            conflict_strategy: ConflictStrategy::LastWriteWins,
            server_config: None,
            last_sync_at: None,
            pending_changes: 0,
        }
    }
}

/// Preferences kept on this machine.
#[derive(Clone, Debug, PartialEq, Eq)]
pub struct UserSettings {
    pub theme: Theme,
    pub language: String,
    pub auto_save: bool,
    pub send_anonymous_usage_data: bool,
    pub check_updates: bool,
    pub default_request_timeout_secs: u32,
    pub follow_redirects: bool,
    pub validate_ssl: bool,
    pub editor: EditorSettings,
    pub proxy: Option<ProxySettings>,
    pub cloud_sync: CloudSyncSettings,
}

impl Default for UserSettings {
    fn default() -> (r: Self)
        ensures
            r.theme == Theme::System,
            r.language@ == "en"@,
            r.auto_save,
            !r.send_anonymous_usage_data,
            r.check_updates,
            r.default_request_timeout_secs == 30,
            r.follow_redirects,
            r.validate_ssl,
            r.proxy is None,
            r.cloud_sync.mode == SyncMode::Offline,
    {
        UserSettings {
            theme: Theme::System,
            language: String::from_str("en"),
            auto_save: true,
            send_anonymous_usage_data: false,
            check_updates: true,
            default_request_timeout_secs: 30,
            follow_redirects: true,
            validate_ssl: true,
            editor: EditorSettings::default(),
            proxy: None,
            cloud_sync: CloudSyncSettings::default(),
        }
    }
}

} // verus!
