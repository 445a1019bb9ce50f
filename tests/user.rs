use postboy_sync::base::{new_id, now};
use postboy_sync::user::{
    CloudSyncSettings, Device, DeviceType, Session, SyncMode, Theme, User, UserPlan, UserQuota,
    UserSettings,
};

#[test]
fn test_user_creation() {
    let user = User::new("user@example.com".to_string(), "John Doe".to_string());
    assert_eq!(user.email, "user@example.com");
    assert_eq!(user.name, "John Doe");
    assert_eq!(user.plan, UserPlan::Free);
    assert!(user.is_active);
}

#[test]
fn test_user_quota_default() {
    let quota = UserQuota::default();
    assert_eq!(quota.max_collections, 10);
    assert_eq!(quota.max_requests_per_collection, 100);
}

#[test]
fn test_user_quota_for_plan() {
    let free_quota = UserQuota::for_plan(UserPlan::Free);
    assert_eq!(free_quota.max_collections, 10);
    let pro_quota = UserQuota::for_plan(UserPlan::Pro);
    assert_eq!(pro_quota.max_collections, 100);
    let enterprise_quota = UserQuota::for_plan(UserPlan::Enterprise);
    assert_eq!(enterprise_quota.max_collections, u32::MAX);
}

#[test]
fn test_can_create_collection() {
    let user = User::new("test@example.com".to_string(), "Test".to_string());
    assert!(user.can_create_collection(0));
    assert!(user.can_create_collection(9));
    assert!(!user.can_create_collection(10));
}

#[test]
fn test_session_expiration() {
    let mut session = Session::new(new_id());
    assert!(session.is_valid());
    assert!(!session.is_expired());
    session.expires_at = now() - 1000;
    assert!(!session.is_valid());
    assert!(session.is_expired());
}

#[test]
fn test_device_creation() {
    let device = Device::new(new_id(), "MacBook Pro".to_string(), DeviceType::Desktop);
    assert_eq!(device.name, "MacBook Pro");
    assert_eq!(device.device_type, DeviceType::Desktop);
}

#[test]
fn test_sync_mode_default() {
    let settings = CloudSyncSettings::default();
    assert_eq!(settings.mode, SyncMode::Offline);
    assert!(settings.server_config.is_none());
}

#[test]
fn test_user_settings_default() {
    let settings = UserSettings::default();
    assert_eq!(settings.theme, Theme::System);
    assert_eq!(settings.language, "en");
    assert!(settings.auto_save);
    assert!(settings.validate_ssl);
}

#[test]
fn plan_names_round_trip_in_any_case() {
    for plan in [UserPlan::Free, UserPlan::Pro, UserPlan::Team, UserPlan::Enterprise] {
        assert_eq!(UserPlan::from_str(plan.as_str()), Some(plan));
    }
    assert_eq!(UserPlan::from_str("PRO"), Some(UserPlan::Pro));
    assert_eq!(UserPlan::from_str("Enterprise"), Some(UserPlan::Enterprise));
    assert_eq!(UserPlan::from_str("gold"), None);
    assert_eq!(UserPlan::from_lowercase("TEAM"), None);
    assert_eq!(UserPlan::from_lowercase("team"), Some(UserPlan::Team));
}

#[test]
fn quotas_of_each_plan() {
    let team = UserQuota::team();
    assert_eq!(team.max_requests_per_collection, 10000);
    assert_eq!(team.max_collaborators, 50);
    assert_eq!(UserQuota::pro().max_storage_mb, 1000);
    assert_eq!(UserQuota::free().max_collaborators, 0);
    assert_eq!(UserQuota::enterprise().max_collaborators, u32::MAX);
    let user = User::new("a@b.c".to_string(), "A".to_string());
    assert!(user.can_add_requests(99));
    assert!(!user.can_add_requests(100));
}

#[test]
fn session_lasts_thirty_days_and_builders() {
    let device = new_id();
    let session = Session::new(new_id())
        .with_device(device)
        .with_tokens("a".to_string(), "r".to_string());
    assert_eq!(session.expires_at - session.created_at, 30 * 24 * 60 * 60 * 1000);
    assert_eq!(session.device_id, Some(device));
    assert_eq!(session.access_token, Some("a".to_string()));
    assert!(!session.is_expired_at(session.expires_at));
    assert!(session.is_expired_at(session.expires_at + 1));
}

#[test]
fn user_builders_and_device_names() {
    let user = User::new("a@b.c".to_string(), "A".to_string())
        .with_avatar("x.png".to_string())
        .with_bio("hi".to_string());
    assert_eq!(user.avatar_url, Some("x.png".to_string()));
    assert_eq!(user.bio, Some("hi".to_string()));
    assert_eq!(user.last_login_at, Some(user.created_at));
    assert_eq!(DeviceType::Cli.as_str(), "cli");
    let d = Device::new(new_id(), "p".to_string(), DeviceType::Mobile).with_os_info("ios".to_string());
    assert_eq!(d.os_info, Some("ios".to_string()));
    assert_eq!(UserSettings::default().editor.font_size, 14);
    assert_eq!(UserSettings::default().editor.font_family, "Monaco, Menlo, monospace");
}
