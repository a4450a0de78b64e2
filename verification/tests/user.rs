use warp_local::auth::installation_id::InstallationId;
use warp_local::auth::user::{PrincipalType, User};
use warp_local::auth::user_uid::UserUid;

#[test]
fn test_user_global_skills_defaults_to_empty() {
    assert_eq!(User::test().global_skills, Vec::<String>::new());
}

#[test]
fn test_local_installation_user_is_not_remote_or_anonymous() {
    let installation_id = uuid::Uuid::parse_str("11111111-2222-3333-4444-555555555555")
        .expect("valid uuid");

    let user = User::local_installation(InstallationId::from_bytes(*installation_id.as_bytes()));

    assert_eq!(
        user.local_id.as_str(),
        "local-installation-11111111-2222-3333-4444-555555555555"
    );
    assert_eq!(user.metadata.email, "local@warp.local");
    assert_eq!(user.metadata.display_name.as_deref(), Some("Local User"));
    assert_eq!(user.metadata.photo_url, None);
    assert!(user.is_onboarded);
    assert!(!user.needs_sso_link);
    assert_eq!(user.anonymous_user_type, None);
    assert!(!user.is_user_anonymous());
    assert!(!user.is_on_work_domain);
    assert_eq!(user.linked_at, None);
    assert!(user.personal_object_limits.is_none());
    assert_eq!(user.principal_type, PrincipalType::User);
    assert!(user.global_skills.is_empty());
}

#[test]
fn local_installation_uid_uses_lower_case_hex() {
    let bytes = [
        0x67, 0xe5, 0x50, 0x44, 0x10, 0xb1, 0x42, 0x6f, 0x92, 0x47, 0xbb, 0x68, 0x0e, 0x5f, 0xe0, 0xc8,
    ];
    let id = InstallationId::from_bytes(bytes);
    assert_eq!(id.hyphenated(), "67e55044-10b1-426f-9247-bb680e5fe0c8");
    assert_eq!(id.as_bytes(), bytes);
    let user = User::local_installation(id);
    assert_eq!(
        user.local_id.as_str(),
        "local-installation-67e55044-10b1-426f-9247-bb680e5fe0c8"
    );
}

#[test]
fn distinct_installations_have_distinct_uids() {
    let a = User::local_installation(InstallationId::from_bytes([0u8; 16]));
    let mut bytes = [0u8; 16];
    bytes[15] = 1;
    let b = User::local_installation(InstallationId::from_bytes(bytes));
    assert_ne!(a.local_id.as_str(), b.local_id.as_str());
    assert_eq!(
        a.local_id.as_str(),
        "local-installation-00000000-0000-0000-0000-000000000000"
    );
}

#[test]
fn test_user_is_onboarded_and_not_anonymous() {
    let user = User::test();
    assert!(user.is_onboarded);
    assert!(!user.is_user_anonymous());
    assert_eq!(user.local_id.as_str(), "test_user_uid");
    assert_eq!(user.metadata.email, "test_user@warp.dev");
    assert_eq!(user.metadata.display_name.as_deref(), Some("Test User"));
    assert_eq!(user.principal_type, PrincipalType::User);
}

#[test]
fn anonymous_user_is_reported_anonymous() {
    let mut user = User::test();
    user.anonymous_user_type =
        Some(warp_local::auth::user::AnonymousUserType::NativeClientAnonymousUser);
    assert!(user.is_user_anonymous());
}

#[test]
fn user_uid_keeps_its_text() {
    assert_eq!(UserUid::new("test_local_id").as_str(), "test_local_id");
}
