use warp_local::ai::api_keys::{api_keys_with_warp_credit_fallback_setting, ApiKeys, AwsCredentials};

#[test]
fn api_keys_with_warp_credit_fallback_setting_returns_none_without_keys_or_fallback() {
    let api_keys = api_keys_with_warp_credit_fallback_setting(None, false);

    assert!(api_keys.is_none());
}

#[test]
fn api_keys_with_warp_credit_fallback_setting_creates_fallback_only_api_keys() {
    let api_keys = api_keys_with_warp_credit_fallback_setting(None, true)
        .expect("fallback setting should create ApiKeys");

    assert!(api_keys.allow_use_of_warp_credits);
    assert!(api_keys.anthropic.is_empty());
    assert!(api_keys.openai.is_empty());
    assert!(api_keys.google.is_empty());
    assert!(api_keys.open_router.is_empty());
    assert!(api_keys.aws_credentials.is_none());
}

#[test]
fn api_keys_with_warp_credit_fallback_setting_preserves_existing_keys() {
    let api_keys = api_keys_with_warp_credit_fallback_setting(
        Some(ApiKeys {
            anthropic: "anthropic-key".to_string(),
            openai: String::new(),
            google: String::new(),
            open_router: String::new(),
            allow_use_of_warp_credits: false,
            aws_credentials: None,
        }),
        true,
    )
    .expect("existing ApiKeys should be preserved");

    assert_eq!(api_keys.anthropic, "anthropic-key");
    assert!(api_keys.allow_use_of_warp_credits);
}

fn all_keys(allow: bool) -> ApiKeys {
    ApiKeys {
        anthropic: "a-key".to_string(),
        openai: "o-key".to_string(),
        google: "g-key".to_string(),
        open_router: "r-key".to_string(),
        allow_use_of_warp_credits: allow,
        aws_credentials: Some(AwsCredentials {
            access_key_id: "AKID".to_string(),
            secret_access_key: "secret".to_string(),
            session_token: "token".to_string(),
        }),
    }
}

#[test]
fn existing_keys_take_a_disallowing_setting() {
    let api_keys = api_keys_with_warp_credit_fallback_setting(Some(all_keys(true)), false)
        .expect("existing keys are always sent");

    assert!(!api_keys.allow_use_of_warp_credits);
    assert_eq!(api_keys.anthropic, "a-key");
    assert_eq!(api_keys.openai, "o-key");
    assert_eq!(api_keys.google, "g-key");
    assert_eq!(api_keys.open_router, "r-key");
    let aws = api_keys.aws_credentials.expect("AWS credentials are kept");
    assert_eq!(aws.access_key_id, "AKID");
    assert_eq!(aws.secret_access_key, "secret");
    assert_eq!(aws.session_token, "token");
}

#[test]
fn applying_the_setting_twice_is_applying_it_once() {
    for allow in [false, true] {
        let once = api_keys_with_warp_credit_fallback_setting(None, allow);
        let twice = api_keys_with_warp_credit_fallback_setting(
            api_keys_with_warp_credit_fallback_setting(None, allow),
            allow,
        );
        assert_eq!(once.is_some(), twice.is_some());
        if let (Some(once), Some(twice)) = (once, twice) {
            assert_eq!(once.allow_use_of_warp_credits, twice.allow_use_of_warp_credits);
            assert_eq!(once.anthropic, twice.anthropic);
        }

        let once = api_keys_with_warp_credit_fallback_setting(Some(all_keys(!allow)), allow).unwrap();
        let twice = api_keys_with_warp_credit_fallback_setting(Some(once), allow).unwrap();
        assert_eq!(twice.allow_use_of_warp_credits, allow);
        assert_eq!(twice.openai, "o-key");
    }
}

#[test]
fn default_api_keys_are_empty() {
    let keys = ApiKeys::default();
    assert!(!keys.allow_use_of_warp_credits);
    assert!(keys.anthropic.is_empty());
    assert!(keys.openai.is_empty());
    assert!(keys.google.is_empty());
    assert!(keys.open_router.is_empty());
    assert!(keys.aws_credentials.is_none());
}
