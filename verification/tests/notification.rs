use secluso::mls_clients::{mls_client_tag, MAX_OFFLINE_WINDOW, NUM_MLS_CLIENTS};
use secluso::notification::{
    ios_placeholder_target, is_ios_platform, notification_target_path, plan_refresh,
    refresh_needs_cache, relay_rejected, send_route, FetchOutcome, NotificationTarget,
    RefreshPlan, SendRoute, after_relay_send, after_relay_validation, RelayValidation,
};

fn target(platform: &str, binding: Option<u32>) -> NotificationTarget<u32> {
    NotificationTarget {
        platform: platform.to_string(),
        ios_relay_binding: binding,
        unifiedpush_endpoint_url: Some("https://push.example/x".to_string()),
        unifiedpush_pub_key: Some("key".to_string()),
        unifiedpush_auth: Some("auth".to_string()),
    }
}

#[test]
fn placeholder_keeps_only_platform() {
    let p: NotificationTarget<u32> = ios_placeholder_target("iOS");
    assert_eq!(p.platform, "iOS");
    assert!(p.ios_relay_binding.is_none());
    assert!(p.unifiedpush_endpoint_url.is_none());
    assert!(p.unifiedpush_pub_key.is_none());
    assert!(p.unifiedpush_auth.is_none());
}

#[test]
fn fetched_target_is_stored_and_used() {
    assert!(!refresh_needs_cache(&FetchOutcome::Fetched(1)));
    match plan_refresh(FetchOutcome::Fetched(target("android", None)), None) {
        RefreshPlan::PersistFetched(t) => assert_eq!(t.platform, "android"),
        other => panic!("unexpected {:?}", other),
    }
}

#[test]
fn unregistered_ios_cache_becomes_placeholder() {
    assert!(refresh_needs_cache::<u8>(&FetchOutcome::NoneRegistered));
    match plan_refresh(FetchOutcome::NoneRegistered, Some(target("IOS", Some(7)))) {
        RefreshPlan::PersistPlaceholder(p) => {
            assert_eq!(p.platform, "IOS");
            assert!(p.ios_relay_binding.is_none());
        }
        other => panic!("unexpected {:?}", other),
    }
}

#[test]
fn unregistered_other_cache_is_cleared() {
    assert!(matches!(
        plan_refresh(FetchOutcome::NoneRegistered, Some(target("android", None))),
        RefreshPlan::ClearCache
    ));
    assert!(matches!(plan_refresh::<u32>(FetchOutcome::NoneRegistered, None), RefreshPlan::ClearCache));
}

#[test]
fn failed_fetch_uses_cache_unchanged() {
    assert!(refresh_needs_cache::<u8>(&FetchOutcome::Failed));
    match plan_refresh(FetchOutcome::Failed, Some(target("ios", Some(3)))) {
        RefreshPlan::UseCached(Some(t)) => assert_eq!(t.ios_relay_binding, Some(3)),
        other => panic!("unexpected {:?}", other),
    }
    assert!(matches!(plan_refresh::<u32>(FetchOutcome::Failed, None), RefreshPlan::UseCached(None)));
}

#[test]
fn send_routes() {
    assert_eq!(send_route(&Some(target("ios", Some(1)))), SendRoute::IosRelay);
    assert_eq!(send_route(&Some(target("Ios", None))), SendRoute::SkipIos);
    assert_eq!(send_route(&Some(target("android", Some(1)))), SendRoute::Fcm);
    assert_eq!(send_route::<u32>(&None), SendRoute::Fcm);
    assert!(is_ios_platform("iOS"));
    assert!(!is_ios_platform("ios "));
}

#[test]
fn relay_rejection_detection() {
    assert!(relay_rejected("Relay error: 403 Forbidden"));
    assert!(!relay_rejected("Relay error: 500"));
}

#[test]
fn cache_file_location() {
    assert_eq!(notification_target_path("/var/lib/secluso"), "/var/lib/secluso/notification_target.json");
    assert_eq!(notification_target_path("state/"), "state/notification_target.json");
}

#[test]
fn mls_client_tags() {
    let tags: Vec<&str> = (0..NUM_MLS_CLIENTS).map(mls_client_tag).collect();
    assert_eq!(tags, vec!["motion", "thumbnail", "fcm", "livestream", "config"]);
    assert_eq!(MAX_OFFLINE_WINDOW, 86400);
}

#[test]
fn placeholder_routes_to_no_delivery() {
    let p: NotificationTarget<u32> = ios_placeholder_target("ios");
    assert_eq!(send_route(&Some(p)), SendRoute::SkipIos);
}

#[test]
fn invalid_binding_is_replaced_and_not_sent() {
    match after_relay_validation::<u32>("iOS", false) {
        RelayValidation::ReplaceAndFail(p) => {
            assert_eq!(p.platform, "iOS");
            assert!(p.ios_relay_binding.is_none());
            assert_eq!(send_route(&Some(p)), SendRoute::SkipIos);
        }
        RelayValidation::Send => panic!("an invalid binding must not be used"),
    }
    assert!(matches!(after_relay_validation::<u32>("ios", true), RelayValidation::Send));
}

#[test]
fn only_a_relay_refusal_replaces_the_binding() {
    let p = after_relay_send::<u32>("ios", Some("Relay error: 403 Forbidden")).unwrap();
    assert_eq!(p.platform, "ios");
    assert!(p.unifiedpush_endpoint_url.is_none());
    assert!(after_relay_send::<u32>("ios", Some("Relay error: 500")).is_none());
    assert!(after_relay_send::<u32>("ios", None).is_none());
}
