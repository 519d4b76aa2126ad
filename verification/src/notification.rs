//! Which push-notification target the camera hub uses, when its cached copy
//! is replaced, kept or deleted, and how a notification is dispatched.
//!
//! The target comes from the server and is cached in the hub's state
//! directory; the fetching, the cache file and the sending live outside the
//! library. `B` is the type of an iOS relay binding.
use vstd::prelude::*;
use crate::path_safety::join_spec;
use crate::text::eq_ignore_ascii_case_spec;

verus! {

/// Where a device wants its notifications delivered.
#[derive(Debug)]
pub struct NotificationTarget<B> {
    /// The device platform, such as `ios` or `android`.
    pub platform: String,
    /// The relay binding an iOS device registered, if any.
    pub ios_relay_binding: Option<B>,
    pub unifiedpush_endpoint_url: Option<String>,
    pub unifiedpush_pub_key: Option<String>,
    pub unifiedpush_auth: Option<String>,
}

/// The name of the cache file in the state directory.
pub const TARGET_FILENAME: &'static str = "notification_target.json";

/// The cache file of the state directory `state_dir`.
pub fn notification_target_path(state_dir: &str) -> (r: String)
    ensures
        r@ == join_spec(state_dir@, TARGET_FILENAME@),
{
    crate::path_safety::path_join(state_dir, TARGET_FILENAME)
}

/// Whether a platform name is iOS, ignoring ASCII case.
pub open spec fn is_ios_spec(platform: Seq<char>) -> bool {
    eq_ignore_ascii_case_spec(platform, "ios"@)
}

/// Whether `platform` names iOS, ignoring ASCII case.
pub fn is_ios_platform(platform: &str) -> (b: bool)
    ensures
        b == is_ios_spec(platform@),
{
    crate::text::eq_ignore_ascii_case(platform, "ios")
}

/// Whether `t` is the placeholder for `platform`: that platform and nothing
/// else, so that no notification can be delivered through it.
pub open spec fn is_placeholder_for<B>(t: NotificationTarget<B>, platform: Seq<char>) -> bool {
    &&& t.platform@ == platform
    &&& t.ios_relay_binding is None
    &&& t.unifiedpush_endpoint_url is None
    &&& t.unifiedpush_pub_key is None
    &&& t.unifiedpush_auth is None
}

/// The target kept for an iOS device while it has no usable relay binding.
pub fn ios_placeholder_target<B>(platform: &str) -> (t: NotificationTarget<B>)
    ensures
        is_placeholder_for(t, platform@),
{
    NotificationTarget {
        platform: String::from_str(platform),
        ios_relay_binding: None,
        unifiedpush_endpoint_url: None,
        unifiedpush_pub_key: None,
        unifiedpush_auth: None,
    }
}

/// What asking the server for the current target gave.
#[derive(Debug)]
pub enum FetchOutcome<T> {
    /// The server returned a target.
    Fetched(T),
    /// The server has no target registered.
    NoneRegistered,
    /// The request failed.
    Failed,
}

/// What a refresh does with the cache and returns.
#[derive(Debug)]
pub enum RefreshPlan<B> {
    /// Store the fetched target in the cache and return it.
    PersistFetched(NotificationTarget<B>),
    /// Store this iOS placeholder in the cache and return it.
    PersistPlaceholder(NotificationTarget<B>),
    /// Delete the cache and return no target.
    ClearCache,
    /// Leave the cache alone and return what it held.
    UseCached(Option<NotificationTarget<B>>),
}

/// Whether deciding the refresh needs the cached target (it does unless a
/// target was fetched).
pub fn refresh_needs_cache<T>(fetched: &FetchOutcome<T>) -> (b: bool)
    ensures
        b == !(fetched is Fetched),
{
    match fetched {
        FetchOutcome::Fetched(_) => false,
        _ => true,
    }
}

/// Decides a refresh of the notification target from what the server said
/// (`fetched`) and what the cache holds (`cached`, read only when
/// [`refresh_needs_cache`] says so): a fetched target is stored and used; when
/// the server has none, a cached iOS target is replaced by its placeholder
/// and any other cache is deleted; when the request failed, the cache is used
/// as it is.
pub fn plan_refresh<B>(
    fetched: FetchOutcome<NotificationTarget<B>>,
    cached: Option<NotificationTarget<B>>,
) -> (r: RefreshPlan<B>)
    ensures
        match fetched {
            FetchOutcome::Fetched(t) => r == RefreshPlan::PersistFetched(t),
            FetchOutcome::NoneRegistered => match cached {
                Some(c) => if is_ios_spec(c.platform@) {
                    r matches RefreshPlan::PersistPlaceholder(p) && is_placeholder_for(
                        p,
                        c.platform@,
                    )
                } else {
                    r is ClearCache
                },
                None => r is ClearCache,
            },
            FetchOutcome::Failed => r == RefreshPlan::UseCached(cached),
        },
{
    match fetched {
        FetchOutcome::Fetched(t) => RefreshPlan::PersistFetched(t),
        FetchOutcome::NoneRegistered => match cached {
            Some(c) => {
                if is_ios_platform(c.platform.as_str()) {
                    RefreshPlan::PersistPlaceholder(ios_placeholder_target(c.platform.as_str()))
                } else {
                    RefreshPlan::ClearCache
                }
            },
            None => RefreshPlan::ClearCache,
        },
        FetchOutcome::Failed => RefreshPlan::UseCached(cached),
    }
}

/// How a notification is delivered to the current target.
#[derive(Debug, PartialEq, Eq, Structural, Clone, Copy)]
pub enum SendRoute {
    /// Through the iOS relay, with the target's binding.
    IosRelay,
    /// Not at all: the iOS device has no relay binding yet.
    SkipIos,
    /// Through Firebase Cloud Messaging.
    Fcm,
}

/// The delivery route for the current target.
pub open spec fn send_route_spec<B>(target: Option<NotificationTarget<B>>) -> SendRoute {
    match target {
        Some(t) => if is_ios_spec(t.platform@) {
            if t.ios_relay_binding is Some {
                SendRoute::IosRelay
            } else {
                SendRoute::SkipIos
            }
        } else {
            SendRoute::Fcm
        },
        None => SendRoute::Fcm,
    }
}

/// Chooses how to deliver a notification: iOS targets go through the relay
/// (or are skipped while they have no binding); everything else, and the
/// case of no target, goes through FCM.
pub fn send_route<B>(target: &Option<NotificationTarget<B>>) -> (r: SendRoute)
    ensures
        r == send_route_spec(*target),
{
    match target {
        Some(t) => {
            if is_ios_platform(t.platform.as_str()) {
                match &t.ios_relay_binding {
                    Some(_) => SendRoute::IosRelay,
                    None => SendRoute::SkipIos,
                }
            } else {
                SendRoute::Fcm
            }
        },
        None => SendRoute::Fcm,
    }
}

/// Once an iOS device's binding has been replaced by the placeholder, no
/// notification is sent for it, neither through the relay nor through FCM,
/// until the server provides a new target.
pub proof fn law_placeholder_silences_ios<B>(t: NotificationTarget<B>)
    requires
        is_ios_spec(t.platform@),
        is_placeholder_for(t, t.platform@),
    ensures
        send_route_spec(Some(t)) == SendRoute::SkipIos,
{
}

/// Whether an error from the iOS relay says the relay refused the binding
/// (HTTP 403), after which the binding is replaced by a placeholder.
pub fn relay_rejected(error_text: &str) -> (b: bool)
    ensures
        b == crate::text::contains_spec(error_text@, "Relay error: 403"@),
{
    crate::text::contains(error_text, "Relay error: 403")
}

/// What to do once the relay binding of an iOS target has been validated.
#[derive(Debug)]
pub enum RelayValidation<B> {
    /// The binding is valid: send the notification through the relay.
    Send,
    /// The binding is invalid: store this placeholder in place of the
    /// target, send nothing, and report the validation error.
    ReplaceAndFail(NotificationTarget<B>),
}

/// Decides what follows the validation of an iOS target's relay binding
/// (`binding_valid`): send through the relay only when it is valid, else
/// replace the target by its placeholder and stop.
pub fn after_relay_validation<B>(platform: &str, binding_valid: bool) -> (r: RelayValidation<B>)
    ensures
        binding_valid ==> r is Send,
        !binding_valid ==> (r matches RelayValidation::ReplaceAndFail(p) && is_placeholder_for(
            p,
            platform@,
        )),
{
    if binding_valid {
        RelayValidation::Send
    } else {
        RelayValidation::ReplaceAndFail(ios_placeholder_target(platform))
    }
}

/// Decides what follows a delivery through the relay that failed with the
/// message `send_error` (`None` when it succeeded): the placeholder to store
/// when the relay refused the binding, else nothing to store. The delivery's
/// result is reported either way.
pub fn after_relay_send<B>(platform: &str, send_error: Option<&str>) -> (r: Option<
    NotificationTarget<B>,
>)
    ensures
        r is Some <==> (send_error matches Some(e) && crate::text::contains_spec(
            e@,
            "Relay error: 403"@,
        )),
        r matches Some(p) ==> is_placeholder_for(p, platform@),
{
    match send_error {
        Some(e) => {
            if relay_rejected(e) {
                Some(ios_placeholder_target(platform))
            } else {
                None
            }
        },
        None => None,
    }
}

/// ASCII lower-casing maps a character to `lower` exactly when it is `lower`
/// or `upper` (its capital).
proof fn lemma_ascii_lower_is(c: char, lower: char, upper: char)
    requires
        'a' <= lower <= 'z',
        upper as u32 + 32 == lower as u32,
    ensures
        crate::text::ascii_lower(c) == lower <==> (c == lower || c == upper),
{
    if 'A' <= c <= 'Z' {
        assert(((c as u32) + 32) as char as u32 == (c as u32) + 32);
    }
}

/// A platform is iOS exactly when it is the three letters `ios`, each in
/// either case (`iOS`, `IOS`, `ios`, ...).
pub proof fn law_ios_in_any_case(platform: Seq<char>)
    ensures
        is_ios_spec(platform) <==> (platform.len() == 3 && (platform[0] == 'i' || platform[0]
            == 'I') && (platform[1] == 'o' || platform[1] == 'O') && (platform[2] == 's'
            || platform[2] == 'S')),
{
    reveal_strlit("ios");
    let w = "ios"@;
    assert(w.len() == 3 && w[0] == 'i' && w[1] == 'o' && w[2] == 's');
    assert(crate::text::ascii_lower('i') == 'i');
    assert(crate::text::ascii_lower('o') == 'o');
    assert(crate::text::ascii_lower('s') == 's');
    if platform.len() == 3 {
        lemma_ascii_lower_is(platform[0], 'i', 'I');
        lemma_ascii_lower_is(platform[1], 'o', 'O');
        lemma_ascii_lower_is(platform[2], 's', 'S');
        if platform.len() == 3 && (platform[0] == 'i' || platform[0] == 'I') && (platform[1]
            == 'o' || platform[1] == 'O') && (platform[2] == 's' || platform[2] == 'S') {
            assert forall|i: int| 0 <= i < platform.len() implies crate::text::ascii_lower(
                platform[i],
            ) == crate::text::ascii_lower(w[i]) by {
                assert(i == 0 || i == 1 || i == 2);
            }
        }
        if is_ios_spec(platform) {
            assert(crate::text::ascii_lower(platform[0]) == crate::text::ascii_lower(w[0]));
            assert(crate::text::ascii_lower(platform[1]) == crate::text::ascii_lower(w[1]));
            assert(crate::text::ascii_lower(platform[2]) == crate::text::ascii_lower(w[2]));
        }
    }
}

/// A notification goes through the iOS relay exactly for an iOS target with
/// a relay binding, is skipped exactly for an iOS target without one, and
/// goes through FCM for any other target and when there is none.
pub proof fn law_send_route<B>(target: Option<NotificationTarget<B>>)
    ensures
        send_route_spec(target) == SendRoute::IosRelay <==> (target matches Some(t) && is_ios_spec(
            t.platform@,
        ) && t.ios_relay_binding is Some),
        send_route_spec(target) == SendRoute::SkipIos <==> (target matches Some(t) && is_ios_spec(
            t.platform@,
        ) && t.ios_relay_binding is None),
        send_route_spec(target) == SendRoute::Fcm <==> (target is None || (target matches Some(t)
            && !is_ios_spec(t.platform@))),
{
}

} // verus!
