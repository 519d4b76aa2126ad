//! The MLS clients (groups) that a camera and its apps share.
use vstd::prelude::*;

verus! {

/// The number of MLS clients per app.
pub const NUM_MLS_CLIENTS: usize = 5;

/// Index of the motion-event client.
pub const MOTION: usize = 0;

/// Index of the thumbnail client.
pub const THUMBNAIL: usize = 1;

/// Index of the push-notification (FCM) client.
pub const FCM: usize = 2;

/// Index of the livestream client.
pub const LIVESTREAM: usize = 3;

/// Index of the configuration client.
pub const CONFIG: usize = 4;

/// Clients the camera shares between apps: motion, thumbnail and FCM.
pub const NUM_COMMON_MLS_CLIENTS: usize = 3;

/// Clients the camera keeps per app: livestream and config.
pub const NUM_DEDICATED_MLS_CLIENTS: usize = 2;

/// Index of the livestream client among the dedicated ones.
pub const LIVESTREAM_DED: usize = 0;

/// Index of the config client among the dedicated ones.
pub const CONFIG_DED: usize = 1;

/// How long other group members may stay offline, in seconds (one day).
pub const MAX_OFFLINE_WINDOW: u64 = 24 * 60 * 60;

/// The tag of the client at `index`.
pub open spec fn mls_client_tag_spec(index: int) -> Seq<char> {
    if index == 0 {
        "motion"@
    } else if index == 1 {
        "thumbnail"@
    } else if index == 2 {
        "fcm"@
    } else if index == 3 {
        "livestream"@
    } else {
        "config"@
    }
}

/// The tag naming the client at `index`: `motion`, `thumbnail`, `fcm`,
/// `livestream` or `config`.
pub fn mls_client_tag(index: usize) -> (r: &'static str)
    requires
        index < NUM_MLS_CLIENTS,
    ensures
        r@ == mls_client_tag_spec(index as int),
{
    if index == MOTION {
        "motion"
    } else if index == THUMBNAIL {
        "thumbnail"
    } else if index == FCM {
        "fcm"
    } else if index == LIVESTREAM {
        "livestream"
    } else {
        "config"
    }
}

} // verus!
