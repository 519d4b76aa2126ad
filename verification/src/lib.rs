//! Verified core logic of the Secluso camera, hub and provisioning tools.
use vstd::prelude::*;

pub mod credentials;
pub mod decimal;
pub mod ip;
pub mod light_control;
pub mod mls_clients;
pub mod notification;
pub mod path_safety;
pub mod preflight;
pub mod preflight_run;
pub mod server_url;
pub mod text;

verus! {

} // verus!
