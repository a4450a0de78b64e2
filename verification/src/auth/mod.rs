//! Authentication in a local-only build: there is no account session, only a
//! local installation identity.

pub mod installation_id;
pub mod needs_sso_link_view;
pub mod user;
pub mod user_uid;

use vstd::prelude::*;

verus! {

/// Prefix for API keys used in authentication.
pub const API_KEY_PREFIX: &'static str = "wk-";

} // verus!
