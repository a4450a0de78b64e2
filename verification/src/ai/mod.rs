//! How AI requests are configured in a local-only build: the user's own API
//! keys, the Warp-credit fallback setting, and the user's own OpenAI-compatible
//! providers.

pub mod api_keys;
pub mod custom_model;
