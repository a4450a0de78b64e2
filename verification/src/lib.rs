//! Local-only account and AI settings logic: the local installation identity
//! that stands in for a remote user, the SSO notice view, and the rules that
//! route AI requests to user-configured providers.

pub mod ai;
pub mod auth;
