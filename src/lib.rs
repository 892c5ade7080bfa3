//! Links a chat-platform account to a single-sign-on account through a
//! short-lived token, and keeps a server's automatically assigned roles in
//! line with its configured role mode.

pub mod text;
pub mod roles;
pub mod session;
pub mod reconcile;
pub mod registry;
pub mod error;
pub mod linking;
pub mod identity;
pub mod role_config;
pub mod keys;
pub mod progress;
pub mod api;
