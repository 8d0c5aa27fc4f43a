//! Installation and launch planning for a versioned Java game client.

pub mod assets;
pub mod env;
pub mod fetch;
pub mod integrity;
pub mod launch;
pub mod layout;
pub mod libraries;
pub mod manifest;
pub mod platform;
pub mod resolver;
pub mod rules;
pub mod runtime;
pub mod text;
pub mod version;
