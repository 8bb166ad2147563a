//! Authentication core of a location-tracking server: password hashing and
//! checking, the registration flow, in-memory login sessions, and the
//! per-request check that turns a cookie or a device token into an identity.

pub mod api;
pub mod cookie;
pub mod gate;
pub mod identity;
pub mod login;
pub mod password;
pub mod query;
pub mod register;
pub mod session;
pub mod settings;
pub mod text;
