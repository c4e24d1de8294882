//! Turns a modpack version descriptor into an installable package: a
//! dependency manifest, the override files to fetch, and the server
//! installer location. Every function here is verified with Verus.

pub mod text;
pub mod pack;
pub mod catalog;
pub mod manifest;
pub mod install;
pub mod session;
