//! Platform-neutral in-app-purchase model and the normalization rules that
//! turn native store data into it.

pub mod desktop;
pub mod dispatcher;
pub mod error;
pub mod foreign;
pub mod macos;
pub mod models;
pub mod normalizer;
pub mod text;
pub mod windows;
