//! Verified core of the Olympus Cloud SDK: wire formats, request
//! construction, response interpretation, the localized error manifest and
//! the session refresh schedule.

pub mod apps;
pub mod config;
pub mod decode;
pub mod error;
pub mod http;
pub mod i18n;
pub mod identity;
pub mod json;
pub mod services;
pub mod session;
pub mod silent_refresh;
pub mod stamps;
pub mod tenant;
pub mod text;
pub mod time;
pub mod url;

pub use config::OlympusConfig;
pub use error::OlympusError;
pub use i18n::{ErrorManifest, ErrorManifestEntry};
pub use time::Duration;
