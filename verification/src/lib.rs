//! Verified core of the `agent-browser connect` native-messaging host:
//! argument handling, host-manifest and launcher layout, JSON replies,
//! the native-messaging frame codec and the relay endpoint checks.

pub mod text;
pub mod framing;
pub mod json;
pub mod connect;
pub mod install;
pub mod report;
pub mod host;
pub mod upgrade;
