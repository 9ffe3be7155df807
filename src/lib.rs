//! A runner that hands prompts and URLs to a browser-automation sidecar
//! over a line-delimited JSON protocol, and the file formats around it: the
//! start file it reads, the end report it writes, deep links that start a
//! run, and notes saved from captured clips.
pub mod app;
pub mod bridge;
pub mod deeplink;
pub mod helper_client;
pub mod io;
pub mod json;
pub mod notes;
pub mod protocol;
pub mod text;
pub mod weblink;
