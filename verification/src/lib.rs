//! Verified core of a small shadowsocks tray client: its configuration model,
//! the client state machine that switches between configured servers, and the
//! decisions behind the server list window and the tray menu.

pub mod client;
pub mod config;
pub mod dialog;
pub mod shadowsocks;
