//! The verified core of Chiù, a tray utility that keeps the computer awake
//! while a download is running.

pub mod application;
pub mod automatic_download;
pub mod automatic_protection;
pub mod clipboard;
pub mod clock;
pub mod diagnostics;
pub mod duration;
pub mod host;
pub mod launch_at_login;
pub mod local_log;
pub mod manual_session;
pub mod network_activity;
pub mod power_source;
pub mod product_composition;
pub mod settings;
pub mod sleep_inhibitor;
pub mod text;
pub mod tray;
pub mod tray_host;
pub mod updater;
pub mod wake_coordinator;
pub mod words;
