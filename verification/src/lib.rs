//! A native remote desktop: its protocol, its access rules and the state
//! machines behind its windows.
pub mod access;
pub mod audio;
pub mod capture;
pub mod client;
pub mod clipboard;
pub mod clock;
pub mod control_order;
pub mod crypto;
pub mod decoder;
pub mod error;
pub mod fullscreen;
pub mod geometry;
pub mod hdr;
pub mod hdr_present;
pub mod host;
pub mod host_admin;
pub mod host_ui;
pub mod identity;
pub mod keyboard_capture;
pub mod launcher;
pub mod laws;
mod lists;
pub mod media;
pub mod multi_display;
pub mod pairing;
pub mod profiles;
pub mod protocol;
pub mod security_key;
pub mod ssh_agent;
pub mod stats;
pub mod system_login;
pub mod system_pam;
pub mod text;
pub mod windowing;
pub mod wire;
