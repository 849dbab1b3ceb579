//! Deployment of plugin binaries to a console running a minimal FTP server:
//! the control-channel protocol decisions, passive-mode address decoding,
//! command encoding, install-path resolution and deployment planning.
pub mod command;
pub mod deploy;
pub mod error;
pub mod game_paths;
pub mod install;
pub mod manifest;
pub mod package;
pub mod passive;
pub mod remote;
pub mod reply;
pub mod session;
pub mod text;
pub mod title;
