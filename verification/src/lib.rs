//! Core logic of the KILAM event launcher: player identity, event catalogue
//! filtering, download verification, client provisioning plans and the
//! construction of the game's command line.

pub mod text;
pub mod digest;
pub mod auth;
pub mod error;
pub mod config;
pub mod event_store;
pub mod assoc;
pub mod downloader;
pub mod client_provisioner;
pub mod launcher;
