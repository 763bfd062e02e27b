//! The launcher-wide error type and its wire payload.

use vstd::prelude::*;
use crate::auth::AuthError;
use crate::client_provisioner::ClientProvisionerError;
use crate::downloader::DownloaderError;
use crate::event_store::EventError;
use crate::launcher::LaunchError;
use crate::text::{concat2, owned};

verus! {

/// Every error the launcher reports. Errors raised by outside services
/// (the settings store, JSON, the desktop shell) carry their text.
#[derive(Clone, Debug, PartialEq, Eq)]
pub enum LauncherError {
    Store(String),
    SerdeJson(String),
    Auth(AuthError),
    EventStore(EventError),
    Tauri(String),
    Downloader(DownloaderError),
    ClientProvisioner(ClientProvisionerError),
    Launcher(LaunchError),
}

/// What the user interface receives for an error.
#[derive(Clone, Debug, PartialEq, Eq)]
pub struct ErrorPayload {
    pub kind: String,
    pub message: String,
}

impl LauncherError {
    /// The name of the error's family.
    pub open spec fn spec_kind(&self) -> Seq<char> {
        match self {
            LauncherError::Store(_) => "Store"@,
            LauncherError::SerdeJson(_) => "SerdeJson"@,
            LauncherError::Auth(_) => "Auth"@,
            LauncherError::EventStore(_) => "EventStore"@,
            LauncherError::Tauri(_) => "Tauri"@,
            LauncherError::Downloader(_) => "Downloader"@,
            LauncherError::ClientProvisioner(_) => "ClientProvisioner"@,
            LauncherError::Launcher(_) => "Launcher"@,
        }
    }

    /// The text that describes the error.
    pub open spec fn spec_message(&self) -> Seq<char> {
        match self {
            LauncherError::Store(e) => "Error in Plugin Store: "@ + e@,
            LauncherError::SerdeJson(e) => "Error in Serde JSON: "@ + e@,
            LauncherError::Auth(e) => "Error in Authentication: "@ + e.spec_message(),
            LauncherError::EventStore(e) => "Error in Event Store "@ + e.spec_message(),
            LauncherError::Tauri(e) => "Error in Tauri "@ + e@,
            LauncherError::Downloader(e) => "Error in Downloader "@ + e.spec_message(),
            LauncherError::ClientProvisioner(e) => "Error in Client Provisioner "@ + e.spec_message(),
            LauncherError::Launcher(e) => "Error in Launcher "@ + e.spec_message(),
        }
    }

    /// The name of the error's family.
    pub fn kind(&self) -> (k: &'static str)
        ensures
            k@ == self.spec_kind(),
    {
        match self {
            LauncherError::Store(_) => "Store",
            LauncherError::SerdeJson(_) => "SerdeJson",
            LauncherError::Auth(_) => "Auth",
            LauncherError::EventStore(_) => "EventStore",
            LauncherError::Tauri(_) => "Tauri",
            LauncherError::Downloader(_) => "Downloader",
            LauncherError::ClientProvisioner(_) => "ClientProvisioner",
            LauncherError::Launcher(_) => "Launcher",
        }
    }

    /// Renders the error as text.
    pub fn message(&self) -> (m: String)
        ensures
            m@ == self.spec_message(),
    {
        match self {
            LauncherError::Store(e) => concat2("Error in Plugin Store: ", e.as_str()),
            LauncherError::SerdeJson(e) => concat2("Error in Serde JSON: ", e.as_str()),
            LauncherError::Auth(e) => {
                let m = e.message();
                concat2("Error in Authentication: ", m.as_str())
            },
            LauncherError::EventStore(e) => {
                let m = e.message();
                concat2("Error in Event Store ", m.as_str())
            },
            LauncherError::Tauri(e) => concat2("Error in Tauri ", e.as_str()),
            LauncherError::Downloader(e) => {
                let m = e.message();
                concat2("Error in Downloader ", m.as_str())
            },
            LauncherError::ClientProvisioner(e) => {
                let m = e.message();
                concat2("Error in Client Provisioner ", m.as_str())
            },
            LauncherError::Launcher(e) => {
                let m = e.message();
                concat2("Error in Launcher ", m.as_str())
            },
        }
    }

    /// The payload sent to the user interface: the family and the text.
    pub fn payload(&self) -> (p: ErrorPayload)
        ensures
            p.kind@ == self.spec_kind(),
            p.message@ == self.spec_message(),
    {
        ErrorPayload { kind: owned(self.kind()), message: self.message() }
    }
}

} // verus!
