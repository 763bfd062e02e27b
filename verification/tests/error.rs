use kilam_launcher::auth::AuthError;
use kilam_launcher::client_provisioner::ClientProvisionerError;
use kilam_launcher::downloader::DownloaderError;
use kilam_launcher::error::LauncherError;
use kilam_launcher::event_store::EventError;
use kilam_launcher::launcher::LaunchError;

#[test]
fn error_kinds() {
    assert_eq!(LauncherError::Store("s".to_string()).kind(), "Store");
    assert_eq!(LauncherError::SerdeJson("s".to_string()).kind(), "SerdeJson");
    assert_eq!(LauncherError::Auth(AuthError::MissingSession).kind(), "Auth");
    assert_eq!(LauncherError::EventStore(EventError::ParseFailed).kind(), "EventStore");
    assert_eq!(LauncherError::Tauri("t".to_string()).kind(), "Tauri");
    assert_eq!(LauncherError::Downloader(DownloaderError::Io("e".to_string())).kind(), "Downloader");
    assert_eq!(LauncherError::ClientProvisioner(ClientProvisionerError::FetchFailed("e".to_string())).kind(), "ClientProvisioner");
    assert_eq!(LauncherError::Launcher(LaunchError::NotReady).kind(), "Launcher");
}

#[test]
fn error_messages() {
    assert_eq!(
        LauncherError::Auth(AuthError::InvalidUsername("x y".to_string())).message(),
        "Error in Authentication: Username: x y is not a valid input"
    );
    assert_eq!(LauncherError::Auth(AuthError::MissingSession).message(), "Error in Authentication: There is no active session");
    assert_eq!(LauncherError::Launcher(LaunchError::JavaNotFound).message(), "Error in Launcher Java has not been found");
    assert_eq!(
        LauncherError::Launcher(LaunchError::ProcessFailed("boom".to_string())).message(),
        "Error in Launcher The process has failed: boom"
    );
    assert_eq!(LauncherError::Store("disk".to_string()).message(), "Error in Plugin Store: disk");
    assert_eq!(LauncherError::SerdeJson("bad".to_string()).message(), "Error in Serde JSON: bad");
    assert_eq!(LauncherError::Tauri("t".to_string()).message(), "Error in Tauri t");
    assert_eq!(LauncherError::EventStore(EventError::ParseFailed).message(), "Error in Event Store Parse has failed");
    assert_eq!(
        LauncherError::ClientProvisioner(ClientProvisionerError::ExtractionFailed("io".to_string())).message(),
        "Error in Client Provisioner Extraction failed: io"
    );
    assert_eq!(
        LauncherError::Downloader(DownloaderError::DownloadFailed("net".to_string())).message(),
        "Error in Downloader The download has failed: net"
    );
}

#[test]
fn error_payload() {
    let p = LauncherError::Launcher(LaunchError::NotReady).payload();
    assert_eq!(p.kind, "Launcher");
    assert_eq!(p.message, "Error in Launcher Not ready");
}
