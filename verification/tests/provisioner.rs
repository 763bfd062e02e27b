use kilam_launcher::client_provisioner::{
    check_download, check_native, client_jar_path, download_tmp_path, fabric_download, native_files, FileDownload, NativeFile, fabric_profile_url, find_version_url,
    is_directory_entry, libraries_dir, maven_name_to_path, native_downloads, native_entry_path,
    natives_dir, natives_key, path_join, provision_plan, ClientProvisionerError, FabricLibrary,
    FabricManifest, MojangArtifact, MojangClient, MojangClientDownload, MojangLibrary,
    MojangLibraryDownload, MojangNativeArtifact, MojangVersionEntry, MojangVersionManifest, TargetOs,
};
use kilam_launcher::error::LauncherError;
use kilam_launcher::event_store::{Event, ModLoader};

const ABC_SHA1: &str = "a9993e364706816aba3e25717850c26c9cd0d89d";

fn event() -> Event {
    Event {
        id: "ev1".to_string(),
        name: String::new(),
        description: String::new(),
        image_url: String::new(),
        minecraft_version: "1.20.1".to_string(),
        modloader: ModLoader::Fabric,
        modloader_version: "0.15.0".to_string(),
        server_ip: String::new(),
        whitelist: vec![],
        assets: vec![],
    }
}

fn library(name: &str, natives: Vec<(&str, &str)>, classifiers: Vec<(&str, &str)>) -> MojangLibrary {
    MojangLibrary {
        name: name.to_string(),
        downloads: MojangLibraryDownload {
            artifact: MojangArtifact {
                url: format!("https://libs/{}.jar", name),
                sha1: "s".to_string(),
                path: format!("org/{}.jar", name),
            },
            classifiers: classifiers
                .into_iter()
                .map(|(k, u)| (k.to_string(), MojangNativeArtifact { url: u.to_string(), sha1: "n".to_string() }))
                .collect(),
        },
        natives: natives.into_iter().map(|(k, v)| (k.to_string(), v.to_string())).collect(),
    }
}

#[test]
fn maven_paths() {
    assert_eq!(
        maven_name_to_path("net.fabricmc:fabric-loader:0.15.0"),
        "net/fabricmc/fabric-loader/0.15.0/fabric-loader-0.15.0.jar"
    );
    assert_eq!(maven_name_to_path("a:b:c:d"), "a/b/c/b-c.jar");
}

#[test]
fn version_lookup_takes_first_match() {
    let versions = vec![
        MojangVersionEntry { id: "1.20".to_string(), url: "u0".to_string() },
        MojangVersionEntry { id: "1.20.1".to_string(), url: "u1".to_string() },
        MojangVersionEntry { id: "1.20.1".to_string(), url: "u2".to_string() },
    ];
    assert_eq!(find_version_url(&versions, &"1.20.1".to_string()), Ok("u1".to_string()));
    assert_eq!(
        find_version_url(&versions, &"9.9".to_string()),
        Err(LauncherError::ClientProvisioner(ClientProvisionerError::ParseFailed("Version not found".to_string())))
    );
}

#[test]
fn instance_paths_and_joins() {
    let e = event();
    assert_eq!(client_jar_path("/d", &e), "/d/ev1/client.jar");
    assert_eq!(libraries_dir("/d", &e), "/d/ev1/libraries");
    assert_eq!(natives_dir("/d", &e), "/d/ev1/natives");
    assert_eq!(path_join("/a", "b/c"), "/a/b/c");
    assert_eq!(path_join("/a/", "b"), "/a/b");
    assert_eq!(path_join("/a", "/abs"), "/abs");
    assert_eq!(path_join("", "b"), "b");
    assert_eq!(native_entry_path("/n", "lib.so"), "/n/lib.so");
    assert_eq!(
        fabric_profile_url(&e),
        "https://meta.fabricmc.net/v2/versions/loader/1.20.1/0.15.0/profile/json"
    );
}

#[test]
fn provisioning_plan_lists_every_file() {
    let e = event();
    let version = MojangVersionManifest {
        downloads: MojangClientDownload { client: MojangClient { url: "https://c/client.jar".to_string(), sha1: "cs".to_string() } },
        libraries: vec![library("x", vec![], vec![])],
    };
    let fabric = FabricManifest {
        libraries: vec![FabricLibrary { name: "net.fabricmc:loader:1.0".to_string(), url: "https://maven.fabricmc.net/".to_string() }],
    };
    let plan = provision_plan("/d", &e, &version, &fabric);
    assert_eq!(plan.len(), 3);
    assert_eq!(plan[0].url, "https://c/client.jar");
    assert_eq!(plan[0].path, "/d/ev1/client.jar");
    assert_eq!(plan[0].sha1, "cs");
    assert_eq!(plan[1].url, "https://libs/x.jar");
    assert_eq!(plan[1].path, "/d/ev1/libraries/org/x.jar");
    assert_eq!(plan[1].sha1, "s");
    assert_eq!(plan[2].url, "https://maven.fabricmc.net/net/fabricmc/loader/1.0/loader-1.0.jar");
    assert_eq!(plan[2].path, "/d/ev1/libraries/net/fabricmc/loader/1.0/loader-1.0.jar");
    assert_eq!(plan[2].sha1, "");
}

#[test]
fn sha1_checks() {
    assert!(check_download(b"abc", &ABC_SHA1.to_string()).is_ok());
    assert!(check_download(b"anything", &String::new()).is_ok());
    assert_eq!(
        check_download(b"abd", &ABC_SHA1.to_string()),
        Err(ClientProvisionerError::VerificationFailed("SHA1 mismatch".to_string()))
    );
    assert!(check_native(b"abc", &ABC_SHA1.to_string()).is_ok());
    assert_eq!(
        check_native(b"abc", &String::new()),
        Err(ClientProvisionerError::VerificationFailed("Native SHA1 mismatch".to_string()))
    );
}

#[test]
fn natives_for_the_platform() {
    assert_eq!(natives_key(TargetOs::Windows), "windows");
    assert_eq!(natives_key(TargetOs::MacOs), "osx");
    assert_eq!(natives_key(TargetOs::Linux), "linux");
    let version = MojangVersionManifest {
        downloads: MojangClientDownload { client: MojangClient { url: String::new(), sha1: String::new() } },
        libraries: vec![
            library("a", vec![("linux", "natives-linux"), ("windows", "natives-windows")], vec![("natives-linux", "https/a-linux"), ("natives-windows", "https/a-win")]),
            library("b", vec![], vec![]),
            library("c", vec![("linux", "natives-linux")], vec![]),
            library("d", vec![("linux", "natives-linux")], vec![("natives-linux", "https/d-linux")]),
        ],
    };
    let linux = native_downloads(&version, TargetOs::Linux);
    let urls: Vec<String> = linux.iter().map(|n| n.url.clone()).collect();
    assert_eq!(urls, vec!["https/a-linux", "https/d-linux"]);
    let win = native_downloads(&version, TargetOs::Windows);
    assert_eq!(win.len(), 1);
    assert_eq!(win[0].url, "https/a-win");
    assert!(native_downloads(&version, TargetOs::MacOs).is_empty());
}

#[test]
fn directory_entries_are_skipped() {
    assert!(is_directory_entry("META-INF/"));
    assert!(!is_directory_entry("liblwjgl.so"));
}

fn zip_of(entries: &[(&str, &[u8])]) -> Vec<u8> {
    // A stored (uncompressed) zip archive built by hand.
    let mut out = Vec::new();
    let mut central = Vec::new();
    for (name, data) in entries {
        let offset = out.len() as u32;
        let crc = crc32(data);
        let header = |sig: u32, central: bool| {
            let mut h = Vec::new();
            h.extend_from_slice(&sig.to_le_bytes());
            if central {
                h.extend_from_slice(&20u16.to_le_bytes());
            }
            h.extend_from_slice(&20u16.to_le_bytes());
            h.extend_from_slice(&0u16.to_le_bytes());
            h.extend_from_slice(&0u16.to_le_bytes());
            h.extend_from_slice(&0u16.to_le_bytes());
            h.extend_from_slice(&0u16.to_le_bytes());
            h.extend_from_slice(&crc.to_le_bytes());
            h.extend_from_slice(&(data.len() as u32).to_le_bytes());
            h.extend_from_slice(&(data.len() as u32).to_le_bytes());
            h.extend_from_slice(&(name.len() as u16).to_le_bytes());
            h.extend_from_slice(&0u16.to_le_bytes());
            if central {
                h.extend_from_slice(&0u16.to_le_bytes());
                h.extend_from_slice(&0u16.to_le_bytes());
                h.extend_from_slice(&0u16.to_le_bytes());
                h.extend_from_slice(&0u32.to_le_bytes());
                h.extend_from_slice(&offset.to_le_bytes());
            }
            h.extend_from_slice(name.as_bytes());
            h
        };
        out.extend(header(0x04034b50, false));
        out.extend_from_slice(data);
        central.extend(header(0x02014b50, true));
    }
    let cd_offset = out.len() as u32;
    let cd_len = central.len() as u32;
    out.extend(central);
    out.extend_from_slice(&0x06054b50u32.to_le_bytes());
    out.extend_from_slice(&0u16.to_le_bytes());
    out.extend_from_slice(&0u16.to_le_bytes());
    out.extend_from_slice(&(entries.len() as u16).to_le_bytes());
    out.extend_from_slice(&(entries.len() as u16).to_le_bytes());
    out.extend_from_slice(&cd_len.to_le_bytes());
    out.extend_from_slice(&cd_offset.to_le_bytes());
    out.extend_from_slice(&0u16.to_le_bytes());
    out
}

fn crc32(data: &[u8]) -> u32 {
    let mut crc = 0xFFFF_FFFFu32;
    for b in data {
        crc ^= *b as u32;
        for _ in 0..8 {
            crc = if crc & 1 == 1 { (crc >> 1) ^ 0xEDB8_8320 } else { crc >> 1 };
        }
    }
    !crc
}

#[test]
fn native_archive_unpacks_non_directory_entries() {
    let archive = zip_of(&[("META-INF/", b""), ("liblwjgl.so", b"ELF"), ("sub/x.dll", b"MZ")]);
    let sha1 = kilam_launcher::digest::sha1_hex(&archive);
    let files = native_files("/n", &archive, &sha1).unwrap();
    assert_eq!(
        files,
        vec![
            NativeFile { path: "/n/liblwjgl.so".to_string(), bytes: b"ELF".to_vec() },
            NativeFile { path: "/n/sub/x.dll".to_string(), bytes: b"MZ".to_vec() },
        ]
    );
}

#[test]
fn native_archive_must_match_its_sha1() {
    let archive = zip_of(&[("a.so", b"x")]);
    assert_eq!(
        native_files("/n", &archive, &ABC_SHA1.to_string()),
        Err(ClientProvisionerError::VerificationFailed("Native SHA1 mismatch".to_string()))
    );
}

#[test]
fn undecodable_native_archive_fails_extraction() {
    let junk = b"not a zip".to_vec();
    let sha1 = kilam_launcher::digest::sha1_hex(&junk);
    assert!(matches!(native_files("/n", &junk, &sha1), Err(ClientProvisionerError::ExtractionFailed(_))));
}

#[test]
fn download_goes_through_a_tmp_file() {
    let task = FileDownload { url: String::new(), path: "/d/ev/client.jar".to_string(), sha1: String::new() };
    assert_eq!(download_tmp_path(&task), "/d/ev/client.tmp");
    let task = FileDownload { url: String::new(), path: "/d/lib/noext".to_string(), sha1: String::new() };
    assert_eq!(download_tmp_path(&task), "/d/lib/noext.tmp");
}

#[test]
fn one_fabric_library_download() {
    let lib = FabricLibrary { name: "net.fabricmc:loader:1.0".to_string(), url: "https://maven.fabricmc.net/".to_string() };
    let d = fabric_download("/d", &event(), &lib);
    assert_eq!(d.url, "https://maven.fabricmc.net/net/fabricmc/loader/1.0/loader-1.0.jar");
    assert_eq!(d.path, "/d/ev1/libraries/net/fabricmc/loader/1.0/loader-1.0.jar");
    assert_eq!(d.sha1, "");
}
