//! Provisioning the base game client: which files to fetch from Mojang and
//! Fabric, where they go, and how they are checked.

use vstd::prelude::*;
use crate::assoc::{find_last, lookup_last};
use crate::digest::{sha1_hex, spec_sha1_hex};
use crate::error::LauncherError;
use crate::event_store::Event;
use crate::text::{
    concat2, concat3, ends_with_char, owned, replace_all, replace_char, split_char, split_on,
};

verus! {

/// Errors of client provisioning.
#[derive(Clone, Debug, PartialEq, Eq)]
pub enum ClientProvisionerError {
    FetchFailed(String),
    ParseFailed(String),
    DownloadFailed(String),
    VerificationFailed(String),
    ExtractionFailed(String),
}

impl ClientProvisionerError {
    /// The text that describes the error.
    pub open spec fn spec_message(&self) -> Seq<char> {
        match self {
            ClientProvisionerError::FetchFailed(e) => "Fetch failed: "@ + e@,
            ClientProvisionerError::ParseFailed(e) => "Parse failed: "@ + e@,
            ClientProvisionerError::DownloadFailed(e) => "Download failed: "@ + e@,
            ClientProvisionerError::VerificationFailed(e) => "Verification failed: "@ + e@,
            ClientProvisionerError::ExtractionFailed(e) => "Extraction failed: "@ + e@,
        }
    }

    /// Renders the error as text.
    pub fn message(&self) -> (m: String)
        ensures
            m@ == self.spec_message(),
    {
        match self {
            ClientProvisionerError::FetchFailed(e) => concat2("Fetch failed: ", e.as_str()),
            ClientProvisionerError::ParseFailed(e) => concat2("Parse failed: ", e.as_str()),
            ClientProvisionerError::DownloadFailed(e) => concat2("Download failed: ", e.as_str()),
            ClientProvisionerError::VerificationFailed(e) => concat2("Verification failed: ", e.as_str()),
            ClientProvisionerError::ExtractionFailed(e) => concat2("Extraction failed: ", e.as_str()),
        }
    }
}


/// One entry of Mojang's version list.
#[derive(Clone, Debug, PartialEq, Eq)]
pub struct MojangVersionEntry {
    pub id: String,
    pub url: String,
}

/// Mojang's version list.
#[derive(Clone, Debug, PartialEq, Eq)]
pub struct MojangVersionsIndex {
    pub versions: Vec<MojangVersionEntry>,
}

/// The client jar of a version.
#[derive(Clone, Debug, PartialEq, Eq)]
pub struct MojangClient {
    pub url: String,
    pub sha1: String,
}

/// The downloads section of a version manifest.
#[derive(Clone, Debug, PartialEq, Eq)]
pub struct MojangClientDownload {
    pub client: MojangClient,
}

/// A library jar with its place under the libraries directory.
#[derive(Clone, Debug, PartialEq, Eq)]
pub struct MojangArtifact {
    pub url: String,
    pub sha1: String,
    pub path: String,
}

/// A platform-specific native archive.
#[derive(Clone, Debug, PartialEq, Eq)]
pub struct MojangNativeArtifact {
    pub url: String,
    pub sha1: String,
}

/// The downloads of a library: its jar and its native archives by classifier.
#[derive(Clone, Debug, PartialEq, Eq)]
pub struct MojangLibraryDownload {
    pub artifact: MojangArtifact,
    pub classifiers: Vec<(String, MojangNativeArtifact)>,
}

/// A library of a version, with the classifier of its natives per platform.
#[derive(Clone, Debug, PartialEq, Eq)]
pub struct MojangLibrary {
    pub name: String,
    pub downloads: MojangLibraryDownload,
    pub natives: Vec<(String, String)>,
}

/// The manifest of one game version.
#[derive(Clone, Debug, PartialEq, Eq)]
pub struct MojangVersionManifest {
    pub downloads: MojangClientDownload,
    pub libraries: Vec<MojangLibrary>,
}

/// A library of the Fabric loader profile, by Maven coordinates.
#[derive(Clone, Debug, PartialEq, Eq)]
pub struct FabricLibrary {
    pub name: String,
    pub url: String,
}

/// The Fabric loader profile.
#[derive(Clone, Debug, PartialEq, Eq)]
pub struct FabricManifest {
    pub libraries: Vec<FabricLibrary>,
}

/// One file to fetch: from where, to where, and its SHA-1 (empty when unknown).
#[derive(Clone, Debug, PartialEq, Eq)]
pub struct FileDownload {
    pub url: String,
    pub path: String,
    pub sha1: String,
}

/// The operating system the launcher runs on.
#[derive(Clone, Copy, Debug, PartialEq, Eq, Structural)]
pub enum TargetOs {
    Windows,
    MacOs,
    Linux,
}

/// The Maven repository path of `group:artifact:version`:
/// `group/with/slashes/artifact/version/artifact-version.jar`.
pub open spec fn spec_maven_path(name: Seq<char>) -> Seq<char> {
    let f = split_on(name, ':');
    replace_all(f[0], '.', '/') + "/"@ + f[1] + "/"@ + f[2] + "/"@ + f[1] + "-"@ + f[2] + ".jar"@
}

/// Whether `name` has the three `:`-separated fields of Maven coordinates.
pub open spec fn maven_coordinates(name: Seq<char>) -> bool {
    split_on(name, ':').len() >= 3
}

/// The Maven repository path of a library named `group:artifact:version`
/// (fields after the third are ignored).
pub fn maven_name_to_path(name: &str) -> (p: String)
    requires
        maven_coordinates(name@),
    ensures
        p@ == spec_maven_path(name@),
{
    let fract = split_char(name, ':');
    let group = replace_char(fract[0].as_str(), '.', '/');
    let mut p = concat3(group.as_str(), "/", fract[1].as_str());
    p.append("/");
    p.append(fract[2].as_str());
    p.append("/");
    p.append(fract[1].as_str());
    p.append("-");
    p.append(fract[2].as_str());
    p.append(".jar");
    p
}

/// Whether `i` is the first entry of `versions` with the id `id`.
pub open spec fn first_version(versions: Seq<MojangVersionEntry>, id: Seq<char>, i: int) -> bool {
    &&& 0 <= i < versions.len()
    &&& versions[i].id@ == id
    &&& forall|j: int| 0 <= j < i ==> (#[trigger] versions[j]).id@ != id
}

/// Whether `r` is the error for an unknown version.
pub open spec fn version_not_found(r: LauncherError) -> bool {
    r matches LauncherError::ClientProvisioner(ClientProvisionerError::ParseFailed(m)) && m@ == "Version not found"@
}

/// The manifest address of the first listed version named `id`.
pub fn find_version_url(versions: &Vec<MojangVersionEntry>, id: &String) -> (r: Result<String, LauncherError>)
    ensures
        r is Ok <==> exists|i: int| 0 <= i < versions@.len() && (#[trigger] versions@[i]).id@ == id@,
        r matches Ok(u) ==> exists|i: int| first_version(versions@, id@, i) && u@ == versions@[i].url@,
        r matches Err(e) ==> version_not_found(e),
{
    let mut i: usize = 0;
    while i < versions.len()
        invariant
            0 <= i <= versions@.len(),
            forall|j: int| 0 <= j < i ==> (#[trigger] versions@[j]).id@ != id@,
        decreases versions@.len() - i,
    {
        if versions[i].id == *id {
            assert(first_version(versions@, id@, i as int));
            return Ok(versions[i].url.clone());
        }
        i = i + 1;
    }
    Err(LauncherError::ClientProvisioner(ClientProvisionerError::ParseFailed(owned("Version not found"))))
}

/// `<install_dir>/<event id>/<leaf>`.
pub open spec fn spec_instance_path(install_dir: Seq<char>, event: Event, leaf: Seq<char>) -> Seq<char> {
    install_dir + "/"@ + event.id@ + "/"@ + leaf
}

fn instance_path(install_dir: &str, event: &Event, leaf: &str) -> (p: String)
    ensures
        p@ == spec_instance_path(install_dir@, *event, leaf@),
{
    let mut p = concat3(install_dir, "/", event.id.as_str());
    p.append("/");
    p.append(leaf);
    p
}

/// Where the client jar of an event goes.
pub fn client_jar_path(install_dir: &str, event: &Event) -> (p: String)
    ensures
        p@ == spec_instance_path(install_dir@, *event, "client.jar"@),
{
    instance_path(install_dir, event, "client.jar")
}

/// The libraries directory of an event.
pub fn libraries_dir(install_dir: &str, event: &Event) -> (p: String)
    ensures
        p@ == spec_instance_path(install_dir@, *event, "libraries"@),
{
    instance_path(install_dir, event, "libraries")
}

/// The natives directory of an event.
pub fn natives_dir(install_dir: &str, event: &Event) -> (p: String)
    ensures
        p@ == spec_instance_path(install_dir@, *event, "natives"@),
{
    instance_path(install_dir, event, "natives")
}

/// `base` joined with `p` by the path rules of the platform the library is
/// built for, as `std::path::Path::join` gives it (on Unix an absolute `p`
/// replaces `base` and a `/` separates them; on Windows `\` separates them
/// and drive and root prefixes of `p` replace those of `base`). Within one
/// build the same arguments give the same result.
pub uninterp spec fn joined_path(base: Seq<char>, p: Seq<char>) -> Seq<char>;

/// std `Path::join` on UTF-8 paths: named by `joined_path`.
#[verifier::external_body]
fn join_paths(base: &str, p: &str) -> (r: String)
    ensures
        r@ == joined_path(base@, p@),
{
    std::path::Path::new(base).join(p).to_string_lossy().into_owned()
}

/// Joins two paths by the platform's rules.
pub fn path_join(base: &str, p: &str) -> (r: String)
    ensures
        r@ == joined_path(base@, p@),
{
    join_paths(base, p)
}

/// The address of the Fabric loader profile of an event.
pub open spec fn spec_fabric_profile_url(event: Event) -> Seq<char> {
    "https://meta.fabricmc.net/v2/versions/loader/"@ + event.minecraft_version@ + "/"@
        + event.modloader_version@ + "/profile/json"@
}

/// The address of the Fabric loader profile of an event.
pub fn fabric_profile_url(event: &Event) -> (u: String)
    ensures
        u@ == spec_fabric_profile_url(*event),
{
    let mut u = concat3(
        "https://meta.fabricmc.net/v2/versions/loader/",
        event.minecraft_version.as_str(),
        "/",
    );
    u.append(event.modloader_version.as_str());
    u.append("/profile/json");
    u
}

/// Whether `d` fetches `url` to `path` and checks it against `sha1`.
pub open spec fn fetches(d: FileDownload, url: Seq<char>, path: Seq<char>, sha1: Seq<char>) -> bool {
    d.url@ == url && d.path@ == path && d.sha1@ == sha1
}

/// Every file of the base client, in download order: the client jar, then
/// each library jar, then each Fabric library (whose SHA-1 is not known).
pub open spec fn plans(
    plan: Seq<FileDownload>,
    install_dir: Seq<char>,
    event: Event,
    version: MojangVersionManifest,
    fabric: FabricManifest,
) -> bool {
    let libs = version.libraries@;
    let fab = fabric.libraries@;
    let lib_dir = spec_instance_path(install_dir, event, "libraries"@);
    &&& plan.len() == 1 + libs.len() + fab.len()
    &&& fetches(
        plan[0],
        version.downloads.client.url@,
        spec_instance_path(install_dir, event, "client.jar"@),
        version.downloads.client.sha1@,
    )
    &&& forall|i: int| 0 <= i < libs.len() ==> fetches(
        #[trigger] plan[1 + i],
        libs[i].downloads.artifact.url@,
        joined_path(lib_dir, libs[i].downloads.artifact.path@),
        libs[i].downloads.artifact.sha1@,
    )
    &&& forall|j: int| 0 <= j < fab.len() ==> fetches(
        #[trigger] plan[1 + libs.len() + j],
        fab[j].url@ + spec_maven_path(fab[j].name@),
        joined_path(lib_dir, spec_maven_path(fab[j].name@)),
        Seq::empty(),
    )
}

/// The files to fetch to provision an event's client.
pub fn provision_plan(
    install_dir: &str,
    event: &Event,
    version: &MojangVersionManifest,
    fabric: &FabricManifest,
) -> (plan: Vec<FileDownload>)
    requires
        forall|j: int| 0 <= j < fabric.libraries@.len() ==> maven_coordinates(#[trigger] fabric.libraries@[j].name@),
    ensures
        plans(plan@, install_dir@, *event, *version, *fabric),
{
    let mut plan: Vec<FileDownload> = Vec::new();
    let client = &version.downloads.client;
    plan.push(FileDownload {
        url: client.url.clone(),
        path: client_jar_path(install_dir, event),
        sha1: client.sha1.clone(),
    });
    let lib_dir = libraries_dir(install_dir, event);
    let ghost libs = version.libraries@;
    let ghost fab = fabric.libraries@;
    let mut i: usize = 0;
    while i < version.libraries.len()
        invariant
            libs == version.libraries@,
            lib_dir@ == spec_instance_path(install_dir@, *event, "libraries"@),
            0 <= i <= libs.len(),
            plan@.len() == 1 + i,
            fetches(
                plan@[0],
                version.downloads.client.url@,
                spec_instance_path(install_dir@, *event, "client.jar"@),
                version.downloads.client.sha1@,
            ),
            forall|k: int| 0 <= k < i ==> fetches(
                #[trigger] plan@[1 + k],
                libs[k].downloads.artifact.url@,
                joined_path(lib_dir@, libs[k].downloads.artifact.path@),
                libs[k].downloads.artifact.sha1@,
            ),
        decreases libs.len() - i,
    {
        let artifact = &version.libraries[i].downloads.artifact;
        let path = path_join(lib_dir.as_str(), artifact.path.as_str());
        plan.push(FileDownload { url: artifact.url.clone(), path, sha1: artifact.sha1.clone() });
        i = i + 1;
    }
    let mut j: usize = 0;
    while j < fabric.libraries.len()
        invariant
            libs == version.libraries@,
            fab == fabric.libraries@,
            forall|j: int| 0 <= j < fab.len() ==> maven_coordinates(#[trigger] fab[j].name@),
            lib_dir@ == spec_instance_path(install_dir@, *event, "libraries"@),
            0 <= j <= fab.len(),
            plan@.len() == 1 + libs.len() + j,
            fetches(
                plan@[0],
                version.downloads.client.url@,
                spec_instance_path(install_dir@, *event, "client.jar"@),
                version.downloads.client.sha1@,
            ),
            forall|k: int| 0 <= k < libs.len() ==> fetches(
                #[trigger] plan@[1 + k],
                libs[k].downloads.artifact.url@,
                joined_path(lib_dir@, libs[k].downloads.artifact.path@),
                libs[k].downloads.artifact.sha1@,
            ),
            forall|k: int| 0 <= k < j ==> fetches(
                #[trigger] plan@[1 + libs.len() + k],
                fab[k].url@ + spec_maven_path(fab[k].name@),
                joined_path(lib_dir@, spec_maven_path(fab[k].name@)),
                Seq::empty(),
            ),
        decreases fab.len() - j,
    {
        plan.push(fabric_download(install_dir, event, &fabric.libraries[j]));
        j = j + 1;
    }
    plan
}

/// The download of one Fabric library: from its repository at its Maven
/// path, into the event's libraries directory, with no SHA-1 to check.
pub fn fabric_download(install_dir: &str, event: &Event, lib: &FabricLibrary) -> (d: FileDownload)
    requires
        maven_coordinates(lib.name@),
    ensures
        fetches(
            d,
            lib.url@ + spec_maven_path(lib.name@),
            joined_path(spec_instance_path(install_dir@, *event, "libraries"@), spec_maven_path(lib.name@)),
            Seq::empty(),
        ),
{
    let lib_dir = libraries_dir(install_dir, event);
    let lib_path = maven_name_to_path(lib.name.as_str());
    let full_path = path_join(lib_dir.as_str(), lib_path.as_str());
    let url = concat2(lib.url.as_str(), lib_path.as_str());
    FileDownload { url, path: full_path, sha1: String::new() }
}

/// Whether `r` is a verification failure with the text `m`.
pub open spec fn verification_failure(r: ClientProvisionerError, m: Seq<char>) -> bool {
    r matches ClientProvisionerError::VerificationFailed(t) && t@ == m
}

/// Checks a fetched file against its SHA-1 (lowercase hex); an empty
/// expected digest accepts any contents.
pub fn check_download(bytes: &[u8], sha1: &String) -> (r: Result<(), ClientProvisionerError>)
    ensures
        r is Ok <==> (sha1@.len() == 0 || spec_sha1_hex(bytes@) == sha1@),
        r matches Err(e) ==> verification_failure(e, "SHA1 mismatch"@),
{
    if sha1.as_str().unicode_len() == 0 {
        return Ok(());
    }
    let hash = sha1_hex(bytes);
    if hash == *sha1 {
        Ok(())
    } else {
        Err(ClientProvisionerError::VerificationFailed(owned("SHA1 mismatch")))
    }
}

/// Checks a native archive against its SHA-1 (lowercase hex).
pub fn check_native(bytes: &[u8], sha1: &String) -> (r: Result<(), ClientProvisionerError>)
    ensures
        r is Ok <==> spec_sha1_hex(bytes@) == sha1@,
        r matches Err(e) ==> verification_failure(e, "Native SHA1 mismatch"@),
{
    let hash = sha1_hex(bytes);
    if hash == *sha1 {
        Ok(())
    } else {
        Err(ClientProvisionerError::VerificationFailed(owned("Native SHA1 mismatch")))
    }
}

/// The key under which Mojang lists natives for `os`.
pub open spec fn spec_natives_key(os: TargetOs) -> Seq<char> {
    match os {
        TargetOs::Windows => "windows"@,
        TargetOs::MacOs => "osx"@,
        TargetOs::Linux => "linux"@,
    }
}

/// The key under which Mojang lists natives for `os`.
pub fn natives_key(os: TargetOs) -> (k: &'static str)
    ensures
        k@ == spec_natives_key(os),
{
    match os {
        TargetOs::Windows => "windows",
        TargetOs::MacOs => "osx",
        TargetOs::Linux => "linux",
    }
}

/// The native archive of a library for the natives key `key`: the
/// library's classifier for that key, looked up among its classifiers.
pub open spec fn spec_native_of(lib: MojangLibrary, key: Seq<char>) -> Option<MojangNativeArtifact> {
    match lookup_last(lib.natives@, key) {
        Some(classifier) => lookup_last(lib.downloads.classifiers@, classifier@),
        None => None,
    }
}

/// The native archive of a library for the natives key `key`, if it has one.
pub fn native_of<'a>(lib: &'a MojangLibrary, key: &String) -> (r: Option<&'a MojangNativeArtifact>)
    ensures
        r is None <==> spec_native_of(*lib, key@) is None,
        r matches Some(n) ==> spec_native_of(*lib, key@) == Some(*n),
{
    match find_last(&lib.natives, key) {
        Some(classifier) => find_last(&lib.downloads.classifiers, classifier),
        None => None,
    }
}

/// The native archives of a version for `key`, in library order.
pub open spec fn spec_natives(libs: Seq<MojangLibrary>, key: Seq<char>) -> Seq<MojangNativeArtifact>
    decreases libs.len(),
{
    if libs.len() == 0 {
        Seq::empty()
    } else {
        let rest = spec_natives(libs.drop_last(), key);
        match spec_native_of(libs.last(), key) {
            Some(n) => rest.push(n),
            None => rest,
        }
    }
}

/// The native archives to fetch and unpack for `os`, in library order.
pub fn native_downloads(version: &MojangVersionManifest, os: TargetOs) -> (r: Vec<MojangNativeArtifact>)
    ensures
        r@.len() == spec_natives(version.libraries@, spec_natives_key(os)).len(),
        forall|k: int| 0 <= k < r@.len() ==> {
            &&& (#[trigger] r@[k]).url@ == spec_natives(version.libraries@, spec_natives_key(os))[k].url@
            &&& r@[k].sha1@ == spec_natives(version.libraries@, spec_natives_key(os))[k].sha1@
        },
{
    let key = owned(natives_key(os));
    let ghost libs = version.libraries@;
    let mut r: Vec<MojangNativeArtifact> = Vec::new();
    let mut i: usize = 0;
    while i < version.libraries.len()
        invariant
            libs == version.libraries@,
            key@ == spec_natives_key(os),
            0 <= i <= libs.len(),
            r@.len() == spec_natives(libs.take(i as int), key@).len(),
            forall|k: int| 0 <= k < r@.len() ==> {
                &&& (#[trigger] r@[k]).url@ == spec_natives(libs.take(i as int), key@)[k].url@
                &&& r@[k].sha1@ == spec_natives(libs.take(i as int), key@)[k].sha1@
            },
        decreases libs.len() - i,
    {
        assert(libs.take(i + 1).drop_last() =~= libs.take(i as int));
        match native_of(&version.libraries[i], &key) {
            Some(n) => {
                r.push(MojangNativeArtifact { url: n.url.clone(), sha1: n.sha1.clone() });
            },
            None => {},
        }
        i = i + 1;
    }
    assert(libs.take(i as int) =~= libs);
    r
}

/// Whether an archive entry names a directory (its name ends in `/`);
/// directories are not extracted.
pub fn is_directory_entry(name: &str) -> (b: bool)
    ensures
        b == (name@.len() > 0 && name@.last() == '/'),
{
    ends_with_char(name, '/')
}

/// Where an extracted native entry is written.
pub fn native_entry_path(natives_dir: &str, name: &str) -> (p: String)
    ensures
        p@ == joined_path(natives_dir@, name@),
{
    path_join(natives_dir, name)
}


/// The entries of a zip archive, in archive order, each as its stored name
/// and its decompressed bytes; or the text of the error that stops decoding
/// (as `zip::ZipArchive` reports it).
pub uninterp spec fn zip_entries_of(archive: Seq<u8>) -> Result<Seq<(Seq<char>, Seq<u8>)>, Seq<char>>;

/// One entry of an archive: its stored name and its bytes.
#[derive(Clone, Debug, PartialEq, Eq)]
pub struct ArchiveEntry {
    pub name: String,
    pub bytes: Vec<u8>,
}

/// One file to write: where, and its bytes.
#[derive(Clone, Debug, PartialEq, Eq)]
pub struct NativeFile {
    pub path: String,
    pub bytes: Vec<u8>,
}

/// The names and contents of a list of archive entries.
pub open spec fn entry_views(v: Seq<ArchiveEntry>) -> Seq<(Seq<char>, Seq<u8>)> {
    v.map_values(|e: ArchiveEntry| (e.name@, e.bytes@))
}

/// The paths and contents of a list of files.
pub open spec fn file_views(v: Seq<NativeFile>) -> Seq<(Seq<char>, Seq<u8>)> {
    v.map_values(|f: NativeFile| (f.path@, f.bytes@))
}

/// Whether a decoding result carries exactly the entries, or the error
/// text, of `decoded`.
pub open spec fn decodes_as(
    r: Result<Vec<ArchiveEntry>, String>,
    decoded: Result<Seq<(Seq<char>, Seq<u8>)>, Seq<char>>,
) -> bool {
    match r {
        Ok(v) => decoded matches Ok(es) && es == entry_views(v@),
        Err(e) => decoded matches Err(m) && m == e@,
    }
}

/// `zip::ZipArchive::new` over the bytes, then each entry by index
/// (`by_index`, `name`, read to the end): the entries named by
/// `zip_entries_of`, or the text of the first error.
#[verifier::external_body]
pub(crate) fn zip_entries(archive: &[u8]) -> (r: Result<Vec<ArchiveEntry>, String>)
    ensures
        decodes_as(r, zip_entries_of(archive@)),
{
    let mut zip = zip::ZipArchive::new(std::io::Cursor::new(archive)).map_err(|e| e.to_string())?;
    let mut entries = Vec::new();
    for i in 0..zip.len() {
        let mut file = zip.by_index(i).map_err(|e| e.to_string())?;
        let mut bytes = Vec::new();
        std::io::Read::read_to_end(&mut file, &mut bytes).map_err(|e| e.to_string())?;
        entries.push(ArchiveEntry { name: file.name().to_string(), bytes });
    }
    Ok(entries)
}

/// The files a native archive unpacks to: each entry that is not a
/// directory, in archive order, at its name joined to the natives directory,
/// with its bytes.
pub open spec fn spec_native_files(dir: Seq<char>, entries: Seq<(Seq<char>, Seq<u8>)>) -> Seq<(Seq<char>, Seq<u8>)>
    decreases entries.len(),
{
    if entries.len() == 0 {
        Seq::empty()
    } else {
        let rest = spec_native_files(dir, entries.drop_last());
        let e = entries.last();
        if e.0.len() > 0 && e.0.last() == '/' {
            rest
        } else {
            rest.push((joined_path(dir, e.0), e.1))
        }
    }
}

/// What unpacking a native archive into `dir` gives, given its expected SHA-1.
pub open spec fn unpacks_to(
    r: Result<Vec<NativeFile>, ClientProvisionerError>,
    dir: Seq<char>,
    archive: Seq<u8>,
    sha1: Seq<char>,
) -> bool {
    if spec_sha1_hex(archive) != sha1 {
        r matches Err(e) && verification_failure(e, "Native SHA1 mismatch"@)
    } else {
        match zip_entries_of(archive) {
            Ok(es) => r matches Ok(v) && file_views(v@) == spec_native_files(dir, es),
            Err(m) => r matches Err(ClientProvisionerError::ExtractionFailed(t)) && t@ == m,
        }
    }
}

/// Checks a native archive against its SHA-1 and lists the files it
/// unpacks to under `natives_dir`: its non-directory entries, in order.
pub fn native_files(natives_dir: &str, archive: &[u8], sha1: &String) -> (r: Result<Vec<NativeFile>, ClientProvisionerError>)
    ensures
        unpacks_to(r, natives_dir@, archive@, sha1@),
{
    match check_native(archive, sha1) {
        Err(e) => {
            return Err(e);
        },
        Ok(()) => {},
    }
    let entries = match zip_entries(archive) {
        Err(m) => {
            return Err(ClientProvisionerError::ExtractionFailed(m));
        },
        Ok(entries) => entries,
    };
    let ghost orig = entry_views(entries@);
    let total = entries.len();
    let mut rest = entries;
    let mut out: Vec<NativeFile> = Vec::new();
    let mut k: usize = 0;
    while rest.len() > 0
        invariant
            k + rest@.len() == orig.len(),
            orig.len() == total,
            entry_views(rest@) == orig.skip(k as int),
            file_views(out@) == spec_native_files(natives_dir@, orig.take(k as int)),
        decreases rest@.len(),
    {
        let ghost before_rest = rest@;
        let entry = rest.remove(0);
        let name = entry.name;
        let bytes = entry.bytes;
        proof {
            assert(entry_views(before_rest)[0] == orig[k as int]);
            assert(name@ == orig[k as int].0 && bytes@ == orig[k as int].1);
            assert(orig.take(k + 1).drop_last() =~= orig.take(k as int));
            assert(entry_views(rest@) =~= orig.skip(k + 1)) by {
                assert forall|i: int| 0 <= i < rest@.len() implies #[trigger] entry_views(rest@)[i] == orig.skip(k + 1)[i] by {
                    assert(rest@[i] == before_rest[i + 1]);
                    assert(entry_views(before_rest)[i + 1] == orig.skip(k as int)[i + 1]);
                }
            }
        }
        if !is_directory_entry(name.as_str()) {
            let path = native_entry_path(natives_dir, name.as_str());
            let ghost before_out = out@;
            let ghost pv = path@;
            let ghost bv = bytes@;
            out.push(NativeFile { path, bytes });
            assert(file_views(out@) =~= file_views(before_out).push((pv, bv)));
        }
        k = k + 1;
    }
    assert(orig.take(k as int) =~= orig);
    Ok(out)
}


/// A path with its extension replaced by `tmp` (or `.tmp` added when it has
/// none), as `std::path::Path::with_extension` gives it by the path rules of
/// the platform the library is built for (which characters separate
/// components differs between Unix and Windows). Within one build the same
/// path gives the same result.
pub uninterp spec fn with_tmp_extension(path: Seq<char>) -> Seq<char>;

/// std `Path::with_extension("tmp")` on a UTF-8 path: named by
/// `with_tmp_extension`.
#[verifier::external_body]
fn tmp_extension(path: &str) -> (r: String)
    ensures
        r@ == with_tmp_extension(path@),
{
    std::path::Path::new(path).with_extension("tmp").to_string_lossy().into_owned()
}

/// Where a file is written while it downloads, before it is checked and
/// moved to its place.
pub fn download_tmp_path(task: &FileDownload) -> (p: String)
    ensures
        p@ == with_tmp_extension(task.path@),
{
    tmp_extension(task.path.as_str())
}

} // verus!
