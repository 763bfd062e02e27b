//! Downloading an event's assets: paths, progress, SHA-256 verification and
//! deciding whether an installation is complete.

use vstd::prelude::*;
use crate::assoc::TextTable;
use crate::digest::{sha256_hex, spec_sha256_hex};
use crate::error::LauncherError;
use crate::event_store::{Asset, Event};
use crate::text::{concat2, concat3, owned};

verus! {

/// Where a single asset download stands.
#[derive(Clone, Copy, Debug, PartialEq, Eq, Structural)]
pub enum DownloadStatus {
    Pending,
    Downloading,
    Done,
    Failed,
}

/// A progress report for one asset of one event.
#[derive(Clone, Debug, PartialEq, Eq)]
pub struct DownloadProgress {
    pub event_id: String,
    pub asset_id: String,
    pub downloaded_bytes: u64,
    pub total_bytes: u64,
    pub status: DownloadStatus,
}

/// How the download of an event ended.
#[derive(Clone, Debug, PartialEq, Eq)]
pub enum DownloadOutcome {
    Success,
    Failure(String),
}

/// The final report for an event's download.
#[derive(Clone, Debug, PartialEq, Eq)]
pub struct DownloadResult {
    pub event_id: String,
    pub outcome: DownloadOutcome,
}

/// Errors of the downloader.
#[derive(Clone, Debug, PartialEq, Eq)]
pub enum DownloaderError {
    Io(String),
    DownloadFailed(String),
    VerificationFailed(String),
}

impl DownloaderError {
    /// The text that describes the error.
    pub open spec fn spec_message(&self) -> Seq<char> {
        match self {
            DownloaderError::Io(e) => "Error in Input/Output: "@ + e@,
            DownloaderError::DownloadFailed(e) => "The download has failed: "@ + e@,
            DownloaderError::VerificationFailed(e) => "The verification has failed: "@ + e@,
        }
    }

    /// Renders the error as text.
    pub fn message(&self) -> (m: String)
        ensures
            m@ == self.spec_message(),
    {
        match self {
            DownloaderError::Io(e) => concat2("Error in Input/Output: ", e.as_str()),
            DownloaderError::DownloadFailed(e) => concat2("The download has failed: ", e.as_str()),
            DownloaderError::VerificationFailed(e) => concat2("The verification has failed: ", e.as_str()),
        }
    }
}

/// Where an asset is installed: `<install_dir>/<path>`.
pub fn asset_path(install_dir: &str, asset: &Asset) -> (p: String)
    ensures
        p@ == install_dir@ + "/"@ + asset.path@,
{
    concat3(install_dir, "/", asset.path.as_str())
}

/// Where an asset is written while it downloads: `<install_dir>/<path>.tmp`.
pub fn asset_tmp_path(install_dir: &str, asset: &Asset) -> (p: String)
    ensures
        p@ == install_dir@ + "/"@ + asset.path@ + ".tmp"@,
{
    let mut p = concat3(install_dir, "/", asset.path.as_str());
    p.append(".tmp");
    p
}

/// The report sent after a chunk of an asset arrived.
pub fn chunk_progress(event_id: &str, asset: &Asset, downloaded_bytes: u64, total_bytes: u64) -> (p: DownloadProgress)
    ensures
        p.event_id@ == event_id@,
        p.asset_id@ == asset.id@,
        p.downloaded_bytes == downloaded_bytes,
        p.total_bytes == total_bytes,
        p.status == DownloadStatus::Downloading,
{
    DownloadProgress {
        event_id: owned(event_id),
        asset_id: asset.id.clone(),
        downloaded_bytes,
        total_bytes,
        status: DownloadStatus::Downloading,
    }
}

/// The bytes received so far after one more chunk.
pub fn add_chunk(downloaded_bytes: u64, chunk_len: usize) -> (n: u64)
    requires
        downloaded_bytes + chunk_len <= u64::MAX,
    ensures
        n == downloaded_bytes + chunk_len,
{
    downloaded_bytes + chunk_len as u64
}

/// The text of a hash mismatch.
pub open spec fn mismatch_text(expected: Seq<char>, actual: Seq<char>) -> Seq<char> {
    "Hash mismatch: expected "@ + expected + ", got "@ + actual
}

/// Checks a downloaded file against its expected SHA-256 (lowercase hex).
/// `contents` is the file as read, or the text of the read error.
pub fn verify_sha256(contents: Result<Vec<u8>, String>, expected: &String) -> (r: Result<(), LauncherError>)
    ensures
        contents matches Err(e) ==> r == Err::<(), LauncherError>(LauncherError::Downloader(DownloaderError::Io(e))),
        contents matches Ok(b) ==> {
            &&& (r is Ok <==> spec_sha256_hex(b@) == expected@)
            &&& (r matches Err(e) ==> e matches LauncherError::Downloader(DownloaderError::VerificationFailed(m))
                && m@ == mismatch_text(expected@, spec_sha256_hex(b@)))
        },
{
    match contents {
        Err(e) => Err(LauncherError::Downloader(DownloaderError::Io(e))),
        Ok(bytes) => {
            let actual = sha256_hex(bytes.as_slice());
            if actual == *expected {
                Ok(())
            } else {
                let mut m = concat3("Hash mismatch: expected ", expected.as_str(), ", got ");
                m.append(actual.as_str());
                Err(LauncherError::Downloader(DownloaderError::VerificationFailed(m)))
            }
        },
    }
}

/// The on-disk digests of an event's assets: for each readable asset file,
/// its id maps to the lowercase hex SHA-256 of its contents; a later asset
/// with the same id overrides an earlier one.
pub open spec fn spec_disk_hashes(assets: Seq<Asset>, files: Seq<Option<Vec<u8>>>) -> Map<Seq<char>, Seq<char>>
    decreases assets.len(),
{
    if assets.len() == 0 || files.len() == 0 {
        Map::empty()
    } else {
        let m = spec_disk_hashes(assets.drop_last(), files.drop_last());
        match files.last() {
            Some(b) => m.insert(assets.last().id@, spec_sha256_hex(b@)),
            None => m,
        }
    }
}

/// Every asset has an on-disk digest equal to the one it expects.
pub open spec fn spec_ready(assets: Seq<Asset>, hashes: Map<Seq<char>, Seq<char>>) -> bool {
    forall|i: int| 0 <= i < assets.len() ==> {
        &&& hashes.dom().contains(#[trigger] assets[i].id@)
        &&& hashes[assets[i].id@] == assets[i].sha256@
    }
}

/// No two assets share an id.
pub open spec fn distinct_ids(assets: Seq<Asset>) -> bool {
    forall|i: int, j: int| 0 <= i < j < assets.len() ==> (#[trigger] assets[i]).id@ != (#[trigger] assets[j]).id@
}

proof fn lemma_disk_hashes_keys(assets: Seq<Asset>, files: Seq<Option<Vec<u8>>>, k: Seq<char>)
    requires
        spec_disk_hashes(assets, files).dom().contains(k),
    ensures
        exists|i: int| 0 <= i < assets.len() && (#[trigger] assets[i]).id@ == k,
    decreases assets.len(),
{
    if assets.len() > 0 && files.len() > 0 {
        let m = spec_disk_hashes(assets.drop_last(), files.drop_last());
        if m.dom().contains(k) {
            lemma_disk_hashes_keys(assets.drop_last(), files.drop_last(), k);
            let i = choose|i: int| 0 <= i < assets.drop_last().len() && (#[trigger] assets.drop_last()[i]).id@ == k;
            assert(assets[i] == assets.drop_last()[i]);
        } else {
            assert(assets[assets.len() - 1].id@ == k);
        }
    }
}

/// With distinct ids, an asset's id has an on-disk digest exactly when its
/// file was readable, and that digest is the SHA-256 of its file.
pub proof fn lemma_disk_hashes_distinct(assets: Seq<Asset>, files: Seq<Option<Vec<u8>>>)
    requires
        assets.len() == files.len(),
        distinct_ids(assets),
    ensures
        forall|i: int| 0 <= i < assets.len() ==> {
            &&& (spec_disk_hashes(assets, files).dom().contains(#[trigger] assets[i].id@) <==> files[i] is Some)
            &&& (files[i] is Some ==> spec_disk_hashes(assets, files)[assets[i].id@] == spec_sha256_hex(files[i]->0@))
        },
    decreases assets.len(),
{
    if assets.len() > 0 {
        let ia = assets.drop_last();
        let fa = files.drop_last();
        let n = assets.len() - 1;
        assert(distinct_ids(ia)) by {
            assert forall|i: int, j: int| 0 <= i < j < ia.len() implies (#[trigger] ia[i]).id@ != (#[trigger] ia[j]).id@ by {
                assert(ia[i] == assets[i] && ia[j] == assets[j]);
            }
        }
        lemma_disk_hashes_distinct(ia, fa);
        let m = spec_disk_hashes(ia, fa);
        if m.dom().contains(assets[n].id@) {
            lemma_disk_hashes_keys(ia, fa, assets[n].id@);
            let i = choose|i: int| 0 <= i < ia.len() && (#[trigger] ia[i]).id@ == assets[n].id@;
            assert(ia[i] == assets[i]);
            assert(false);
        }
        assert forall|i: int| 0 <= i < assets.len() implies {
            &&& (spec_disk_hashes(assets, files).dom().contains(#[trigger] assets[i].id@) <==> files[i] is Some)
            &&& (files[i] is Some ==> spec_disk_hashes(assets, files)[assets[i].id@] == spec_sha256_hex(files[i]->0@))
        } by {
            if i < n {
                assert(ia[i] == assets[i]);
                assert(fa[i] == files[i]);
                assert(assets[i].id@ != assets[n].id@);
            }
        }
    }
}

/// With distinct ids, an event is ready exactly when every asset's file was
/// readable and hashes to the SHA-256 the asset expects: a missing or
/// altered file is noticed.
pub proof fn lemma_ready_iff_intact(assets: Seq<Asset>, files: Seq<Option<Vec<u8>>>)
    requires
        assets.len() == files.len(),
        distinct_ids(assets),
    ensures
        spec_ready(assets, spec_disk_hashes(assets, files)) <==> forall|i: int| 0 <= i < assets.len() ==> {
            &&& (#[trigger] files[i]) is Some
            &&& spec_sha256_hex(files[i]->0@) == assets[i].sha256@
        },
{
    lemma_disk_hashes_distinct(assets, files);
    let m = spec_disk_hashes(assets, files);
    if spec_ready(assets, m) {
        assert forall|i: int| 0 <= i < assets.len() implies {
            &&& (#[trigger] files[i]) is Some
            &&& spec_sha256_hex(files[i]->0@) == assets[i].sha256@
        } by {
            assert(m.dom().contains(assets[i].id@));
        }
    }
    if forall|i: int| 0 <= i < assets.len() ==> {
        &&& (#[trigger] files[i]) is Some
        &&& spec_sha256_hex(files[i]->0@) == assets[i].sha256@
    } {
        assert forall|i: int| 0 <= i < assets.len() implies {
            &&& m.dom().contains(#[trigger] assets[i].id@)
            &&& m[assets[i].id@] == assets[i].sha256@
        } by {
            assert(files[i] is Some);
        }
    }
}

/// Assets that share an id expect the same digest.
pub open spec fn consistent_ids(assets: Seq<Asset>) -> bool {
    forall|i: int, j: int|
        0 <= i < assets.len() && 0 <= j < assets.len() && (#[trigger] assets[i]).id@ == (#[trigger] assets[j]).id@
            ==> assets[i].sha256@ == assets[j].sha256@
}

proof fn lemma_disk_hashes_cover(assets: Seq<Asset>, files: Seq<Option<Vec<u8>>>, i: int)
    requires
        assets.len() == files.len(),
        0 <= i < assets.len(),
        files[i] is Some,
    ensures
        spec_disk_hashes(assets, files).dom().contains(assets[i].id@),
    decreases assets.len(),
{
    let n = assets.len() - 1;
    if i < n {
        lemma_disk_hashes_cover(assets.drop_last(), files.drop_last(), i);
        assert(assets.drop_last()[i] == assets[i]);
        assert(files.drop_last()[i] == files[i]);
    }
}

proof fn lemma_disk_hashes_value(assets: Seq<Asset>, files: Seq<Option<Vec<u8>>>, k: Seq<char>)
    requires
        assets.len() == files.len(),
        spec_disk_hashes(assets, files).dom().contains(k),
    ensures
        exists|j: int| {
            &&& 0 <= j < assets.len()
            &&& (#[trigger] assets[j]).id@ == k
            &&& files[j] is Some
            &&& spec_disk_hashes(assets, files)[k] == spec_sha256_hex(files[j]->0@)
        },
    decreases assets.len(),
{
    let n = assets.len() - 1;
    let ia = assets.drop_last();
    let fa = files.drop_last();
    if files[n] is Some && assets[n].id@ == k {
        assert(assets[n].id@ == k);
    } else {
        lemma_disk_hashes_value(ia, fa, k);
        let j = choose|j: int| {
            &&& 0 <= j < ia.len()
            &&& (#[trigger] ia[j]).id@ == k
            &&& fa[j] is Some
            &&& spec_disk_hashes(ia, fa)[k] == spec_sha256_hex(fa[j]->0@)
        };
        assert(ia[j] == assets[j] && fa[j] == files[j]);
    }
}

/// A completed download makes the event ready: when the file of every
/// asset holds bytes whose SHA-256 is the one the asset expects (what
/// `verify_sha256` accepts before a file is moved into place), and assets
/// that share an id expect the same digest, the on-disk digests make the
/// event ready.
pub proof fn lemma_downloaded_event_is_ready(assets: Seq<Asset>, files: Seq<Option<Vec<u8>>>)
    requires
        assets.len() == files.len(),
        consistent_ids(assets),
        forall|i: int| 0 <= i < assets.len() ==> {
            &&& (#[trigger] files[i]) is Some
            &&& spec_sha256_hex(files[i]->0@) == assets[i].sha256@
        },
    ensures
        spec_ready(assets, spec_disk_hashes(assets, files)),
{
    let m = spec_disk_hashes(assets, files);
    assert forall|i: int| 0 <= i < assets.len() implies {
        &&& m.dom().contains(#[trigger] assets[i].id@)
        &&& m[assets[i].id@] == assets[i].sha256@
    } by {
        assert(files[i] is Some);
        lemma_disk_hashes_cover(assets, files, i);
        lemma_disk_hashes_value(assets, files, assets[i].id@);
        let j = choose|j: int| {
            &&& 0 <= j < assets.len()
            &&& (#[trigger] assets[j]).id@ == assets[i].id@
            &&& files[j] is Some
            &&& m[assets[i].id@] == spec_sha256_hex(files[j]->0@)
        };
        assert(files[j] is Some);
    }
}

/// Computes the on-disk digests; `files[i]` is the contents of the file of
/// `assets[i]`, or `None` when it could not be read.
pub fn build_disk_hashes(assets: &Vec<Asset>, files: &Vec<Option<Vec<u8>>>) -> (t: TextTable)
    requires
        assets@.len() == files@.len(),
    ensures
        t@ == spec_disk_hashes(assets@, files@),
{
    let mut t = TextTable::new();
    let mut i: usize = 0;
    while i < assets.len()
        invariant
            0 <= i <= assets@.len(),
            assets@.len() == files@.len(),
            t@ == spec_disk_hashes(assets@.take(i as int), files@.take(i as int)),
        decreases assets@.len() - i,
    {
        proof {
            assert(assets@.take(i + 1).drop_last() =~= assets@.take(i as int));
            assert(files@.take(i + 1).drop_last() =~= files@.take(i as int));
        }
        match &files[i] {
            Some(bytes) => {
                let h = sha256_hex(bytes.as_slice());
                t.insert(assets[i].id.clone(), h);
            },
            None => {},
        }
        i = i + 1;
    }
    assert(assets@.take(i as int) =~= assets@);
    assert(files@.take(i as int) =~= files@);
    t
}

/// Whether every asset's on-disk digest is present and equal to the expected one.
pub fn is_ready(assets: &Vec<Asset>, hashes: &TextTable) -> (b: bool)
    ensures
        b == spec_ready(assets@, hashes@),
{
    let mut i: usize = 0;
    while i < assets.len()
        invariant
            0 <= i <= assets@.len(),
            forall|k: int| 0 <= k < i ==> {
                &&& hashes@.dom().contains(#[trigger] assets@[k].id@)
                &&& hashes@[assets@[k].id@] == assets@[k].sha256@
            },
        decreases assets@.len() - i,
    {
        match hashes.get(&assets[i].id) {
            None => {
                return false;
            },
            Some(h) => {
                if !(*h == assets[i].sha256) {
                    return false;
                }
            },
        }
        i = i + 1;
    }
    true
}

/// Whether the installed files of `event` are complete and intact;
/// `files[i]` is the contents of the file of the `i`-th asset, if readable.
pub fn event_is_ready(event: &Event, files: &Vec<Option<Vec<u8>>>) -> (b: bool)
    requires
        event.assets@.len() == files@.len(),
    ensures
        b == spec_ready(event.assets@, spec_disk_hashes(event.assets@, files@)),
{
    let hashes = build_disk_hashes(&event.assets, files);
    is_ready(&event.assets, &hashes)
}

/// The report of a completed download.
pub fn success_result(event_id: &str) -> (r: DownloadResult)
    ensures
        r.event_id@ == event_id@,
        r.outcome == DownloadOutcome::Success,
{
    DownloadResult { event_id: owned(event_id), outcome: DownloadOutcome::Success }
}

/// The report of a failed download, carrying the error's text.
pub fn failure_result(event_id: &str, error: &LauncherError) -> (r: DownloadResult)
    ensures
        r.event_id@ == event_id@,
        r.outcome matches DownloadOutcome::Failure(m) && m@ == error.spec_message(),
{
    DownloadResult { event_id: owned(event_id), outcome: DownloadOutcome::Failure(error.message()) }
}


/// What the downloader of an event does next.
#[derive(Clone, Debug, PartialEq, Eq)]
pub enum DownloadStep {
    /// Download the asset at this index.
    Fetch(usize),
    /// Every asset arrived: report this result.
    Complete(DownloadResult),
    /// An asset failed: stop with this error.
    Fail(LauncherError),
}

/// The step after `completed` assets of `event` were handled and the last
/// of them ended with `last` (`Ok` before the first): a failure stops the
/// download with its error; otherwise the next asset is fetched, in order,
/// and success is reported once all of them arrived.
pub fn download_step(event: &Event, completed: usize, last: Result<(), LauncherError>) -> (s: DownloadStep)
    requires
        completed <= event.assets@.len(),
    ensures
        last matches Err(e) ==> s == DownloadStep::Fail(e),
        last is Ok && completed < event.assets@.len() ==> s == DownloadStep::Fetch(completed),
        last is Ok && completed == event.assets@.len() ==> (s matches DownloadStep::Complete(r)
            && r.event_id@ == event.id@ && r.outcome == DownloadOutcome::Success),
{
    match last {
        Err(e) => DownloadStep::Fail(e),
        Ok(()) => {
            if completed < event.assets.len() {
                DownloadStep::Fetch(completed)
            } else {
                DownloadStep::Complete(success_result(event.id.as_str()))
            }
        },
    }
}

} // verus!
