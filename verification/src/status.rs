//! The front-end's model of a download: kind, state, priority, progress
//! and metadata snapshots, list filtering, and the percent display.

use vstd::prelude::*;

verus! {

use crate::format::DownloadState;
use crate::id::DownloadId;
use crate::numfmt::{fixed1_chars, half_even, half_even_u128, fixed1_string};

/// Type of download.
#[derive(Debug, Clone, Copy, PartialEq, Eq, Structural)]
pub enum DownloadKind {
    /// HTTP or HTTPS download.
    Http,
    /// BitTorrent download from a torrent metafile.
    Torrent,
    /// BitTorrent download from a magnet link.
    Magnet,
}

/// Download priority; higher is admitted first.
#[derive(Debug, Clone, Copy, PartialEq, Eq, Structural)]
pub enum DownloadPriority {
    Low,
    Normal,
    High,
    Critical,
}

impl DownloadPriority {
    /// The rank of the priority: higher runs first.
    pub open spec fn rank(self) -> nat {
        match self {
            DownloadPriority::Low => 0,
            DownloadPriority::Normal => 1,
            DownloadPriority::High => 2,
            DownloadPriority::Critical => 3,
        }
    }
}

/// Progress snapshot of a download.
#[derive(Debug, Clone, Copy, PartialEq, Eq, Structural)]
pub struct DownloadProgress {
    /// Total size in bytes, unknown until probed.
    pub total_size: Option<u64>,
    /// Bytes completed so far.
    pub completed_size: u64,
    /// Download speed in bytes per second.
    pub download_speed: u64,
    /// Upload speed in bytes per second.
    pub upload_speed: u64,
    /// Active connections.
    pub connections: u32,
    /// Seeders seen, for torrents.
    pub seeders: u32,
    /// Peers seen, for torrents.
    pub peers: u32,
    /// Estimated seconds remaining.
    pub eta_seconds: Option<u64>,
}

/// One file of a torrent, as the status view shows it.
#[derive(Debug, Clone)]
pub struct TorrentFileEntry {
    /// Index within the torrent.
    pub index: usize,
    /// Path within the torrent.
    pub path: String,
    /// Size in bytes.
    pub size: u64,
    /// Whether the file is selected for download.
    pub selected: bool,
    /// Bytes completed for this file.
    pub completed: u64,
}

/// Torrent detail attached to a download status.
#[derive(Debug, Clone)]
pub struct TorrentStatusInfo {
    /// Files in the torrent.
    pub files: Vec<TorrentFileEntry>,
    /// Piece length in bytes.
    pub piece_length: u64,
    /// Number of pieces.
    pub pieces_count: usize,
    /// Whether the torrent is private.
    pub private_flag: bool,
}

/// One connected peer.
#[derive(Debug, Clone)]
pub struct PeerInfo {
    /// Peer address.
    pub ip: String,
    /// Peer port.
    pub port: u16,
    /// Client name, when known.
    pub client: Option<String>,
    /// Download speed from this peer.
    pub download_speed: u64,
    /// Upload speed to this peer.
    pub upload_speed: u64,
    /// The peer's completion in thousandths.
    pub progress_permille: u32,
    /// Whether we choke them.
    pub am_choking: bool,
    /// Whether they choke us.
    pub peer_choking: bool,
}

/// Descriptive metadata of a download.
#[derive(Debug, Clone)]
pub struct DownloadMetadata {
    /// Display name.
    pub name: String,
    /// Original URL, for HTTP.
    pub url: Option<String>,
    /// Magnet link, for magnets.
    pub magnet_uri: Option<String>,
    /// Info hash in hex, for torrents.
    pub info_hash: Option<String>,
    /// Save directory.
    pub save_dir: String,
    /// Output filename, when overridden.
    pub filename: Option<String>,
}

/// Full status snapshot of one download.
#[derive(Debug, Clone)]
pub struct DownloadStatus {
    /// Unique identifier.
    pub id: DownloadId,
    /// Type of download.
    pub kind: DownloadKind,
    /// Current state.
    pub state: DownloadState,
    /// Priority.
    pub priority: DownloadPriority,
    /// Progress snapshot.
    pub progress: DownloadProgress,
    /// Metadata.
    pub metadata: DownloadMetadata,
    /// Torrent detail, for torrent and magnet downloads.
    pub torrent_info: Option<TorrentStatusInfo>,
    /// Connected peers, for torrents.
    pub peers: Option<Vec<PeerInfo>>,
    /// Creation time, seconds since the epoch.
    pub created_at: i64,
    /// Completion time, seconds since the epoch, once completed.
    pub completed_at: Option<i64>,
}

/// Global statistics over all downloads.
#[derive(Debug, Clone, Copy, PartialEq, Eq, Structural)]
pub struct GlobalStats {
    /// Total download speed.
    pub download_speed: u64,
    /// Total upload speed.
    pub upload_speed: u64,
    /// Downloads currently active.
    pub num_active: usize,
    /// Downloads waiting in the queue.
    pub num_waiting: usize,
    /// Downloads stopped, completed or failed.
    pub num_stopped: usize,
}

/// Filter choices over the download list.
#[derive(Debug, Clone, Copy, PartialEq, Eq, Structural)]
pub enum StateFilter {
    /// Downloading or seeding.
    Active,
    /// Waiting in the queue.
    Waiting,
    /// Paused.
    Paused,
    /// Completed.
    Completed,
    /// Failed with an error.
    Error,
}

/// Whether a state is `Paused`.
pub open spec fn is_paused(s: DownloadState) -> bool {
    s is Paused
}

/// Whether a state is `Completed`.
pub open spec fn is_completed(s: DownloadState) -> bool {
    s is Completed
}

/// Whether a state is an error.
pub open spec fn is_error(s: DownloadState) -> bool {
    s is Error
}

impl DownloadState {
    /// An equal copy of the state.
    pub fn duplicate(&self) -> (r: DownloadState)
        ensures
            r == *self,
    {
        match self {
            DownloadState::Queued => DownloadState::Queued,
            DownloadState::Connecting => DownloadState::Connecting,
            DownloadState::Downloading => DownloadState::Downloading,
            DownloadState::Seeding => DownloadState::Seeding,
            DownloadState::Paused => DownloadState::Paused,
            DownloadState::Completed => DownloadState::Completed,
            DownloadState::Error { kind, message, retryable } => DownloadState::Error {
                kind: kind.clone(),
                message: message.clone(),
                retryable: *retryable,
            },
        }
    }
}

/// An equal copy of an optional string.
pub fn duplicate_opt_string(s: &Option<String>) -> (r: Option<String>)
    ensures
        r == *s,
{
    match s {
        Some(v) => Some(v.clone()),
        None => None,
    }
}

impl DownloadMetadata {
    /// An equal copy of the metadata.
    pub fn duplicate(&self) -> (r: DownloadMetadata)
        ensures
            r == *self,
    {
        DownloadMetadata {
            name: self.name.clone(),
            url: duplicate_opt_string(&self.url),
            magnet_uri: duplicate_opt_string(&self.magnet_uri),
            info_hash: duplicate_opt_string(&self.info_hash),
            save_dir: self.save_dir.clone(),
            filename: duplicate_opt_string(&self.filename),
        }
    }
}

impl TorrentFileEntry {
    /// An equal copy of the entry.
    pub fn duplicate(&self) -> (r: TorrentFileEntry)
        ensures
            r == *self,
    {
        TorrentFileEntry {
            index: self.index,
            path: self.path.clone(),
            size: self.size,
            selected: self.selected,
            completed: self.completed,
        }
    }
}

impl PeerInfo {
    /// An equal copy of the peer.
    pub fn duplicate(&self) -> (r: PeerInfo)
        ensures
            r == *self,
    {
        PeerInfo {
            ip: self.ip.clone(),
            port: self.port,
            client: duplicate_opt_string(&self.client),
            download_speed: self.download_speed,
            upload_speed: self.upload_speed,
            progress_permille: self.progress_permille,
            am_choking: self.am_choking,
            peer_choking: self.peer_choking,
        }
    }
}

impl DownloadStatus {
    /// The gid of this download.
    pub fn gid(&self) -> (r: String)
        ensures
            r@ == crate::id::spec_gid(self.id),
    {
        self.id.to_gid()
    }
}

/// The downloads whose state is `Paused`.
pub fn filter_paused(downloads: Vec<DownloadStatus>) -> (r: Vec<DownloadStatus>)
    ensures
        r@ == downloads@.filter(|d: DownloadStatus| is_paused(d.state)),
{
    filter_by_state(downloads, StateFilter::Paused)
}

/// The downloads whose state is `Completed`.
pub fn filter_completed(downloads: Vec<DownloadStatus>) -> (r: Vec<DownloadStatus>)
    ensures
        r@ == downloads@.filter(|d: DownloadStatus| is_completed(d.state)),
{
    filter_by_state(downloads, StateFilter::Completed)
}

/// The downloads whose state is an error.
pub fn filter_errors(downloads: Vec<DownloadStatus>) -> (r: Vec<DownloadStatus>)
    ensures
        r@ == downloads@.filter(|d: DownloadStatus| is_error(d.state)),
{
    filter_by_state(downloads, StateFilter::Error)
}

/// Keep the downloads whose state matches a paused, completed or error
/// filter.
fn filter_by_state(downloads: Vec<DownloadStatus>, f: StateFilter) -> (r: Vec<DownloadStatus>)
    requires
        f == StateFilter::Paused || f == StateFilter::Completed || f == StateFilter::Error,
    ensures
        f == StateFilter::Paused ==> r@ == downloads@.filter(
            |d: DownloadStatus| is_paused(d.state),
        ),
        f == StateFilter::Completed ==> r@ == downloads@.filter(
            |d: DownloadStatus| is_completed(d.state),
        ),
        f == StateFilter::Error ==> r@ == downloads@.filter(|d: DownloadStatus| is_error(d.state)),
{
    let ghost orig = downloads@;
    let mut src = downloads;
    let mut r: Vec<DownloadStatus> = Vec::new();
    proof {
        assert(orig.take(0) =~= Seq::<DownloadStatus>::empty());
        assert(orig.take(0).filter(|d: DownloadStatus| is_paused(d.state))
            =~= Seq::<DownloadStatus>::empty());
        assert(orig.take(0).filter(|d: DownloadStatus| is_completed(d.state))
            =~= Seq::<DownloadStatus>::empty());
        assert(orig.take(0).filter(|d: DownloadStatus| is_error(d.state))
            =~= Seq::<DownloadStatus>::empty());
        assert(orig.skip(0) =~= orig);
    }
    let ghost mut k: int = 0;
    while src.len() > 0
        invariant
            0 <= k <= orig.len(),
            src@ == orig.skip(k),
            f == StateFilter::Paused || f == StateFilter::Completed || f == StateFilter::Error,
            f == StateFilter::Paused ==> r@ == orig.take(k).filter(
                |d: DownloadStatus| is_paused(d.state),
            ),
            f == StateFilter::Completed ==> r@ == orig.take(k).filter(
                |d: DownloadStatus| is_completed(d.state),
            ),
            f == StateFilter::Error ==> r@ == orig.take(k).filter(
                |d: DownloadStatus| is_error(d.state),
            ),
        decreases src@.len(),
    {
        let d = src.remove(0);
        proof {
            assert(d == orig[k]);
            assert(src@ =~= orig.skip(k + 1));
            reveal(Seq::filter);
            assert(orig.take(k + 1).drop_last() =~= orig.take(k));
            assert(orig.take(k + 1).last() == orig[k]);
        }
        let keep = match f {
            StateFilter::Paused => matches!(d.state, DownloadState::Paused),
            StateFilter::Completed => matches!(d.state, DownloadState::Completed),
            _ => matches!(d.state, DownloadState::Error { .. }),
        };
        if keep {
            r.push(d);
        }
        proof {
            k = k + 1;
        }
    }
    proof {
        assert(orig.take(orig.len() as int) =~= orig);
    }
    r
}

/// The percent-complete display with one decimal place: zero when the
/// total is unknown or zero, else the completed share of the total in
/// tenths of a percent, rounded half to even.
pub open spec fn spec_percent1(completed: u64, total: Option<u64>) -> Seq<char> {
    match total {
        Some(t) => if t > 0 {
            fixed1_chars(half_even((completed as nat) * 1000, t as nat))
        } else {
            fixed1_chars(0)
        },
        None => fixed1_chars(0),
    }
}

/// Format the percent complete with one decimal place, as `NN.N`; the
/// completed count never exceeds a known total.
pub fn percent1(completed: u64, total: Option<u64>) -> (r: String)
    requires
        total matches Some(t) ==> (t > 0 ==> completed <= t),
    ensures
        r@ == spec_percent1(completed, total),
{
    match total {
        Some(t) => {
            if t > 0 {
                proof {
                    assert((completed as int) * 1000 <= (t as int) * 1000) by (nonlinear_arith)
                        requires
                            completed <= t,
                    ;
                    vstd::arithmetic::div_mod::lemma_div_is_ordered(
                        (completed as int) * 1000,
                        (t as int) * 1000,
                        t as int,
                    );
                    vstd::arithmetic::div_mod::lemma_div_multiples_vanish(1000, t as int);
                }
                let v = half_even_u128((completed as u128) * 1000, t as u128);
                fixed1_string(v)
            } else {
                fixed1_string(0)
            }
        },
        None => fixed1_string(0),
    }
}

} // verus!
