use vstd::prelude::*;
use vstd::string::StringExecFns;

use crate::error::LuminaError;
use libp2p::PeerId as Libp2pPeerId;

verus! {

#[verifier::external_type_specification]
#[verifier::external_body]
pub struct ExLibp2pPeerId(Libp2pPeerId);

/// The platform the node runs on, as far as the choice of its data directory goes.
#[derive(Debug, Clone, Copy, PartialEq, Eq, Structural)]
pub enum Platform {
    Ios,
    Android,
    Other,
}

/// Data directory on Android when none is configured.
pub const ANDROID_FALLBACK_DIR: &'static str = "/data/data/com.example.lumina/files";

/// Message when iOS gives no per-application data directory.
pub const NO_PROJECT_DIR_MSG: &'static str = "Could not determine a platform-specific data directory";

/// Message on a platform without a data directory.
pub const UNSUPPORTED_PLATFORM_MSG: &'static str = "Unsupported platform";

/// The base path that `get_base_path_impl` yields: on iOS the application's data directory,
/// on Android the configured directory or the fallback, elsewhere an error.
pub open spec fn base_path_spec(
    platform: Platform,
    configured_dir: Option<Seq<char>>,
    project_dir: Option<Seq<char>>,
) -> Result<Seq<char>, Seq<char>> {
    match platform {
        Platform::Ios => match project_dir {
            Some(d) => Ok(d),
            None => Err(NO_PROJECT_DIR_MSG@),
        },
        Platform::Android => match configured_dir {
            Some(d) => Ok(d),
            None => Ok(ANDROID_FALLBACK_DIR@),
        },
        Platform::Other => Err(UNSUPPORTED_PLATFORM_MSG@),
    }
}

/// Whether `r` is the outcome that `base_path_spec` describes, with errors as storage errors.
pub open spec fn is_base_path_outcome(
    r: Result<String, LuminaError>,
    platform: Platform,
    configured_dir: Option<String>,
    project_dir: Option<String>,
) -> bool {
    let want = base_path_spec(
        platform,
        match configured_dir {
            Some(d) => Some(d@),
            None => None,
        },
        match project_dir {
            Some(d) => Some(d@),
            None => None,
        },
    );
    match r {
        Ok(p) => want == Ok::<Seq<char>, Seq<char>>(p@),
        Err(LuminaError::StorageError { msg }) => want == Err::<Seq<char>, Seq<char>>(msg@),
        Err(_) => false,
    }
}

/// Chooses the platform-specific base path for the node's data, given the platform, the
/// directory configured for Android and the application data directory found on iOS.
pub fn get_base_path_impl(
    platform: Platform,
    configured_dir: Option<String>,
    project_dir: Option<String>,
) -> (r: Result<String, LuminaError>)
    ensures
        is_base_path_outcome(r, platform, configured_dir, project_dir),
{
    match platform {
        Platform::Ios => match project_dir {
            Some(d) => Ok(d),
            None => Err(LuminaError::StorageError { msg: NO_PROJECT_DIR_MSG.to_string() }),
        },
        Platform::Android => match configured_dir {
            Some(d) => Ok(d),
            None => Ok(ANDROID_FALLBACK_DIR.to_string()),
        },
        Platform::Other => Err(LuminaError::StorageError { msg: UNSUPPORTED_PLATFORM_MSG.to_string() }),
    }
}

/// The platform-specific base path for the node's data.
pub fn get_base_path(
    platform: Platform,
    configured_dir: Option<String>,
    project_dir: Option<String>,
) -> (r: Result<String, LuminaError>)
    ensures
        is_base_path_outcome(r, platform, configured_dir, project_dir),
{
    get_base_path_impl(platform, configured_dir, project_dir)
}

/// Counters of ongoing network connections.
#[derive(Debug, Clone, Copy, PartialEq, Eq, Structural)]
pub struct ConnectionCounters {
    pub num_connections: u32,
    pub num_pending: u32,
    pub num_pending_incoming: u32,
    pub num_pending_outgoing: u32,
    pub num_established: u32,
    pub num_established_incoming: u32,
    pub num_established_outgoing: u32,
}

/// Information about the node's network.
#[derive(Debug, Clone, Copy, PartialEq, Eq, Structural)]
pub struct NetworkInfo {
    pub num_peers: u32,
    pub connection_counters: ConnectionCounters,
}

impl NetworkInfo {
    /// Network information from a peer count and the connection counters; the count is cut
    /// to its low 32 bits.
    pub fn from_counts(num_peers: usize, connection_counters: ConnectionCounters) -> (r:
        NetworkInfo)
        ensures
            r.num_peers == num_peers as u32,
            r.connection_counters == connection_counters,
    {
        NetworkInfo { num_peers: num_peers as u32, connection_counters }
    }
}

/// A range of block heights, both ends included.
#[derive(Debug, Clone, Copy, PartialEq, Eq, Structural)]
pub struct BlockRange {
    pub start: u64,
    pub end: u64,
}

impl BlockRange {
    /// The range with the given ends.
    pub fn from_bounds(start: u64, end: u64) -> (r: BlockRange)
        ensures
            r.start == start,
            r.end == end,
    {
        BlockRange { start, end }
    }
}

/// Status of the node's header syncing.
#[derive(Debug, Clone, PartialEq, Eq)]
pub struct SyncingInfo {
    pub stored_headers: Vec<BlockRange>,
    pub subjective_head: u64,
}

impl SyncingInfo {
    /// Syncing status from the stored ranges, each given by its two ends, in order.
    pub fn from_ranges(ranges: &Vec<(u64, u64)>, subjective_head: u64) -> (r: SyncingInfo)
        ensures
            r.subjective_head == subjective_head,
            r.stored_headers@.len() == ranges@.len(),
            forall|i: int|
                0 <= i < ranges@.len() ==> (#[trigger] r.stored_headers@[i]).start
                    == ranges@[i].0 && r.stored_headers@[i].end == ranges@[i].1,
    {
        let mut stored: Vec<BlockRange> = Vec::new();
        let mut i: usize = 0;
        while i < ranges.len()
            invariant
                i <= ranges@.len(),
                stored@.len() == i,
                forall|j: int|
                    0 <= j < i ==> (#[trigger] stored@[j]).start == ranges@[j].0
                        && stored@[j].end == ranges@[j].1,
            decreases ranges@.len() - i,
        {
            let (start, end) = ranges[i];
            stored.push(BlockRange::from_bounds(start, end));
            i = i + 1;
        }
        SyncingInfo { stored_headers: stored, subjective_head }
    }
}

/// Identity of a peer, as its base58 text.
#[derive(Debug, Clone, PartialEq, Eq)]
pub struct PeerId {
    pub peer_id: String,
}

/// Whether `s` is the base58 text of a valid peer identity.
pub uninterp spec fn is_peer_id_text(s: Seq<char>) -> bool;

/// The text of the error that parsing `s` as a peer identity gives.
pub uninterp spec fn peer_id_error_text(s: Seq<char>) -> Seq<char>;

/// Prefix of the message for malformed peer identity text.
pub const PEER_ID_ERR_PREFIX: &'static str = "Invalid peer ID format: ";

/// Relies on libp2p's `PeerId::from_str`, which accepts exactly the base58 text of a valid
/// peer identity; its error is handed back as its display text, which depends on the input
/// alone.
#[verifier::external_body]
fn parse_peer_id(s: &str) -> (r: Result<Libp2pPeerId, String>)
    ensures
        r is Ok == is_peer_id_text(s@),
        r matches Err(m) ==> m@ == peer_id_error_text(s@),
{
    <Libp2pPeerId as std::str::FromStr>::from_str(s).map_err(|e| e.to_string())
}

/// Relies on libp2p's `PeerId::to_base58`, the text form of a peer identity.
#[verifier::external_body]
fn peer_id_text(p: &Libp2pPeerId) -> (r: String)
    ensures
        is_peer_id_text(r@),
{
    p.to_base58()
}

impl PeerId {
    /// The libp2p identity that this text stands for; fails exactly on malformed text, with
    /// the prefix followed by the parser's error text.
    pub fn to_libp2p(&self) -> (r: Result<Libp2pPeerId, String>)
        ensures
            r is Ok == is_peer_id_text(self.peer_id@),
            r matches Err(m) ==> m@ == PEER_ID_ERR_PREFIX@ + peer_id_error_text(self.peer_id@),
    {
        match parse_peer_id(self.peer_id.as_str()) {
            Ok(p) => Ok(p),
            Err(text) => Err(PEER_ID_ERR_PREFIX.to_string().concat(text.as_str())),
        }
    }

    /// The text form of a libp2p identity.
    pub fn from_libp2p(peer_id: &Libp2pPeerId) -> (r: PeerId)
        ensures
            is_peer_id_text(r.peer_id@),
    {
        PeerId { peer_id: peer_id_text(peer_id) }
    }
}

impl From<Libp2pPeerId> for PeerId {
    fn from(peer_id: Libp2pPeerId) -> (r: PeerId)
        ensures
            is_peer_id_text(r.peer_id@),
    {
        PeerId::from_libp2p(&peer_id)
    }
}

impl vstd::std_specs::convert::FromSpecImpl<Libp2pPeerId> for PeerId {
    /// The text of an identity is named, not stated, so no equation is offered.
    open spec fn obeys_from_spec() -> bool {
        false
    }

    open spec fn from_spec(v: Libp2pPeerId) -> PeerId {
        arbitrary()
    }
}

/// Coordinates of a share in the extended data square.
#[derive(Debug, Clone, Copy, PartialEq, Eq, Structural)]
pub struct ShareCoordinate {
    pub row: u16,
    pub column: u16,
}

/// The coordinates of the shares given as (row, column) pairs, in order.
pub fn share_coordinates(shares: &Vec<(u16, u16)>) -> (r: Vec<ShareCoordinate>)
    ensures
        r@.len() == shares@.len(),
        forall|i: int|
            0 <= i < shares@.len() ==> (#[trigger] r@[i]).row == shares@[i].0 && r@[i].column
                == shares@[i].1,
{
    let mut out: Vec<ShareCoordinate> = Vec::new();
    let mut i: usize = 0;
    while i < shares.len()
        invariant
            i <= shares@.len(),
            out@.len() == i,
            forall|j: int|
                0 <= j < i ==> (#[trigger] out@[j]).row == shares@[j].0 && out@[j].column
                    == shares@[j].1,
        decreases shares@.len() - i,
    {
        let (row, column) = shares[i];
        out.push(ShareCoordinate { row, column });
        i = i + 1;
    }
    out
}

/// Whole milliseconds of a duration of `secs` seconds and `nanos` nanoseconds, cut to 64 bits.
pub open spec fn millis_spec(secs: u64, nanos: u32) -> int {
    (secs * 1000 + nanos / 1_000_000) % 0x1_0000_0000_0000_0000
}

/// Whole milliseconds of a duration, cut to 64 bits as a cast of the 128-bit count would.
pub fn duration_millis(secs: u64, nanos: u32) -> (r: u64)
    ensures
        r as int == millis_spec(secs, nanos),
{
    let total: u128 = secs as u128 * 1000 + (nanos / 1_000_000) as u128;
    let r = total as u64;
    proof {
        assert(r as int == total as int % 0x1_0000_0000_0000_0000) by (bit_vector)
            requires r == total as u64;
    }
    r
}

/// Events emitted by the node.
#[derive(Debug, Clone, PartialEq, Eq)]
pub enum NodeEvent {
    /// The node is connecting to bootnodes.
    ConnectingToBootnodes,
    /// A peer connected.
    PeerConnected { id: PeerId, trusted: bool },
    /// A peer disconnected.
    PeerDisconnected { id: PeerId, trusted: bool },
    /// Sampling of a block started.
    SamplingStarted { height: u64, square_width: u16, shares: Vec<ShareCoordinate> },
    /// A share was sampled.
    ShareSamplingResult { height: u64, square_width: u16, row: u16, column: u16, accepted: bool },
    /// Sampling of a block finished.
    SamplingFinished { height: u64, accepted: bool, took_ms: u64 },
    /// Data sampling stopped on a fatal error.
    FatalDaserError { error: String },
    /// A header arrived from header-sub.
    AddedHeaderFromHeaderSub { height: u64 },
    /// Fetching the network head's header started.
    FetchingHeadHeaderStarted,
    /// Fetching the network head's header finished.
    FetchingHeadHeaderFinished { height: u64, took_ms: u64 },
    /// Fetching the headers of a range started.
    FetchingHeadersStarted { from_height: u64, to_height: u64 },
    /// Fetching the headers of a range finished.
    FetchingHeadersFinished { from_height: u64, to_height: u64, took_ms: u64 },
    /// Fetching the headers of a range failed.
    FetchingHeadersFailed { from_height: u64, to_height: u64, error: String, took_ms: u64 },
    /// Header syncing stopped on a fatal error.
    FatalSyncerError { error: String },
    /// Headers up to and including a height were pruned.
    PrunedHeaders { to_height: u64 },
    /// Pruning stopped on a fatal error.
    FatalPrunerError { error: String },
    /// A valid bad-encoding fraud proof arrived; syncing and sampling stop.
    NetworkCompromised,
    /// The node stopped.
    NodeStopped,
}

/// A node event with the time and place it was emitted at.
#[derive(Debug, Clone, PartialEq, Eq)]
pub struct NodeEventInfo {
    pub event: NodeEvent,
    /// Unix time in milliseconds.
    pub timestamp: u64,
    pub file_path: String,
    pub file_line: u32,
}

impl NodeEventInfo {
    /// Event information; `since_epoch` is the emission time past the Unix epoch as seconds and
    /// nanoseconds, absent for a time before the epoch, which counts as zero.
    pub fn new(
        event: NodeEvent,
        since_epoch: Option<(u64, u32)>,
        file_path: String,
        file_line: u32,
    ) -> (r: NodeEventInfo)
        ensures
            r.event == event,
            r.file_path == file_path,
            r.file_line == file_line,
            since_epoch matches Some(d) ==> r.timestamp as int == millis_spec(d.0, d.1),
            since_epoch is None ==> r.timestamp == 0,
    {
        let timestamp = match since_epoch {
            Some((secs, nanos)) => duration_millis(secs, nanos),
            None => 0,
        };
        NodeEventInfo { event, timestamp, file_path, file_line }
    }
}

} // verus!
