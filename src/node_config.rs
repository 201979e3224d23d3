use vstd::prelude::*;
use vstd::string::StringExecFns;

use crate::error::LuminaError;
use libp2p::Multiaddr;

verus! {

#[verifier::external_type_specification]
#[verifier::external_body]
pub struct ExMultiaddr(Multiaddr);

/// Headers fetched in one batch while syncing, unless configured.
pub const DEFAULT_BATCH_SIZE: u64 = 128;

/// Length in bytes of an Ed25519 secret key.
pub const ED25519_SECRET_KEY_LEN: usize = 32;

/// Message for a secret key of another length.
pub const KEY_LENGTH_MSG: &'static str = "Ed25519 private key must be 32 bytes";

/// Options for starting a node, as the caller gives them.
#[derive(Debug, Clone, PartialEq, Eq)]
pub struct NodeStartConfig {
    /// Bootstrap peers; when absent the network's canonical bootnodes are used.
    pub bootnodes: Option<Vec<String>>,
    /// Syncing window in seconds; when absent the node's default.
    pub syncing_window_secs: Option<u32>,
    /// Pruning delay after the syncing window in seconds; when absent the node's default.
    pub pruning_delay_secs: Option<u32>,
    /// Headers per batch while syncing; when absent `DEFAULT_BATCH_SIZE`.
    pub batch_size: Option<u64>,
    /// Secret key of the node's Ed25519 identity; when absent a new one is generated.
    pub ed25519_secret_key_bytes: Option<Vec<u8>>,
}

/// Start options checked and resolved, ready to hand to the node builder.
#[derive(Debug, Clone)]
pub struct NodeStartOptions {
    pub bootnodes: Option<Vec<Multiaddr>>,
    pub sync_batch_size: u64,
    pub sampling_window_secs: Option<u64>,
    pub pruning_delay_secs: Option<u64>,
    pub ed25519_secret_key_bytes: Option<Vec<u8>>,
}

/// Prefix of the message for a malformed bootnode address.
pub const MULTIADDR_ERR_PREFIX: &'static str = "Invalid multiaddr: ";

/// Whether `s` is the text of a valid multiaddress.
pub uninterp spec fn is_multiaddr_text(s: Seq<char>) -> bool;

/// The text of the error that parsing `s` as a multiaddress gives.
pub uninterp spec fn multiaddr_error_text(s: Seq<char>) -> Seq<char>;

/// Relies on libp2p's `Multiaddr::from_str`, which accepts exactly the text of a valid
/// multiaddress, and only text that is empty or starts with `/`; its error is handed back as
/// its display text, which depends on the input alone.
#[verifier::external_body]
fn parse_multiaddr(s: &str) -> (r: Result<Multiaddr, String>)
    ensures
        r is Ok == is_multiaddr_text(s@),
        r is Ok ==> s@.len() == 0 || s@[0] == '/',
        r matches Err(m) ==> m@ == multiaddr_error_text(s@),
{
    <Multiaddr as std::str::FromStr>::from_str(s).map_err(|e| e.to_string())
}

/// Whether every text of `addrs` is a valid multiaddress.
pub open spec fn all_multiaddrs(addrs: Seq<String>) -> bool {
    forall|i: int| 0 <= i < addrs.len() ==> is_multiaddr_text(#[trigger] addrs[i]@)
}

/// Whether `msg` reports the first malformed address of `addrs`: the prefix, then the
/// parser's error text for that address.
pub open spec fn reports_first_bad_multiaddr(addrs: Seq<String>, msg: Seq<char>) -> bool {
    exists|i: int|
        0 <= i < addrs.len() && (forall|j: int| 0 <= j < i ==> is_multiaddr_text(#[trigger] addrs[j]@))
            && !is_multiaddr_text(#[trigger] addrs[i]@) && msg == MULTIADDR_ERR_PREFIX@
            + multiaddr_error_text(addrs[i]@)
}

/// Parses each bootnode address, in order; fails exactly when one of them is malformed, with
/// a network error that reports the first such address.
pub fn parse_bootnodes(addrs: &Vec<String>) -> (r: Result<Vec<Multiaddr>, LuminaError>)
    ensures
        r is Ok == all_multiaddrs(addrs@),
        r matches Ok(v) ==> v@.len() == addrs@.len(),
        r matches Err(e) ==> (e matches LuminaError::NetworkError { msg }
            && reports_first_bad_multiaddr(addrs@, msg@)),
{
    let mut out: Vec<Multiaddr> = Vec::new();
    let mut i: usize = 0;
    while i < addrs.len()
        invariant
            i <= addrs@.len(),
            out@.len() == i,
            forall|j: int| 0 <= j < i ==> is_multiaddr_text(#[trigger] addrs@[j]@),
        decreases addrs@.len() - i,
    {
        match parse_multiaddr(addrs[i].as_str()) {
            Ok(a) => out.push(a),
            Err(text) => {
                let msg = MULTIADDR_ERR_PREFIX.to_string().concat(text.as_str());
                proof {
                    assert(reports_first_bad_multiaddr(addrs@, msg@)) by {
                        let k = i as int;
                        assert(!is_multiaddr_text(addrs@[k]@));
                    }
                }
                return Err(LuminaError::NetworkError { msg });
            },
        }
        i = i + 1;
    }
    Ok(out)
}

/// Whether the configured secret key, if any, has the length of an Ed25519 secret key.
pub open spec fn key_ok(key: Option<Vec<u8>>) -> bool {
    match key {
        Some(k) => k@.len() == ED25519_SECRET_KEY_LEN,
        None => true,
    }
}

/// Whether the configured bootnodes, if any, are all valid multiaddresses.
pub open spec fn bootnodes_ok(bootnodes: Option<Vec<String>>) -> bool {
    match bootnodes {
        Some(b) => all_multiaddrs(b@),
        None => true,
    }
}

impl NodeStartConfig {
    /// Checks and resolves the options: bootnodes are parsed, the secret key must be 32 bytes,
    /// the batch size defaults to `DEFAULT_BATCH_SIZE`. A malformed bootnode is reported
    /// before a key of wrong length.
    pub fn resolve(self) -> (r: Result<NodeStartOptions, LuminaError>)
        ensures
            r is Ok == (bootnodes_ok(self.bootnodes) && key_ok(self.ed25519_secret_key_bytes)),
            r matches Err(e) ==> e is NetworkError,
            !bootnodes_ok(self.bootnodes) ==> (r matches Err(LuminaError::NetworkError { msg })
                && reports_first_bad_multiaddr(self.bootnodes->0@, msg@)),
            bootnodes_ok(self.bootnodes) && !key_ok(self.ed25519_secret_key_bytes) ==> (r matches Err(
                LuminaError::NetworkError { msg },
            ) && msg@ == KEY_LENGTH_MSG@),
            r matches Ok(o) ==> {
                &&& o.sync_batch_size == match self.batch_size {
                    Some(n) => n,
                    None => DEFAULT_BATCH_SIZE,
                }
                &&& o.sampling_window_secs == match self.syncing_window_secs {
                    Some(s) => Some(s as u64),
                    None => None::<u64>,
                }
                &&& o.pruning_delay_secs == match self.pruning_delay_secs {
                    Some(s) => Some(s as u64),
                    None => None::<u64>,
                }
                &&& o.ed25519_secret_key_bytes == self.ed25519_secret_key_bytes
                &&& match (o.bootnodes, self.bootnodes) {
                    (Some(p), Some(b)) => p@.len() == b@.len(),
                    (None, None) => true,
                    _ => false,
                }
            },
    {
        let bootnodes = match &self.bootnodes {
            Some(addrs) => Some(parse_bootnodes(addrs)?),
            None => None,
        };
        if let Some(k) = &self.ed25519_secret_key_bytes {
            if k.len() != ED25519_SECRET_KEY_LEN {
                return Err(LuminaError::NetworkError { msg: KEY_LENGTH_MSG.to_string() });
            }
        }
        let sync_batch_size = match self.batch_size {
            Some(n) => n,
            None => DEFAULT_BATCH_SIZE,
        };
        let sampling_window_secs = match self.syncing_window_secs {
            Some(s) => Some(s as u64),
            None => None,
        };
        let pruning_delay_secs = match self.pruning_delay_secs {
            Some(s) => Some(s as u64),
            None => None,
        };
        Ok(NodeStartOptions {
            bootnodes,
            sync_batch_size,
            sampling_window_secs,
            pruning_delay_secs,
            ed25519_secret_key_bytes: self.ed25519_secret_key_bytes,
        })
    }
}

} // verus!
