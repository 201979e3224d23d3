pub mod blob_tx;
pub mod error;
pub mod node_config;
pub mod params;
pub mod types;

pub use blob_tx::{Blob, BlobTxEnvelope, BroadcastMode, BroadcastTxRequest, WireBlob};
pub use error::{Error, ErrorKind, LuminaError, RpcStatus};
pub use node_config::{NodeStartConfig, NodeStartOptions};
pub use params::{Account, AuthParams, BlobParams, WireAccount, WireAuthParams, WireBlobParams};
pub use types::{
    BlockRange, ConnectionCounters, NetworkInfo, NodeEvent, NodeEventInfo, PeerId, Platform,
    ShareCoordinate, SyncingInfo,
};

