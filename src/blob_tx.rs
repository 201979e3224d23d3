use vstd::prelude::*;

use crate::error::Error;
use celestia_proto::cosmos::tx::v1beta1::Tx as RawTx;
use celestia_proto::proto::blob::v4::{BlobProto as RawBlob, BlobTx as RawBlobTx};

verus! {

#[verifier::external_type_specification]
#[verifier::external_body]
pub struct ExRawTx(RawTx);

/// The consensus-defined discriminator that marks a transaction as carrying blobs.
pub const BLOB_TX_TYPE_ID: &'static str = "BLOB";

/// Delivery semantics of a broadcast transaction.
#[derive(Debug, Clone, Copy, PartialEq, Eq, Structural)]
pub enum BroadcastMode {
    Unspecified,
    Block,
    Sync,
    Async,
}

impl BroadcastMode {
    pub open spec fn spec_wire_value(self) -> i32 {
        match self {
            BroadcastMode::Unspecified => 0,
            BroadcastMode::Block => 1,
            BroadcastMode::Sync => 2,
            BroadcastMode::Async => 3,
        }
    }

    /// The value of the mode in the broadcast request message.
    pub fn wire_value(self) -> (r: i32)
        ensures
            r == self.spec_wire_value(),
    {
        match self {
            BroadcastMode::Unspecified => 0,
            BroadcastMode::Block => 1,
            BroadcastMode::Sync => 2,
            BroadcastMode::Async => 3,
        }
    }
}

/// Namespace id, namespace version, data, share version, signer.
pub type BlobView = (Seq<u8>, u8, Seq<u8>, u8, Option<Seq<u8>>);

/// Namespace id, namespace version, data, share version, signer (empty when absent).
pub type WireBlobView = (Seq<u8>, u32, Seq<u8>, u32, Seq<u8>);

/// Inner transaction bytes, blobs, type marker.
pub type BlobTxView = (Seq<u8>, Seq<WireBlobView>, Seq<char>);

/// A payload to publish in a namespace, as the caller hands it over.
#[derive(Debug, Clone)]
pub struct Blob {
    pub namespace_id: Vec<u8>,
    pub namespace_version: u8,
    pub data: Vec<u8>,
    pub share_version: u8,
    pub signer: Option<Vec<u8>>,
}

impl View for Blob {
    type V = BlobView;

    open spec fn view(&self) -> BlobView {
        (
            self.namespace_id@,
            self.namespace_version,
            self.data@,
            self.share_version,
            match self.signer {
                Some(s) => Some(s@),
                None => None,
            },
        )
    }
}

/// A blob in the shape of its protobuf message.
#[derive(Debug, Clone)]
pub struct WireBlob {
    pub namespace_id: Vec<u8>,
    pub namespace_version: u32,
    pub data: Vec<u8>,
    pub share_version: u32,
    pub signer: Vec<u8>,
}

impl View for WireBlob {
    type V = WireBlobView;

    open spec fn view(&self) -> WireBlobView {
        (self.namespace_id@, self.namespace_version, self.data@, self.share_version, self.signer@)
    }
}

/// The envelope of a transaction that carries blobs.
#[derive(Debug, Clone)]
pub struct BlobTxEnvelope {
    pub tx: Vec<u8>,
    pub blobs: Vec<WireBlob>,
    pub type_id: String,
}

impl View for BlobTxEnvelope {
    type V = BlobTxView;

    open spec fn view(&self) -> BlobTxView {
        (self.tx@, self.blobs@.map_values(|b: WireBlob| b@), self.type_id@)
    }
}

/// The request of the raw broadcast operation.
#[derive(Debug, Clone)]
pub struct BroadcastTxRequest {
    pub tx_bytes: Vec<u8>,
    pub mode: BroadcastMode,
}

/// The protobuf encoding of a blob transaction envelope.
pub uninterp spec fn blob_tx_encoding(env: BlobTxView) -> Seq<u8>;

/// The wire form of a blob.
pub open spec fn wire_of(b: BlobView) -> WireBlobView {
    (
        b.0,
        b.1 as u32,
        b.2,
        b.3 as u32,
        match b.4 {
            Some(s) => s,
            None => Seq::empty(),
        },
    )
}

/// The wire forms of blobs, in their order.
pub open spec fn wires_of(blobs: Seq<Blob>) -> Seq<WireBlobView> {
    blobs.map_values(|b: Blob| wire_of(b@))
}

/// The envelope that carries `blobs` beside the transaction bytes `tx`.
pub open spec fn envelope_of(tx: Seq<u8>, blobs: Seq<Blob>) -> BlobTxView {
    (tx, wires_of(blobs), BLOB_TX_TYPE_ID@)
}

/// The envelope of any transaction with any blobs carries the blob marker and the
/// transaction bytes unchanged.
pub proof fn lemma_envelope_marked(tx: Seq<u8>, blobs: Seq<Blob>)
    ensures
        envelope_of(tx, blobs).2 == BLOB_TX_TYPE_ID@,
        envelope_of(tx, blobs).0 == tx,
{
}

/// The envelope holds one wire blob per input blob, in the input's order.
pub proof fn lemma_envelope_keeps_order(tx: Seq<u8>, blobs: Seq<Blob>)
    ensures
        envelope_of(tx, blobs).1.len() == blobs.len(),
        forall|i: int|
            0 <= i < blobs.len() ==> #[trigger] envelope_of(tx, blobs).1[i] == wire_of(blobs[i]@),
{
}

/// Whether a present signer is non-empty, so that the wire form can tell it from an absent one.
pub open spec fn signer_distinct(b: BlobView) -> bool {
    match b.4 {
        Some(s) => s.len() > 0,
        None => true,
    }
}

/// Converting to the wire form loses no field: two blobs whose signers, when present, are
/// non-empty have the same wire form only if they are equal.
pub proof fn lemma_wire_of_injective(a: BlobView, b: BlobView)
    requires
        signer_distinct(a),
        signer_distinct(b),
        wire_of(a) == wire_of(b),
    ensures
        a == b,
{
    assert(a.1 as u32 == b.1 as u32);
    assert(a.3 as u32 == b.3 as u32);
    match (a.4, b.4) {
        (Some(x), Some(y)) => {},
        (None, None) => {},
        (Some(x), None) => {
            assert(wire_of(a).4 == x);
            assert(wire_of(b).4 == Seq::<u8>::empty());
        },
        (None, Some(y)) => {
            assert(wire_of(b).4 == y);
            assert(wire_of(a).4 == Seq::<u8>::empty());
        },
    }
}

/// Converts a blob into its wire form; an absent signer becomes empty bytes.
pub fn wire_blob(b: Blob) -> (r: WireBlob)
    ensures
        r@ == wire_of(b@),
{
    let signer = match b.signer {
        Some(s) => s,
        None => Vec::new(),
    };
    WireBlob {
        namespace_id: b.namespace_id,
        namespace_version: b.namespace_version as u32,
        data: b.data,
        share_version: b.share_version as u32,
        signer,
    }
}

/// Assembles the envelope of a blob transaction; fails exactly when there is no blob.
pub fn build_blob_envelope(tx: Vec<u8>, blobs: Vec<Blob>) -> (r: Result<BlobTxEnvelope, Error>)
    ensures
        blobs@.len() == 0 <==> r is Err,
        r is Err ==> r == Err::<BlobTxEnvelope, Error>(Error::TxEmptyBlobList),
        r matches Ok(env) ==> env@ == envelope_of(tx@, blobs@),
        r matches Ok(env) ==> env.type_id@ == BLOB_TX_TYPE_ID@,
{
    if blobs.len() == 0 {
        return Err(Error::TxEmptyBlobList);
    }
    let ghost input = blobs@;
    let mut wires: Vec<WireBlob> = Vec::new();
    let mut rest = blobs;
    while rest.len() > 0
        invariant
            wires@.len() + rest@.len() == input.len(),
            rest@ == input.subrange(wires@.len() as int, input.len() as int),
            forall|i: int| 0 <= i < wires@.len() ==> #[trigger] wires@[i]@ == wire_of(input[i]@),
        decreases rest@.len(),
    {
        let b = rest.remove(0);
        proof {
            assert(b == input[wires@.len() as int]);
        }
        wires.push(wire_blob(b));
        proof {
            assert(rest@ =~= input.subrange(wires@.len() as int, input.len() as int));
        }
    }
    let env = BlobTxEnvelope { tx, blobs: wires, type_id: BLOB_TX_TYPE_ID.to_string() };
    proof {
        assert(env@.1 =~= wires_of(input));
    }
    Ok(env)
}

/// Relies on prost::Message::encode_to_vec for the blob transaction message: its protobuf
/// encoding, which depends on the message's fields alone.
#[verifier::external_body]
fn encode_blob_envelope(env: BlobTxEnvelope) -> (r: Vec<u8>)
    ensures
        r@ == blob_tx_encoding(env@),
{
    let blobs: Vec<RawBlob> = env.blobs.into_iter().map(|b| RawBlob {
        namespace_id: b.namespace_id,
        namespace_version: b.namespace_version,
        data: b.data,
        share_version: b.share_version,
        signer: b.signer,
    }).collect();
    prost::Message::encode_to_vec(&RawBlobTx { tx: env.tx, blobs, type_id: env.type_id })
}

/// The protobuf encoding of a base transaction.
pub uninterp spec fn raw_tx_encoding(tx: RawTx) -> Seq<u8>;

/// Relies on prost::Message::encode_to_vec for the base transaction message: its protobuf
/// encoding, which depends on the message's fields alone.
#[verifier::external_body]
fn encode_raw_tx(tx: &RawTx) -> (r: Vec<u8>)
    ensures
        r@ == raw_tx_encoding(*tx),
{
    prost::Message::encode_to_vec(tx)
}

/// The raw broadcast request for a transaction, given as its encoded bytes `tx`, that carries
/// `blobs`: its bytes are the encoded envelope, its mode is `mode`. Without any blob it fails
/// and there is nothing to send.
pub fn blob_tx_request(tx: Vec<u8>, blobs: Vec<Blob>, mode: BroadcastMode) -> (r: Result<
    BroadcastTxRequest,
    Error,
>)
    ensures
        blobs@.len() == 0 <==> r is Err,
        r is Err ==> r == Err::<BroadcastTxRequest, Error>(Error::TxEmptyBlobList),
        r matches Ok(req) ==> req.tx_bytes@ == blob_tx_encoding(envelope_of(tx@, blobs@)),
        r matches Ok(req) ==> req.mode == mode,
{
    let env = build_blob_envelope(tx, blobs)?;
    Ok(BroadcastTxRequest { tx_bytes: encode_blob_envelope(env), mode })
}

/// The raw broadcast request for the base transaction `tx` carrying `blobs`. The envelope holds
/// the base transaction's encoding; without any blob it fails and there is nothing to send.
pub fn prepare_blob_tx(tx: &RawTx, blobs: Vec<Blob>, mode: BroadcastMode) -> (r: Result<
    BroadcastTxRequest,
    Error,
>)
    ensures
        blobs@.len() == 0 <==> r is Err,
        r is Err ==> r == Err::<BroadcastTxRequest, Error>(Error::TxEmptyBlobList),
        r matches Ok(req) ==> req.tx_bytes@ == blob_tx_encoding(
            envelope_of(raw_tx_encoding(*tx), blobs@),
        ),
        r matches Ok(req) ==> req.mode == mode,
{
    if blobs.len() == 0 {
        return Err(Error::TxEmptyBlobList);
    }
    let tx_bytes = encode_raw_tx(tx);
    blob_tx_request(tx_bytes, blobs, mode)
}

} // verus!
