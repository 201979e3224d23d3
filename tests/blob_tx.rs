use celestia_grpc::blob_tx::{blob_tx_request, build_blob_envelope, prepare_blob_tx, wire_blob};
use celestia_grpc::{Blob, BroadcastMode, Error};
use celestia_proto::cosmos::tx::v1beta1::Tx as RawTx;
use celestia_proto::proto::blob::v4::BlobTx as RawBlobTx;
use prost::Message;

fn blob(ns: u8, data: &[u8], signer: Option<Vec<u8>>) -> Blob {
    Blob {
        namespace_id: vec![0, 0, ns],
        namespace_version: 0,
        data: data.to_vec(),
        share_version: if signer.is_some() { 1 } else { 0 },
        signer,
    }
}

#[test]
fn wire_blob_keeps_fields_and_empties_absent_signer() {
    let w = wire_blob(blob(7, b"abc", None));
    assert_eq!(w.namespace_id, vec![0, 0, 7]);
    assert_eq!(w.namespace_version, 0);
    assert_eq!(w.data, b"abc".to_vec());
    assert_eq!(w.share_version, 0);
    assert!(w.signer.is_empty());

    let w = wire_blob(blob(1, b"x", Some(vec![9; 20])));
    assert_eq!(w.share_version, 1);
    assert_eq!(w.signer, vec![9; 20]);
}

#[test]
fn envelope_keeps_order_and_marker() {
    let env = build_blob_envelope(vec![1, 2, 3], vec![blob(1, b"one", None), blob(2, b"two", None)])
        .unwrap();
    assert_eq!(env.tx, vec![1, 2, 3]);
    assert_eq!(env.type_id, "BLOB");
    assert_eq!(env.blobs.len(), 2);
    assert_eq!(env.blobs[0].data, b"one".to_vec());
    assert_eq!(env.blobs[1].data, b"two".to_vec());
}

#[test]
fn envelope_single_blob_never_fails() {
    let env = build_blob_envelope(Vec::new(), vec![blob(3, b"", None)]).unwrap();
    assert_eq!(env.type_id, "BLOB");
    assert_eq!(env.blobs.len(), 1);
}

#[test]
fn empty_blob_list_is_refused() {
    assert_eq!(build_blob_envelope(vec![1], Vec::new()).unwrap_err(), Error::TxEmptyBlobList);
    assert_eq!(
        blob_tx_request(vec![1], Vec::new(), BroadcastMode::Sync).unwrap_err(),
        Error::TxEmptyBlobList
    );
    assert_eq!(
        prepare_blob_tx(&RawTx::default(), Vec::new(), BroadcastMode::Block).unwrap_err(),
        Error::TxEmptyBlobList
    );
}

#[test]
fn blob_tx_request_bytes_decode_to_envelope() {
    let t = vec![10, 20, 30];
    let b1 = blob(1, b"first", None);
    let b2 = blob(2, b"second", Some(vec![4; 20]));
    let req = blob_tx_request(t.clone(), vec![b1, b2], BroadcastMode::Sync).unwrap();
    assert_eq!(req.mode, BroadcastMode::Sync);
    assert_eq!(req.mode.wire_value(), 2);
    let decoded = RawBlobTx::decode(&req.tx_bytes[..]).unwrap();
    assert_eq!(decoded.tx, t);
    assert_eq!(decoded.type_id, "BLOB");
    assert_eq!(decoded.blobs.len(), 2);
    assert_eq!(decoded.blobs[0].namespace_id, vec![0, 0, 1]);
    assert_eq!(decoded.blobs[0].data, b"first".to_vec());
    assert!(decoded.blobs[0].signer.is_empty());
    assert_eq!(decoded.blobs[1].data, b"second".to_vec());
    assert_eq!(decoded.blobs[1].share_version, 1);
    assert_eq!(decoded.blobs[1].signer, vec![4; 20]);
}

#[test]
fn prepare_blob_tx_embeds_encoded_base_tx() {
    let tx = RawTx { body: None, auth_info: None, signatures: vec![vec![7, 7, 7]] };
    let req = prepare_blob_tx(&tx, vec![blob(5, b"payload", None)], BroadcastMode::Async).unwrap();
    assert_eq!(req.mode, BroadcastMode::Async);
    let decoded = RawBlobTx::decode(&req.tx_bytes[..]).unwrap();
    assert_eq!(decoded.tx, tx.encode_to_vec());
    assert_eq!(RawTx::decode(&decoded.tx[..]).unwrap(), tx);
    assert_eq!(decoded.type_id, "BLOB");
    assert_eq!(decoded.blobs.len(), 1);
    assert_eq!(decoded.blobs[0].data, b"payload".to_vec());
}

#[test]
fn broadcast_mode_wire_values() {
    assert_eq!(BroadcastMode::Unspecified.wire_value(), 0);
    assert_eq!(BroadcastMode::Block.wire_value(), 1);
    assert_eq!(BroadcastMode::Sync.wire_value(), 2);
    assert_eq!(BroadcastMode::Async.wire_value(), 3);
}

#[test]
fn absent_and_empty_signer_share_a_wire_form() {
    let a = wire_blob(blob(1, b"d", None));
    let b = wire_blob(Blob { signer: Some(Vec::new()), ..blob(1, b"d", None) });
    assert_eq!(a.signer, b.signer);
    let c = wire_blob(blob(1, b"d", Some(vec![1])));
    assert_ne!(a.signer, c.signer);
}
