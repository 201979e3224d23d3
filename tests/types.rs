use celestia_grpc::types::{duration_millis, get_base_path, get_base_path_impl, share_coordinates};
use celestia_grpc::{
    BlockRange, ConnectionCounters, LuminaError, NetworkInfo, NodeEvent, NodeEventInfo, PeerId,
    Platform, SyncingInfo,
};

const PEER: &str = "12D3KooWRNw2pJC9748Fmq4WNV27HoSTcX3r37132FLkQMrbKAiC";

#[test]
fn base_path_on_other_platform_is_unsupported() {
    assert_eq!(
        get_base_path(Platform::Other, Some("/x".to_string()), Some("/y".to_string())),
        Err(LuminaError::StorageError { msg: "Unsupported platform".to_string() })
    );
}

#[test]
fn base_path_on_android() {
    assert_eq!(
        get_base_path_impl(Platform::Android, Some("/sdcard/lumina".to_string()), None),
        Ok("/sdcard/lumina".to_string())
    );
    assert_eq!(
        get_base_path_impl(Platform::Android, None, None),
        Ok("/data/data/com.example.lumina/files".to_string())
    );
}

#[test]
fn base_path_on_ios() {
    assert_eq!(
        get_base_path(Platform::Ios, None, Some("/var/mobile/lumina".to_string())),
        Ok("/var/mobile/lumina".to_string())
    );
    assert_eq!(
        get_base_path(Platform::Ios, Some("/ignored".to_string()), None),
        Err(LuminaError::StorageError {
            msg: "Could not determine a platform-specific data directory".to_string()
        })
    );
}

#[test]
fn peer_id_round_trip() {
    let p = PeerId { peer_id: PEER.to_string() };
    let lp = p.to_libp2p().unwrap();
    assert_eq!(PeerId::from_libp2p(&lp), p);
}

#[test]
fn malformed_peer_id_is_refused() {
    let p = PeerId { peer_id: "not a peer".to_string() };
    let e = p.to_libp2p().unwrap_err();
    let text = "not a peer".parse::<libp2p::PeerId>().unwrap_err().to_string();
    assert_eq!(e, format!("Invalid peer ID format: {}", text));
}

#[test]
fn network_info_truncates_peer_count() {
    let c = ConnectionCounters {
        num_connections: 3,
        num_pending: 1,
        num_pending_incoming: 1,
        num_pending_outgoing: 0,
        num_established: 2,
        num_established_incoming: 1,
        num_established_outgoing: 1,
    };
    let info = NetworkInfo::from_counts(5, c);
    assert_eq!(info.num_peers, 5);
    assert_eq!(info.connection_counters, c);
    let info = NetworkInfo::from_counts((1usize << 32) + 9, c);
    assert_eq!(info.num_peers, 9);
}

#[test]
fn syncing_info_keeps_ranges() {
    let s = SyncingInfo::from_ranges(&vec![(1, 10), (20, 30)], 99);
    assert_eq!(s.subjective_head, 99);
    assert_eq!(
        s.stored_headers,
        vec![BlockRange { start: 1, end: 10 }, BlockRange { start: 20, end: 30 }]
    );
    assert!(SyncingInfo::from_ranges(&Vec::new(), 0).stored_headers.is_empty());
}

#[test]
fn share_coordinates_keep_order() {
    let cs = share_coordinates(&vec![(1, 2), (3, 4)]);
    assert_eq!(cs.len(), 2);
    assert_eq!((cs[0].row, cs[0].column), (1, 2));
    assert_eq!((cs[1].row, cs[1].column), (3, 4));
}

#[test]
fn millis_of_duration() {
    assert_eq!(duration_millis(0, 0), 0);
    assert_eq!(duration_millis(2, 345_678_901), 2345);
    assert_eq!(duration_millis(0, 999_999), 0);
    let big = u64::MAX;
    let want = ((big as u128) * 1000 + 5) as u64;
    assert_eq!(duration_millis(big, 5_000_000), want);
}

#[test]
fn event_info_timestamp() {
    let info = NodeEventInfo::new(NodeEvent::NodeStopped, Some((1_700_000_000, 123_000_000)), "a.rs".to_string(), 12);
    assert_eq!(info.timestamp, 1_700_000_000_123);
    assert_eq!(info.event, NodeEvent::NodeStopped);
    assert_eq!(info.file_path, "a.rs");
    assert_eq!(info.file_line, 12);
    let info = NodeEventInfo::new(NodeEvent::ConnectingToBootnodes, None, String::new(), 0);
    assert_eq!(info.timestamp, 0);
}

#[test]
fn lumina_error_from_node_error_message() {
    assert_eq!(
        LuminaError::from_node_error_message("boom".to_string()),
        LuminaError::NetworkError { msg: "boom".to_string() }
    );
}

#[test]
fn peer_id_from_libp2p_identity() {
    let lp: libp2p::PeerId = PEER.parse().unwrap();
    let p: PeerId = lp.into();
    assert_eq!(p.peer_id, PEER);
}
