use hedera::proto;
use hedera::{
    AnyMirrorQueryGrpcMessage, AnyMirrorQueryMessage, ChunkInfo, DecodeError, EntityId,
    MirrorQueryKind, NodeAddress, ServiceEndpoint, Timestamp, TopicMessage, TransactionId,
};

fn raw_node() -> proto::NodeAddress {
    proto::NodeAddress {
        rsa_pub_key: String::from("30820122300d"),
        node_id: 4,
        node_account_id: Some(proto::AccountId { shard_num: 0, realm_num: 0, account_num: Some(7) }),
        node_cert_hash: vec![0xde, 0xad, 0xbe, 0xef],
        service_endpoint: vec![
            proto::ServiceEndpoint { ip_address_v4: vec![35, 237, 200, 180], port: 50211 },
            proto::ServiceEndpoint { ip_address_v4: vec![35, 237, 200, 180], port: 50212 },
        ],
        description: String::from("Hosted by a council member"),
    }
}

fn raw_topic_message() -> proto::ConsensusTopicResponse {
    proto::ConsensusTopicResponse {
        consensus_timestamp: Some(proto::Timestamp { seconds: 1_650_000_000, nanos: 123_456_789 }),
        message: vec![1, 2, 3, 4],
        running_hash: vec![7; 48],
        sequence_number: 42,
        running_hash_version: 3,
        chunk_info: Some(proto::ConsensusMessageChunkInfo {
            initial_transaction_id: Some(proto::TransactionId {
                transaction_valid_start: Some(proto::Timestamp { seconds: 1_649_999_990, nanos: 1 }),
                account_id: Some(proto::AccountId { shard_num: 0, realm_num: 0, account_num: Some(1001) }),
                scheduled: false,
                nonce: 0,
            }),
            total: 3,
            number: 2,
        }),
    }
}

#[test]
fn node_decodes_field_by_field() {
    let node = NodeAddress::from_protobuf(raw_node()).unwrap();
    assert_eq!(
        node,
        NodeAddress {
            node_id: 4,
            node_account_id: EntityId::new(0, 0, 7),
            rsa_public_key: String::from("30820122300d"),
            tls_certificate_hash: vec![0xde, 0xad, 0xbe, 0xef],
            service_endpoints: vec![
                ServiceEndpoint { ip_address_v4: [35, 237, 200, 180], port: 50211 },
                ServiceEndpoint { ip_address_v4: [35, 237, 200, 180], port: 50212 },
            ],
            description: String::from("Hosted by a council member"),
        }
    );
}

#[test]
fn node_without_endpoints_decodes() {
    let mut raw = raw_node();
    raw.service_endpoint.clear();
    raw.node_id = 0;
    let node = NodeAddress::from_protobuf(raw).unwrap();
    assert_eq!(node.node_id, 0);
    assert!(node.service_endpoints.is_empty());
}

#[test]
fn node_without_account_is_refused() {
    let mut raw = raw_node();
    raw.node_account_id = None;
    assert_eq!(NodeAddress::from_protobuf(raw), Err(DecodeError::MissingNodeAccountId));
}

#[test]
fn node_with_negative_account_number_is_refused() {
    for (shard_num, realm_num, account_num) in [(-1, 0, 7), (0, -1, 7), (0, 0, -7)] {
        let mut raw = raw_node();
        raw.node_account_id = Some(proto::AccountId { shard_num, realm_num, account_num: Some(account_num) });
        assert_eq!(NodeAddress::from_protobuf(raw), Err(DecodeError::InvalidAccountId));
    }
}

#[test]
fn node_whose_account_has_no_number_is_refused() {
    let mut raw = raw_node();
    raw.node_account_id = Some(proto::AccountId { shard_num: 0, realm_num: 0, account_num: None });
    assert_eq!(NodeAddress::from_protobuf(raw), Err(DecodeError::InvalidAccountId));
}

#[test]
fn node_with_negative_number_is_refused() {
    let mut raw = raw_node();
    raw.node_id = -1;
    assert_eq!(NodeAddress::from_protobuf(raw), Err(DecodeError::InvalidNodeId));
}

#[test]
fn node_with_malformed_endpoint_is_refused() {
    for (address, port) in [
        (vec![10, 0, 0], 50211),
        (vec![10, 0, 0, 1, 2], 50211),
        (vec![], 50211),
        (vec![10, 0, 0, 1], -1),
        (vec![10, 0, 0, 1], 65536),
    ] {
        let mut raw = raw_node();
        raw.service_endpoint.push(proto::ServiceEndpoint { ip_address_v4: address, port });
        assert_eq!(NodeAddress::from_protobuf(raw), Err(DecodeError::InvalidServiceEndpoint));
    }
}

#[test]
fn endpoint_ports_at_their_bounds_decode() {
    let mut raw = raw_node();
    raw.service_endpoint = vec![
        proto::ServiceEndpoint { ip_address_v4: vec![0, 0, 0, 0], port: 0 },
        proto::ServiceEndpoint { ip_address_v4: vec![255, 255, 255, 255], port: 65535 },
    ];
    let node = NodeAddress::from_protobuf(raw).unwrap();
    assert_eq!(
        node.service_endpoints,
        vec![
            ServiceEndpoint { ip_address_v4: [0, 0, 0, 0], port: 0 },
            ServiceEndpoint { ip_address_v4: [255, 255, 255, 255], port: 65535 },
        ]
    );
}

#[test]
fn defects_of_a_node_are_reported_in_order() {
    let mut raw = raw_node();
    raw.node_id = -1;
    raw.service_endpoint.push(proto::ServiceEndpoint { ip_address_v4: vec![], port: 1 });
    assert_eq!(NodeAddress::from_protobuf(raw.clone()), Err(DecodeError::InvalidNodeId));
    raw.node_account_id = None;
    assert_eq!(NodeAddress::from_protobuf(raw), Err(DecodeError::MissingNodeAccountId));
}

#[test]
fn topic_message_decodes_field_by_field() {
    let message = TopicMessage::from_protobuf(raw_topic_message()).unwrap();
    assert_eq!(
        message,
        TopicMessage {
            consensus_timestamp: Timestamp { seconds: 1_650_000_000, nanos: 123_456_789 },
            contents: vec![1, 2, 3, 4],
            running_hash: vec![7; 48],
            running_hash_version: 3,
            sequence_number: 42,
            chunk: Some(ChunkInfo {
                initial_transaction_id: Some(TransactionId {
                    account_id: EntityId::new(0, 0, 1001),
                    valid_start: Timestamp { seconds: 1_649_999_990, nanos: 1 },
                    nonce: None,
                    scheduled: false,
                }),
                total: 3,
                number: 2,
            }),
        }
    );
}

#[test]
fn topic_message_without_chunk_decodes() {
    let mut raw = raw_topic_message();
    raw.chunk_info = None;
    let message = TopicMessage::from_protobuf(raw).unwrap();
    assert_eq!(message.chunk, None);
    assert_eq!(message.sequence_number, 42);
}

#[test]
fn topic_message_without_timestamp_is_refused() {
    let mut raw = raw_topic_message();
    raw.consensus_timestamp = None;
    assert_eq!(TopicMessage::from_protobuf(raw), Err(DecodeError::MissingConsensusTimestamp));
}

#[test]
fn topic_message_outside_the_calendar_is_refused() {
    for seconds in [253_402_300_800, -377_705_116_801, i64::MAX, i64::MIN] {
        let mut raw = raw_topic_message();
        raw.consensus_timestamp = Some(proto::Timestamp { seconds, nanos: 0 });
        assert_eq!(TopicMessage::from_protobuf(raw), Err(DecodeError::InvalidConsensusTimestamp));
    }
}

#[test]
fn topic_message_nanos_carry_into_seconds() {
    let mut raw = raw_topic_message();
    raw.consensus_timestamp = Some(proto::Timestamp { seconds: 10, nanos: -1 });
    let message = TopicMessage::from_protobuf(raw).unwrap();
    assert_eq!(message.consensus_timestamp, Timestamp { seconds: 9, nanos: 999_999_999 });

    let mut raw = raw_topic_message();
    raw.consensus_timestamp = Some(proto::Timestamp { seconds: 10, nanos: 2_000_000_001 });
    let message = TopicMessage::from_protobuf(raw).unwrap();
    assert_eq!(message.consensus_timestamp, Timestamp { seconds: 12, nanos: 1 });
}

#[test]
fn chunk_outside_its_count_is_refused() {
    for (total, number) in [(3, 0), (3, 4), (0, 0), (-1, -1), (0, 1)] {
        let mut raw = raw_topic_message();
        raw.chunk_info = Some(proto::ConsensusMessageChunkInfo { initial_transaction_id: None, total, number });
        assert_eq!(TopicMessage::from_protobuf(raw), Err(DecodeError::InvalidChunkInfo));
    }
}

#[test]
fn chunk_at_the_bounds_of_its_count_decodes() {
    for (total, number) in [(1, 1), (3, 1), (3, 3), (i32::MAX, i32::MAX)] {
        let chunk = ChunkInfo::from_protobuf(proto::ConsensusMessageChunkInfo {
            initial_transaction_id: None,
            total,
            number,
        })
        .unwrap();
        assert_eq!(chunk, ChunkInfo { initial_transaction_id: None, total: total as u32, number: number as u32 });
    }
}

#[test]
fn chunk_with_malformed_transaction_is_refused() {
    let mut raw = raw_topic_message();
    let mut info = raw.chunk_info.unwrap();
    let mut id = info.initial_transaction_id.unwrap();
    id.account_id = None;
    info.initial_transaction_id = Some(id);
    info.number = 0;
    raw.chunk_info = Some(info);
    assert_eq!(TopicMessage::from_protobuf(raw), Err(DecodeError::MissingAccountId));
}

#[test]
fn adapter_decodes_each_kind_with_its_decoder() {
    let listing = AnyMirrorQueryMessage::from_protobuf(AnyMirrorQueryGrpcMessage::NodeAddressBook(raw_node()));
    assert_eq!(
        listing,
        Ok(AnyMirrorQueryMessage::NodeAddressBook(NodeAddress::from_protobuf(raw_node()).unwrap()))
    );
    let feed = AnyMirrorQueryMessage::from_protobuf(AnyMirrorQueryGrpcMessage::TopicMessage(raw_topic_message()));
    assert_eq!(
        feed,
        Ok(AnyMirrorQueryMessage::TopicMessage(TopicMessage::from_protobuf(raw_topic_message()).unwrap()))
    );
    assert_eq!(listing.unwrap().kind(), MirrorQueryKind::NodeAddressBook);
    assert_eq!(feed.unwrap().kind(), MirrorQueryKind::TopicMessage);
}

#[test]
fn adapter_reports_a_malformed_listing_message() {
    let mut raw = raw_node();
    raw.service_endpoint[1].ip_address_v4 = vec![1, 2];
    assert_eq!(
        AnyMirrorQueryMessage::from_protobuf(AnyMirrorQueryGrpcMessage::NodeAddressBook(raw)),
        Err(DecodeError::InvalidServiceEndpoint)
    );
    let mut raw = raw_topic_message();
    raw.consensus_timestamp = None;
    assert_eq!(
        AnyMirrorQueryMessage::from_protobuf(AnyMirrorQueryGrpcMessage::TopicMessage(raw)),
        Err(DecodeError::MissingConsensusTimestamp)
    );
}

#[test]
fn account_decodes_and_encodes() {
    let pb = proto::AccountId { shard_num: 1, realm_num: 2, account_num: Some(3) };
    let id = EntityId::from_protobuf(pb).unwrap();
    assert_eq!(id, EntityId::new(1, 2, 3));
    assert_eq!(id.to_protobuf(), pb);
    let greatest = proto::AccountId { shard_num: i64::MAX, realm_num: i64::MAX, account_num: Some(i64::MAX) };
    assert_eq!(EntityId::from_protobuf(greatest).unwrap().to_protobuf(), greatest);
    assert_eq!(
        EntityId::from_protobuf(proto::AccountId { shard_num: 0, realm_num: 0, account_num: Some(i64::MIN) }),
        Err(DecodeError::InvalidAccountId)
    );
}

#[test]
fn transaction_id_decodes_and_encodes() {
    let pb = proto::TransactionId {
        transaction_valid_start: Some(proto::Timestamp { seconds: 1_600_000_000, nanos: 999_999_999 }),
        account_id: Some(proto::AccountId { shard_num: 0, realm_num: 0, account_num: Some(5005) }),
        scheduled: true,
        nonce: -3,
    };
    let id = TransactionId::from_protobuf(pb).unwrap();
    assert_eq!(
        id,
        TransactionId {
            account_id: EntityId::new(0, 0, 5005),
            valid_start: Timestamp { seconds: 1_600_000_000, nanos: 999_999_999 },
            nonce: Some(-3),
            scheduled: true,
        }
    );
    assert!(id.is_well_formed());
    assert_eq!(id.to_protobuf(), pb);
}

#[test]
fn identifiers_that_do_not_fit_the_wire_are_told_apart() {
    assert!(EntityId::new(0, 0, i64::MAX as u64).is_encodable());
    assert!(!EntityId::new(0, 0, i64::MAX as u64 + 1).is_encodable());
    assert!(!EntityId::new(0, u64::MAX, 0).is_encodable());
    assert!(!EntityId::new(1 << 63, 0, 0).is_encodable());
    assert!(Timestamp { seconds: 253_402_300_799, nanos: 999_999_999 }.is_well_formed());
    assert!(!Timestamp { seconds: 253_402_300_800, nanos: 0 }.is_well_formed());
    assert!(!Timestamp { seconds: -377_705_116_801, nanos: 0 }.is_well_formed());
    assert!(!Timestamp { seconds: 0, nanos: 1_000_000_000 }.is_well_formed());
    let id = TransactionId {
        account_id: EntityId::new(0, 0, u64::MAX),
        valid_start: Timestamp { seconds: 0, nanos: 0 },
        nonce: None,
        scheduled: false,
    };
    assert!(!id.is_well_formed());
}

#[test]
fn transaction_id_nonce_zero_is_none() {
    let pb = proto::TransactionId {
        transaction_valid_start: Some(proto::Timestamp { seconds: 0, nanos: 0 }),
        account_id: Some(proto::AccountId { shard_num: 0, realm_num: 0, account_num: Some(2) }),
        scheduled: false,
        nonce: 0,
    };
    let id = TransactionId::from_protobuf(pb).unwrap();
    assert_eq!(id.nonce, None);
    assert_eq!(id.to_protobuf().nonce, 0);
    assert_eq!(id.to_protobuf(), pb);
}

#[test]
fn transaction_id_defects_are_reported_in_order() {
    let good = proto::TransactionId {
        transaction_valid_start: Some(proto::Timestamp { seconds: 0, nanos: 0 }),
        account_id: Some(proto::AccountId { shard_num: 0, realm_num: 0, account_num: Some(2) }),
        scheduled: false,
        nonce: 0,
    };
    let mut pb = good;
    pb.transaction_valid_start = Some(proto::Timestamp { seconds: i64::MAX, nanos: 0 });
    assert_eq!(TransactionId::from_protobuf(pb), Err(DecodeError::InvalidValidStart));
    pb.transaction_valid_start = None;
    assert_eq!(TransactionId::from_protobuf(pb), Err(DecodeError::MissingValidStart));
    pb.account_id = Some(proto::AccountId { shard_num: 0, realm_num: -1, account_num: Some(2) });
    assert_eq!(TransactionId::from_protobuf(pb), Err(DecodeError::InvalidAccountId));
    pb.account_id = None;
    assert_eq!(TransactionId::from_protobuf(pb), Err(DecodeError::MissingAccountId));
}

#[test]
fn timestamp_decodes_as_time_reads_it() {
    for (seconds, nanos) in [
        (0, 0),
        (1, 500_000_000),
        (10, -1),
        (-10, -1),
        (-1, 999_999_999),
        (253_402_300_799, 999_999_999),
        (-377_705_116_800, 0),
        (1_700_000_000, i32::MAX),
        (1_700_000_000, i32::MIN),
    ] {
        let expected = time::OffsetDateTime::from_unix_timestamp(seconds).unwrap()
            + time::Duration::nanoseconds(nanos.into());
        let decoded = Timestamp::from_protobuf(proto::Timestamp { seconds, nanos }).unwrap();
        assert_eq!(decoded.seconds, expected.unix_timestamp());
        assert_eq!(decoded.nanos, expected.nanosecond());
    }
}
