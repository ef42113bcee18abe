//! The wire messages of the mirror service, field for field as their schema
//! declares them, before anything is checked.
//!
//! A message of the schema may leave out any sub-message, and its numbers
//! are signed whatever they count. Decoding is what tells a message that
//! means something from one that does not.

use vstd::prelude::*;

verus! {

/// The identifier of an account.
#[derive(Clone, Copy, Debug, PartialEq, Eq, Hash, Structural)]
pub struct AccountId {
    pub shard_num: i64,
    pub realm_num: i64,
    /// The number of the account, where the message gives it. A message may
    /// name an account by an alias instead; it then gives no number.
    pub account_num: Option<i64>,
}

/// An instant.
#[derive(Clone, Copy, Debug, PartialEq, Eq, Hash, Structural)]
pub struct Timestamp {
    pub seconds: i64,
    pub nanos: i32,
}

/// The identifier of a transaction.
#[derive(Clone, Copy, Debug, PartialEq, Eq, Hash, Structural)]
pub struct TransactionId {
    pub transaction_valid_start: Option<Timestamp>,
    pub account_id: Option<AccountId>,
    pub scheduled: bool,
    pub nonce: i32,
}

/// Where a node can be reached.
#[derive(Clone, Debug, PartialEq, Eq)]
pub struct ServiceEndpoint {
    pub ip_address_v4: Vec<u8>,
    pub port: i32,
}

/// A node of the address book: one message of a listing.
#[derive(Clone, Debug, PartialEq, Eq)]
pub struct NodeAddress {
    pub rsa_pub_key: String,
    pub node_id: i64,
    pub node_account_id: Option<AccountId>,
    pub node_cert_hash: Vec<u8>,
    pub service_endpoint: Vec<ServiceEndpoint>,
    pub description: String,
}

/// The place of a message among the chunks of a larger one.
#[derive(Clone, Copy, Debug, PartialEq, Eq, Hash, Structural)]
pub struct ConsensusMessageChunkInfo {
    pub initial_transaction_id: Option<TransactionId>,
    pub total: i32,
    pub number: i32,
}

/// A message of a topic: one message of a feed.
#[derive(Clone, Debug, PartialEq, Eq)]
pub struct ConsensusTopicResponse {
    pub consensus_timestamp: Option<Timestamp>,
    pub message: Vec<u8>,
    pub running_hash: Vec<u8>,
    pub sequence_number: u64,
    pub running_hash_version: u64,
    pub chunk_info: Option<ConsensusMessageChunkInfo>,
}

/// What a [`ServiceEndpoint`] holds.
pub struct ServiceEndpointView {
    pub ip_address_v4: Seq<u8>,
    pub port: i32,
}

/// What a [`NodeAddress`] holds.
pub struct NodeAddressView {
    pub rsa_pub_key: Seq<char>,
    pub node_id: i64,
    pub node_account_id: Option<AccountId>,
    pub node_cert_hash: Seq<u8>,
    pub service_endpoint: Seq<ServiceEndpointView>,
    pub description: Seq<char>,
}

/// What a [`ConsensusTopicResponse`] holds.
pub struct ConsensusTopicResponseView {
    pub consensus_timestamp: Option<Timestamp>,
    pub message: Seq<u8>,
    pub running_hash: Seq<u8>,
    pub sequence_number: u64,
    pub running_hash_version: u64,
    pub chunk_info: Option<ConsensusMessageChunkInfo>,
}

impl View for ServiceEndpoint {
    type V = ServiceEndpointView;

    open spec fn view(&self) -> ServiceEndpointView {
        ServiceEndpointView { ip_address_v4: self.ip_address_v4@, port: self.port }
    }
}

impl View for NodeAddress {
    type V = NodeAddressView;

    open spec fn view(&self) -> NodeAddressView {
        NodeAddressView {
            rsa_pub_key: self.rsa_pub_key@,
            node_id: self.node_id,
            node_account_id: self.node_account_id,
            node_cert_hash: self.node_cert_hash@,
            service_endpoint: Seq::new(
                self.service_endpoint@.len(),
                |i: int| self.service_endpoint@[i]@,
            ),
            description: self.description@,
        }
    }
}

impl View for ConsensusTopicResponse {
    type V = ConsensusTopicResponseView;

    open spec fn view(&self) -> ConsensusTopicResponseView {
        ConsensusTopicResponseView {
            consensus_timestamp: self.consensus_timestamp,
            message: self.message@,
            running_hash: self.running_hash@,
            sequence_number: self.sequence_number,
            running_hash_version: self.running_hash_version,
            chunk_info: self.chunk_info,
        }
    }
}

} // verus!
