//! The listing of an address book: its query and the nodes that it yields.

use vstd::prelude::*;

use crate::entity_id::{AccountId, EntityId, FileId};
use crate::error::{decoded_view, DecodeError};
use crate::proto;

verus! {

/// Asks for the nodes of an address book.
#[derive(Clone, Copy, Debug, PartialEq, Eq, Hash, Structural)]
pub struct NodeAddressBookQueryData {
    /// The file that holds the address book.
    pub file_id: FileId,
    /// The most nodes to list; zero for all of them.
    pub limit: u32,
}

/// Where a node can be reached.
#[derive(Clone, Copy, Debug, PartialEq, Eq, Hash)]
pub struct ServiceEndpoint {
    pub ip_address_v4: [u8; 4],
    pub port: u16,
}

/// A node of the address book.
#[derive(Clone, Debug, PartialEq, Eq)]
pub struct NodeAddress {
    pub node_id: u64,
    pub node_account_id: AccountId,
    pub rsa_public_key: String,
    pub tls_certificate_hash: Vec<u8>,
    pub service_endpoints: Vec<ServiceEndpoint>,
    pub description: String,
}

/// What a [`NodeAddress`] holds.
pub struct NodeAddressView {
    pub node_id: u64,
    pub node_account_id: AccountId,
    pub rsa_public_key: Seq<char>,
    pub tls_certificate_hash: Seq<u8>,
    pub service_endpoints: Seq<ServiceEndpoint>,
    pub description: Seq<char>,
}

impl View for NodeAddress {
    type V = NodeAddressView;

    open spec fn view(&self) -> NodeAddressView {
        NodeAddressView {
            node_id: self.node_id,
            node_account_id: self.node_account_id,
            rsa_public_key: self.rsa_public_key@,
            tls_certificate_hash: self.tls_certificate_hash@,
            service_endpoints: self.service_endpoints@,
            description: self.description@,
        }
    }
}

impl NodeAddressBookQueryData {
    /// Asks for every node of the address book that the ledger keeps in
    /// file `0.0.102`.
    pub fn new() -> (query: NodeAddressBookQueryData)
        ensures
            query == (NodeAddressBookQueryData {
                file_id: EntityId { shard: 0, realm: 0, num: 102 },
                limit: 0,
            }),
    {
        NodeAddressBookQueryData { file_id: EntityId { shard: 0, realm: 0, num: 102 }, limit: 0 }
    }
}

impl ServiceEndpoint {
    /// An endpoint means something if its address has four bytes and its
    /// port is one.
    pub open spec fn decodes(pb: proto::ServiceEndpointView) -> bool {
        pb.ip_address_v4.len() == 4 && 0 <= pb.port <= u16::MAX
    }

    /// The endpoint that a wire message stands for.
    pub open spec fn decode(pb: proto::ServiceEndpointView) -> ServiceEndpoint {
        ServiceEndpoint {
            ip_address_v4: [
                pb.ip_address_v4[0],
                pb.ip_address_v4[1],
                pb.ip_address_v4[2],
                pb.ip_address_v4[3],
            ],
            port: pb.port as u16,
        }
    }
}

impl NodeAddressView {
    /// What a wire message decodes to. The node must name an account, its
    /// number must not be negative, and each endpoint must mean something.
    pub open spec fn decode(pb: proto::NodeAddressView) -> Result<NodeAddressView, DecodeError> {
        match pb.node_account_id {
            None => Err(DecodeError::MissingNodeAccountId),
            Some(account) => match EntityId::decode(account) {
                Err(e) => Err(e),
                Ok(node_account_id) => if pb.node_id < 0 {
                    Err(DecodeError::InvalidNodeId)
                } else if !(forall|i: int|
                    0 <= i < pb.service_endpoint.len() ==> ServiceEndpoint::decodes(
                        #[trigger] pb.service_endpoint[i],
                    )) {
                    Err(DecodeError::InvalidServiceEndpoint)
                } else {
                    Ok(
                        NodeAddressView {
                            node_id: pb.node_id as u64,
                            node_account_id,
                            rsa_public_key: pb.rsa_pub_key,
                            tls_certificate_hash: pb.node_cert_hash,
                            service_endpoints: Seq::new(
                                pb.service_endpoint.len(),
                                |i: int| ServiceEndpoint::decode(pb.service_endpoint[i]),
                            ),
                            description: pb.description,
                        },
                    )
                },
            },
        }
    }
}

impl NodeAddress {
    /// Decodes a node of the address book.
    #[verifier::loop_isolation(false)]
    pub fn from_protobuf(pb: proto::NodeAddress) -> (r: Result<NodeAddress, DecodeError>)
        ensures
            decoded_view(r) == NodeAddressView::decode(pb@),
    {
        let node_account_id = match pb.node_account_id {
            None => {
                return Err(DecodeError::MissingNodeAccountId);
            },
            Some(account) => match EntityId::from_protobuf(account) {
                Err(e) => {
                    return Err(e);
                },
                Ok(id) => id,
            },
        };
        if pb.node_id < 0 {
            return Err(DecodeError::InvalidNodeId);
        }
        let mut service_endpoints: Vec<ServiceEndpoint> = Vec::new();
        let mut i: usize = 0;
        while i < pb.service_endpoint.len()
            invariant
                i <= pb.service_endpoint.len(),
                service_endpoints.len() == i,
                forall|j: int|
                    0 <= j < i ==> ServiceEndpoint::decodes(#[trigger] pb@.service_endpoint[j]),
                forall|j: int|
                    0 <= j < i ==> service_endpoints@[j] == ServiceEndpoint::decode(
                        #[trigger] pb@.service_endpoint[j],
                    ),
            decreases pb.service_endpoint.len() - i,
        {
            let endpoint = &pb.service_endpoint[i];
            assert(pb@.service_endpoint[i as int] == endpoint@);
            if endpoint.ip_address_v4.len() != 4 || endpoint.port < 0 || endpoint.port > 65535 {
                assert(!ServiceEndpoint::decodes(pb@.service_endpoint[i as int]));
                return Err(DecodeError::InvalidServiceEndpoint);
            }
            service_endpoints.push(
                ServiceEndpoint {
                    ip_address_v4: [
                        endpoint.ip_address_v4[0],
                        endpoint.ip_address_v4[1],
                        endpoint.ip_address_v4[2],
                        endpoint.ip_address_v4[3],
                    ],
                    port: endpoint.port as u16,
                },
            );
            i += 1;
        }
        let node = NodeAddress {
            node_id: pb.node_id as u64,
            node_account_id,
            rsa_public_key: pb.rsa_pub_key,
            tls_certificate_hash: pb.node_cert_hash,
            service_endpoints,
            description: pb.description,
        };
        proof {
            let expected = NodeAddressView::decode(pb@);
            assert(expected is Ok);
            assert(node@.service_endpoints =~= expected->Ok_0.service_endpoints);
        }
        Ok(node)
    }
}

} // verus!
