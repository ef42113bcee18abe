//! The feed of a topic: its query and the messages that it yields.

use vstd::prelude::*;

use crate::entity_id::TopicId;
use crate::error::{decoded_view, DecodeError};
use crate::proto;
use crate::timestamp::Timestamp;
use crate::transaction_id::TransactionId;

verus! {

/// Asks for the messages of a topic.
#[derive(Clone, Copy, Debug, PartialEq, Eq, Hash, Structural)]
pub struct TopicMessageQueryData {
    /// The topic to listen to.
    pub topic_id: TopicId,
    /// Only messages that reached consensus at or after this instant.
    pub start_time: Option<Timestamp>,
    /// Only messages that reached consensus before this instant.
    pub end_time: Option<Timestamp>,
    /// The most messages to receive; zero for no bound.
    pub limit: u64,
}

/// The place of a message among the chunks of a larger one.
#[derive(Clone, Copy, Debug, PartialEq, Eq, Hash, Structural)]
pub struct ChunkInfo {
    /// The transaction that submitted the first chunk.
    pub initial_transaction_id: Option<TransactionId>,
    /// How many chunks the larger message has.
    pub total: u32,
    /// Which of them this is, counted from one.
    pub number: u32,
}

/// A message of a topic.
#[derive(Clone, Debug, PartialEq, Eq)]
pub struct TopicMessage {
    /// When the message reached consensus.
    pub consensus_timestamp: Timestamp,
    pub contents: Vec<u8>,
    pub running_hash: Vec<u8>,
    pub running_hash_version: u64,
    pub sequence_number: u64,
    /// Set where the message is one chunk of a larger one.
    pub chunk: Option<ChunkInfo>,
}

/// What a [`TopicMessage`] holds.
pub struct TopicMessageView {
    pub consensus_timestamp: Timestamp,
    pub contents: Seq<u8>,
    pub running_hash: Seq<u8>,
    pub running_hash_version: u64,
    pub sequence_number: u64,
    pub chunk: Option<ChunkInfo>,
}

impl View for TopicMessage {
    type V = TopicMessageView;

    open spec fn view(&self) -> TopicMessageView {
        TopicMessageView {
            consensus_timestamp: self.consensus_timestamp,
            contents: self.contents@,
            running_hash: self.running_hash@,
            running_hash_version: self.running_hash_version,
            sequence_number: self.sequence_number,
            chunk: self.chunk,
        }
    }
}

impl TopicMessageQueryData {
    /// The instants that bound the feed lie in the calendar.
    pub open spec fn wf(self) -> bool {
        &&& self.start_time matches Some(t) ==> t.wf()
        &&& self.end_time matches Some(t) ==> t.wf()
    }

    /// Asks for every message of a topic from now on.
    pub fn new(topic_id: TopicId) -> (query: TopicMessageQueryData)
        ensures
            query == (TopicMessageQueryData {
                topic_id,
                start_time: None,
                end_time: None,
                limit: 0,
            }),
            query.wf(),
    {
        TopicMessageQueryData { topic_id, start_time: None, end_time: None, limit: 0 }
    }
}

impl ChunkInfo {
    /// What a wire message decodes to. The first chunk's transaction, where
    /// it is named, must decode, and the chunk must be one of those counted.
    pub open spec fn decode(pb: proto::ConsensusMessageChunkInfo) -> Result<
        ChunkInfo,
        DecodeError,
    > {
        let initial = match pb.initial_transaction_id {
            None => Ok(None),
            Some(id) => match TransactionId::decode(id) {
                Ok(id) => Ok(Some(id)),
                Err(e) => Err(e),
            },
        };
        match initial {
            Err(e) => Err(e),
            Ok(initial_transaction_id) => if 1 <= pb.number <= pb.total {
                Ok(
                    ChunkInfo {
                        initial_transaction_id,
                        total: pb.total as u32,
                        number: pb.number as u32,
                    },
                )
            } else {
                Err(DecodeError::InvalidChunkInfo)
            },
        }
    }

    /// Decodes the place of a chunk.
    pub fn from_protobuf(pb: proto::ConsensusMessageChunkInfo) -> (r: Result<
        ChunkInfo,
        DecodeError,
    >)
        ensures
            r == ChunkInfo::decode(pb),
            r matches Ok(chunk) ==> 1 <= chunk.number <= chunk.total,
    {
        let initial_transaction_id = match pb.initial_transaction_id {
            None => None,
            Some(id) => match TransactionId::from_protobuf(id) {
                Ok(id) => Some(id),
                Err(e) => {
                    return Err(e);
                },
            },
        };
        if 1 <= pb.number && pb.number <= pb.total {
            Ok(
                ChunkInfo {
                    initial_transaction_id,
                    total: pb.total as u32,
                    number: pb.number as u32,
                },
            )
        } else {
            Err(DecodeError::InvalidChunkInfo)
        }
    }
}

impl TopicMessageView {
    /// What a wire message decodes to. It must carry a consensus timestamp
    /// of the calendar; where it is a chunk, its place must decode.
    pub open spec fn decode(pb: proto::ConsensusTopicResponseView) -> Result<
        TopicMessageView,
        DecodeError,
    > {
        match pb.consensus_timestamp {
            None => Err(DecodeError::MissingConsensusTimestamp),
            Some(at) => match Timestamp::at(at.seconds as int, at.nanos as int) {
                None => Err(DecodeError::InvalidConsensusTimestamp),
                Some(consensus_timestamp) => {
                    let chunk = match pb.chunk_info {
                        None => Ok(None),
                        Some(info) => match ChunkInfo::decode(info) {
                            Ok(chunk) => Ok(Some(chunk)),
                            Err(e) => Err(e),
                        },
                    };
                    match chunk {
                        Err(e) => Err(e),
                        Ok(chunk) => Ok(
                            TopicMessageView {
                                consensus_timestamp,
                                contents: pb.message,
                                running_hash: pb.running_hash,
                                running_hash_version: pb.running_hash_version,
                                sequence_number: pb.sequence_number,
                                chunk,
                            },
                        ),
                    }
                },
            },
        }
    }
}

impl TopicMessage {
    /// Decodes a message of a topic.
    pub fn from_protobuf(pb: proto::ConsensusTopicResponse) -> (r: Result<
        TopicMessage,
        DecodeError,
    >)
        ensures
            decoded_view(r) == TopicMessageView::decode(pb@),
            r matches Ok(message) ==> message.consensus_timestamp.wf(),
    {
        let consensus_timestamp = match pb.consensus_timestamp {
            None => {
                return Err(DecodeError::MissingConsensusTimestamp);
            },
            Some(at) => match Timestamp::from_protobuf(at) {
                None => {
                    return Err(DecodeError::InvalidConsensusTimestamp);
                },
                Some(t) => t,
            },
        };
        let chunk = match pb.chunk_info {
            None => None,
            Some(info) => match ChunkInfo::from_protobuf(info) {
                Ok(chunk) => Some(chunk),
                Err(e) => {
                    return Err(e);
                },
            },
        };
        Ok(
            TopicMessage {
                consensus_timestamp,
                contents: pb.message,
                running_hash: pb.running_hash,
                running_hash_version: pb.running_hash_version,
                sequence_number: pb.sequence_number,
                chunk,
            },
        )
    }
}

} // verus!
