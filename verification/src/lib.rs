//! Subscriptions to a mirror node, as values.
//!
//! A mirror node serves several kinds of long-lived streams, each with a wire
//! schema of its own. This crate holds what is common to them and free of
//! I/O: the closed set of query payloads, the rule that tells a failure worth
//! retrying from a final one, the decoding of wire messages, the decisions of
//! the loop that consumes a stream, and the record in which a query is
//! stored. A driver owns the channel and the stream; it reports what the
//! transport did and carries out what [`mirror_query::subscription::Step`]
//! tells it.
//!
//! Beside the queries stands [`TransactionId`], with the text in which it is
//! written and read.

pub mod decimal;
pub mod entity_id;
pub mod error;
pub mod mirror_query;
pub mod node_address;
pub mod proto;
pub mod status;
pub mod text;
pub mod timestamp;
pub mod topic_message;
pub mod transaction_id;

pub use entity_id::{AccountId, EntityId, FileId, TopicId};
pub use error::DecodeError;
pub use mirror_query::any::{
    AnyMirrorQueryData, AnyMirrorQueryGrpcMessage, AnyMirrorQueryGrpcStream,
    AnyMirrorQueryMessage, AnyMirrorQueryResponse,
};
pub use mirror_query::record::{DeserializeError, Field, QueryField, Record, Value};
pub use mirror_query::subscription::Step;
pub use mirror_query::{AnyMirrorQuery, MirrorQuery, MirrorQueryKind, MirrorQuerySubscribe};
pub use node_address::{NodeAddress, NodeAddressBookQueryData, ServiceEndpoint};
pub use status::StatusCode;
pub use timestamp::Timestamp;
pub use topic_message::{ChunkInfo, TopicMessage, TopicMessageQueryData};
pub use transaction_id::{ParseError, TransactionId};
