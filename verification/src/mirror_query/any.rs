//! The closed set of the subscriptions, and what runs one without knowing
//! which it is.
//!
//! There are three unions, case for case alike: what is asked, what the wire
//! carries in answer, and what that decodes to. A message has the tag of the
//! stream that it came from, and the stream has the tag of the payload that
//! opened it.

use vstd::prelude::*;

use crate::error::{decoded_view, DecodeError};
use crate::mirror_query::{MirrorQueryKind, MirrorQuerySubscribe};
use crate::node_address::{NodeAddress, NodeAddressBookQueryData, NodeAddressView};
use crate::proto;
use crate::status::StatusCode;
use crate::topic_message::{TopicMessage, TopicMessageQueryData, TopicMessageView};

verus! {

/// Any payload: what is asked of the mirror node.
#[derive(Clone, Copy, Debug, PartialEq, Eq, Hash, Structural)]
pub enum AnyMirrorQueryData {
    NodeAddressBook(NodeAddressBookQueryData),
    TopicMessage(TopicMessageQueryData),
}

/// Any message of a subscription, decoded.
#[derive(Clone, Debug, PartialEq, Eq)]
pub enum AnyMirrorQueryMessage {
    NodeAddressBook(NodeAddress),
    TopicMessage(TopicMessage),
}

/// Everything that a subscription delivered.
pub type AnyMirrorQueryResponse = Vec<AnyMirrorQueryMessage>;

/// Any message of a subscription, as the wire carries it.
#[derive(Clone, Debug, PartialEq, Eq)]
pub enum AnyMirrorQueryGrpcMessage {
    NodeAddressBook(proto::NodeAddress),
    TopicMessage(proto::ConsensusTopicResponse),
}

/// Any open stream. `A` is the stream of a listing, `T` that of a feed; the
/// transport says what they are.
pub enum AnyMirrorQueryGrpcStream<A, T> {
    NodeAddressBook(A),
    TopicMessage(T),
}

/// What an [`AnyMirrorQueryMessage`] holds.
pub enum AnyMirrorQueryMessageView {
    NodeAddressBook(NodeAddressView),
    TopicMessage(TopicMessageView),
}

/// What an [`AnyMirrorQueryGrpcMessage`] holds.
pub enum AnyMirrorQueryGrpcMessageView {
    NodeAddressBook(proto::NodeAddressView),
    TopicMessage(proto::ConsensusTopicResponseView),
}

impl View for AnyMirrorQueryMessage {
    type V = AnyMirrorQueryMessageView;

    open spec fn view(&self) -> AnyMirrorQueryMessageView {
        match self {
            AnyMirrorQueryMessage::NodeAddressBook(node) => {
                AnyMirrorQueryMessageView::NodeAddressBook(node@)
            },
            AnyMirrorQueryMessage::TopicMessage(message) => {
                AnyMirrorQueryMessageView::TopicMessage(message@)
            },
        }
    }
}

impl View for AnyMirrorQueryGrpcMessage {
    type V = AnyMirrorQueryGrpcMessageView;

    open spec fn view(&self) -> AnyMirrorQueryGrpcMessageView {
        match self {
            AnyMirrorQueryGrpcMessage::NodeAddressBook(node) => {
                AnyMirrorQueryGrpcMessageView::NodeAddressBook(node@)
            },
            AnyMirrorQueryGrpcMessage::TopicMessage(message) => {
                AnyMirrorQueryGrpcMessageView::TopicMessage(message@)
            },
        }
    }
}

impl AnyMirrorQueryData {
    /// The tag of the payload.
    pub open spec fn kind_of(self) -> MirrorQueryKind {
        match self {
            AnyMirrorQueryData::NodeAddressBook(_) => MirrorQueryKind::NodeAddressBook,
            AnyMirrorQueryData::TopicMessage(_) => MirrorQueryKind::TopicMessage,
        }
    }

    /// The payload holds what a payload of its kind may hold.
    pub open spec fn wf(self) -> bool {
        match self {
            AnyMirrorQueryData::NodeAddressBook(_) => true,
            AnyMirrorQueryData::TopicMessage(query) => query.wf(),
        }
    }
}

impl AnyMirrorQueryMessageView {
    /// The tag of the message.
    pub open spec fn kind_of(self) -> MirrorQueryKind {
        match self {
            AnyMirrorQueryMessageView::NodeAddressBook(_) => MirrorQueryKind::NodeAddressBook,
            AnyMirrorQueryMessageView::TopicMessage(_) => MirrorQueryKind::TopicMessage,
        }
    }

    /// What a wire message decodes to: what the decoder of its kind makes of
    /// it, under the same tag.
    pub open spec fn decode(message: AnyMirrorQueryGrpcMessageView) -> Result<
        AnyMirrorQueryMessageView,
        DecodeError,
    > {
        match message {
            AnyMirrorQueryGrpcMessageView::NodeAddressBook(pb) => match NodeAddressView::decode(
                pb,
            ) {
                Ok(node) => Ok(AnyMirrorQueryMessageView::NodeAddressBook(node)),
                Err(e) => Err(e),
            },
            AnyMirrorQueryGrpcMessageView::TopicMessage(pb) => match TopicMessageView::decode(pb) {
                Ok(message) => Ok(AnyMirrorQueryMessageView::TopicMessage(message)),
                Err(e) => Err(e),
            },
        }
    }
}

impl AnyMirrorQueryGrpcMessageView {
    /// The tag of the message.
    pub open spec fn kind_of(self) -> MirrorQueryKind {
        match self {
            AnyMirrorQueryGrpcMessageView::NodeAddressBook(_) => MirrorQueryKind::NodeAddressBook,
            AnyMirrorQueryGrpcMessageView::TopicMessage(_) => MirrorQueryKind::TopicMessage,
        }
    }
}

impl<A, T> AnyMirrorQueryGrpcStream<A, T> {
    /// The tag of the stream.
    pub open spec fn kind_of(self) -> MirrorQueryKind {
        match self {
            AnyMirrorQueryGrpcStream::NodeAddressBook(_) => MirrorQueryKind::NodeAddressBook,
            AnyMirrorQueryGrpcStream::TopicMessage(_) => MirrorQueryKind::TopicMessage,
        }
    }

    /// The tag of the stream.
    pub fn kind(&self) -> (kind: MirrorQueryKind)
        ensures
            kind == self.kind_of(),
    {
        match self {
            AnyMirrorQueryGrpcStream::NodeAddressBook(_) => MirrorQueryKind::NodeAddressBook,
            AnyMirrorQueryGrpcStream::TopicMessage(_) => MirrorQueryKind::TopicMessage,
        }
    }
}

impl AnyMirrorQueryGrpcMessage {
    /// The tag of the message.
    pub fn kind(&self) -> (kind: MirrorQueryKind)
        ensures
            kind == self@.kind_of(),
    {
        match self {
            AnyMirrorQueryGrpcMessage::NodeAddressBook(_) => MirrorQueryKind::NodeAddressBook,
            AnyMirrorQueryGrpcMessage::TopicMessage(_) => MirrorQueryKind::TopicMessage,
        }
    }
}

impl AnyMirrorQueryMessage {
    /// The tag of the message.
    pub fn kind(&self) -> (kind: MirrorQueryKind)
        ensures
            kind == self@.kind_of(),
    {
        match self {
            AnyMirrorQueryMessage::NodeAddressBook(_) => MirrorQueryKind::NodeAddressBook,
            AnyMirrorQueryMessage::TopicMessage(_) => MirrorQueryKind::TopicMessage,
        }
    }

    /// Decodes a wire message with the decoder of its kind.
    ///
    /// One message gives one result. A message that does not decode gives the
    /// reason; that is a fault of the data, and says nothing of the stream.
    pub fn from_protobuf(message: AnyMirrorQueryGrpcMessage) -> (r: Result<
        AnyMirrorQueryMessage,
        DecodeError,
    >)
        ensures
            decoded_view(r) == AnyMirrorQueryMessageView::decode(message@),
            r matches Ok(decoded) ==> decoded@.kind_of() == message@.kind_of(),
    {
        match message {
            AnyMirrorQueryGrpcMessage::NodeAddressBook(pb) => match NodeAddress::from_protobuf(pb) {
                Ok(node) => Ok(AnyMirrorQueryMessage::NodeAddressBook(node)),
                Err(e) => Err(e),
            },
            AnyMirrorQueryGrpcMessage::TopicMessage(pb) => match TopicMessage::from_protobuf(pb) {
                Ok(message) => Ok(AnyMirrorQueryMessage::TopicMessage(message)),
                Err(e) => Err(e),
            },
        }
    }
}

impl MirrorQuerySubscribe for NodeAddressBookQueryData {
    open spec fn tag(&self) -> MirrorQueryKind {
        MirrorQueryKind::NodeAddressBook
    }

    open spec fn erased(&self) -> AnyMirrorQueryData {
        AnyMirrorQueryData::NodeAddressBook(*self)
    }

    fn kind(&self) -> (kind: MirrorQueryKind) {
        MirrorQueryKind::NodeAddressBook
    }

    fn should_retry(&self, status_code: StatusCode) -> (retry: bool) {
        MirrorQueryKind::NodeAddressBook.retries(status_code)
    }

    fn to_any(&self) -> (any: AnyMirrorQueryData) {
        AnyMirrorQueryData::NodeAddressBook(*self)
    }
}

impl MirrorQuerySubscribe for TopicMessageQueryData {
    open spec fn tag(&self) -> MirrorQueryKind {
        MirrorQueryKind::TopicMessage
    }

    open spec fn erased(&self) -> AnyMirrorQueryData {
        AnyMirrorQueryData::TopicMessage(*self)
    }

    fn kind(&self) -> (kind: MirrorQueryKind) {
        MirrorQueryKind::TopicMessage
    }

    fn should_retry(&self, status_code: StatusCode) -> (retry: bool) {
        MirrorQueryKind::TopicMessage.retries(status_code)
    }

    fn to_any(&self) -> (any: AnyMirrorQueryData) {
        AnyMirrorQueryData::TopicMessage(*self)
    }
}

impl MirrorQuerySubscribe for AnyMirrorQueryData {
    open spec fn tag(&self) -> MirrorQueryKind {
        self.kind_of()
    }

    open spec fn erased(&self) -> AnyMirrorQueryData {
        *self
    }

    fn kind(&self) -> (kind: MirrorQueryKind) {
        match self {
            AnyMirrorQueryData::NodeAddressBook(query) => query.kind(),
            AnyMirrorQueryData::TopicMessage(query) => query.kind(),
        }
    }

    fn should_retry(&self, status_code: StatusCode) -> (retry: bool) {
        match self {
            AnyMirrorQueryData::NodeAddressBook(query) => query.should_retry(status_code),
            AnyMirrorQueryData::TopicMessage(query) => query.should_retry(status_code),
        }
    }

    fn to_any(&self) -> (any: AnyMirrorQueryData) {
        *self
    }
}

/// Each kind has its case in each of the three unions: a payload, a wire
/// message and a decoded message with its tag.
pub proof fn lemma_every_kind_has_its_cases(kind: MirrorQueryKind)
    ensures
        exists|data: AnyMirrorQueryData| data.kind_of() == kind,
        exists|message: AnyMirrorQueryGrpcMessageView| message.kind_of() == kind,
        exists|message: AnyMirrorQueryMessageView| message.kind_of() == kind,
{
    let listing: NodeAddressBookQueryData = arbitrary();
    let feed: TopicMessageQueryData = arbitrary();
    let node_pb: proto::NodeAddressView = arbitrary();
    let topic_pb: proto::ConsensusTopicResponseView = arbitrary();
    let node: NodeAddressView = arbitrary();
    let topic: TopicMessageView = arbitrary();
    match kind {
        MirrorQueryKind::NodeAddressBook => {
            assert(AnyMirrorQueryData::NodeAddressBook(listing).kind_of() == kind);
            assert(AnyMirrorQueryGrpcMessageView::NodeAddressBook(node_pb).kind_of() == kind);
            assert(AnyMirrorQueryMessageView::NodeAddressBook(node).kind_of() == kind);
        },
        MirrorQueryKind::TopicMessage => {
            assert(AnyMirrorQueryData::TopicMessage(feed).kind_of() == kind);
            assert(AnyMirrorQueryGrpcMessageView::TopicMessage(topic_pb).kind_of() == kind);
            assert(AnyMirrorQueryMessageView::TopicMessage(topic).kind_of() == kind);
        },
    }
}

} // verus!
