//! Queries that subscribe to a stream of a mirror node.
//!
//! A payload says what is asked for. What every payload must offer to the
//! loop that runs a subscription is [`MirrorQuerySubscribe`];
//! [`any::AnyMirrorQueryData`] is the closed set of the payloads, and offers
//! it by handing each call to the payload that it holds.

pub mod any;
pub mod record;
pub mod subscription;

use vstd::prelude::*;

use crate::mirror_query::any::AnyMirrorQueryData;
use crate::status::StatusCode;
use crate::text::same_text;

verus! {

/// The kinds of subscription that a mirror node serves.
#[derive(Clone, Copy, Debug, PartialEq, Eq, Hash, Structural)]
pub enum MirrorQueryKind {
    /// The listing of the nodes in an address book: finite, it ends by itself.
    NodeAddressBook,
    /// The feed of the messages of a topic: without end.
    TopicMessage,
}

/// The failures after which a stream of this kind is opened again.
///
/// Each kind lists the codes that it retries; a code that it does not list
/// ends the subscription. A listing that is cut short is asked for again only
/// where the service was not reached. A feed has no natural end and also
/// waits out a service that sheds load.
pub open spec fn retry_policy(kind: MirrorQueryKind, code: StatusCode) -> bool {
    match kind {
        MirrorQueryKind::NodeAddressBook => code == StatusCode::Unavailable,
        MirrorQueryKind::TopicMessage => code == StatusCode::Unavailable || code
            == StatusCode::ResourceExhausted,
    }
}

impl MirrorQueryKind {
    /// The name under which the kind is stored.
    pub open spec fn name(self) -> Seq<char> {
        match self {
            MirrorQueryKind::NodeAddressBook => "nodeAddressBook"@,
            MirrorQueryKind::TopicMessage => "topicMessage"@,
        }
    }

    /// The kind that is stored under a name.
    pub open spec fn named(name: Seq<char>) -> Option<MirrorQueryKind> {
        if name == "nodeAddressBook"@ {
            Some(MirrorQueryKind::NodeAddressBook)
        } else if name == "topicMessage"@ {
            Some(MirrorQueryKind::TopicMessage)
        } else {
            None
        }
    }

    /// The name under which the kind is stored.
    pub fn as_str(self) -> (name: &'static str)
        ensures
            name@ == self.name(),
    {
        match self {
            MirrorQueryKind::NodeAddressBook => "nodeAddressBook",
            MirrorQueryKind::TopicMessage => "topicMessage",
        }
    }

    /// The kind that is stored under a name, if it is the name of one.
    pub fn from_name(name: &str) -> (kind: Option<MirrorQueryKind>)
        ensures
            kind == MirrorQueryKind::named(name@),
    {
        if same_text(name, "nodeAddressBook") {
            Some(MirrorQueryKind::NodeAddressBook)
        } else if same_text(name, "topicMessage") {
            Some(MirrorQueryKind::TopicMessage)
        } else {
            None
        }
    }

    /// Whether a stream of this kind is opened again after it failed with
    /// `code`.
    pub fn retries(self, code: StatusCode) -> (retry: bool)
        ensures
            retry == retry_policy(self, code),
    {
        match self {
            MirrorQueryKind::NodeAddressBook => code == StatusCode::Unavailable,
            MirrorQueryKind::TopicMessage => code == StatusCode::Unavailable || code
                == StatusCode::ResourceExhausted,
        }
    }
}

/// What a payload offers to the loop that runs its subscription.
///
/// The loop itself opens the stream and pulls from it. It asks the payload
/// which kind of stream that is, and whether a failure is worth another try.
/// The answer to the second depends on the kind and the code alone.
pub trait MirrorQuerySubscribe: Sized {
    /// The kind of stream that the payload subscribes to.
    spec fn tag(&self) -> MirrorQueryKind;

    /// The payload as one of the closed set.
    spec fn erased(&self) -> AnyMirrorQueryData;

    /// The kind of stream that the payload subscribes to.
    fn kind(&self) -> (kind: MirrorQueryKind)
        ensures
            kind == self.tag(),
    ;

    /// Whether the stream is opened again after it failed with
    /// `status_code`; the failure is final where it is not.
    fn should_retry(&self, status_code: StatusCode) -> (retry: bool)
        ensures
            retry == retry_policy(self.tag(), status_code),
    ;

    /// The payload as one of the closed set.
    fn to_any(&self) -> (any: AnyMirrorQueryData)
        ensures
            any == self.erased(),
            any.kind_of() == self.tag(),
    ;
}

/// A query to a mirror node: a payload, ready to be subscribed.
#[derive(Clone, Copy, Debug, PartialEq, Eq)]
pub struct MirrorQuery<D: MirrorQuerySubscribe> {
    pub data: D,
}

/// A query that holds any payload of the closed set.
pub type AnyMirrorQuery = MirrorQuery<AnyMirrorQueryData>;

impl<D: MirrorQuerySubscribe> MirrorQuery<D> {
    /// The query that subscribes `data`.
    pub fn new(data: D) -> (query: MirrorQuery<D>)
        ensures
            query.data == data,
    {
        MirrorQuery { data }
    }
}

/// The two kinds are stored under two names, and each is found again under
/// its own.
pub proof fn lemma_kind_names(kind: MirrorQueryKind)
    ensures
        MirrorQueryKind::named(kind.name()) == Some(kind),
{
    reveal_strlit("nodeAddressBook");
    reveal_strlit("topicMessage");
    assert("nodeAddressBook"@.len() != "topicMessage"@.len());
}

} // verus!
