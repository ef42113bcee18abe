//! The decisions of the loop that runs a subscription.
//!
//! The loop opens a stream and pulls from it until the stream ends. After
//! each attempt it reports the outcome here and is told what to do next.
//! Nothing here waits, and nothing is kept between two calls but the query:
//! what follows an outcome depends on the query's kind and the outcome
//! alone.

use vstd::prelude::*;

use crate::error::DecodeError;
use crate::mirror_query::any::{
    AnyMirrorQueryGrpcMessage, AnyMirrorQueryGrpcMessageView, AnyMirrorQueryMessage,
    AnyMirrorQueryMessageView,
};
use crate::mirror_query::{retry_policy, MirrorQuery, MirrorQueryKind, MirrorQuerySubscribe};
use crate::status::StatusCode;

verus! {

/// What the loop does next.
#[derive(Clone, Debug, PartialEq, Eq)]
pub enum Step {
    /// Pull the next message from the stream.
    Pull,
    /// Let go of the stream, if there is one, and open one again.
    Reopen,
    /// Hand this message to the caller, then pull the next.
    Deliver(AnyMirrorQueryMessage),
    /// Hand this error to the caller in place of the message that did not
    /// decode, then pull the next.
    Reject(DecodeError),
    /// The stream has ended: the subscription is over, with no error.
    Complete,
    /// The subscription is over, with this failure.
    Fail(StatusCode),
}

/// What a [`Step`] holds.
pub enum StepView {
    Pull,
    Reopen,
    Deliver(AnyMirrorQueryMessageView),
    Reject(DecodeError),
    Complete,
    Fail(StatusCode),
}

impl View for Step {
    type V = StepView;

    open spec fn view(&self) -> StepView {
        match self {
            Step::Pull => StepView::Pull,
            Step::Reopen => StepView::Reopen,
            Step::Deliver(message) => StepView::Deliver(message@),
            Step::Reject(e) => StepView::Reject(*e),
            Step::Complete => StepView::Complete,
            Step::Fail(code) => StepView::Fail(*code),
        }
    }
}

/// What follows a failure of the transport: another try where the kind
/// retries the code, the end of the subscription where it does not.
pub open spec fn after_failure(kind: MirrorQueryKind, code: StatusCode) -> StepView {
    if retry_policy(kind, code) {
        StepView::Reopen
    } else {
        StepView::Fail(code)
    }
}

/// What follows an attempt to open the stream.
pub open spec fn after_open(kind: MirrorQueryKind, outcome: Result<(), StatusCode>) -> StepView {
    match outcome {
        Ok(_) => StepView::Pull,
        Err(code) => after_failure(kind, code),
    }
}

/// What follows a pull. A message is decoded and handed on, whether it
/// decodes or not; the end of the stream ends the subscription.
pub open spec fn after_pull(
    kind: MirrorQueryKind,
    outcome: Result<Option<AnyMirrorQueryGrpcMessageView>, StatusCode>,
) -> StepView {
    match outcome {
        Ok(Some(message)) => match AnyMirrorQueryMessageView::decode(message) {
            Ok(decoded) => StepView::Deliver(decoded),
            Err(e) => StepView::Reject(e),
        },
        Ok(None) => StepView::Complete,
        Err(code) => after_failure(kind, code),
    }
}

/// What a pull returned, as the values that it holds.
pub open spec fn pulled_view(
    outcome: Result<Option<AnyMirrorQueryGrpcMessage>, StatusCode>,
) -> Result<Option<AnyMirrorQueryGrpcMessageView>, StatusCode> {
    match outcome {
        Ok(Some(message)) => Ok(Some(message@)),
        Ok(None) => Ok(None),
        Err(code) => Err(code),
    }
}

impl<D: MirrorQuerySubscribe> MirrorQuery<D> {
    /// What to do after a failure of the transport.
    fn on_failure(&self, code: StatusCode) -> (step: Step)
        ensures
            step@ == after_failure(self.data.tag(), code),
    {
        if self.data.should_retry(code) {
            Step::Reopen
        } else {
            Step::Fail(code)
        }
    }

    /// What to do after an attempt to open the stream.
    pub fn on_open(&self, outcome: Result<(), StatusCode>) -> (step: Step)
        ensures
            step@ == after_open(self.data.tag(), outcome),
    {
        match outcome {
            Ok(_) => Step::Pull,
            Err(code) => self.on_failure(code),
        }
    }

    /// What to do after a pull.
    ///
    /// A stream carries the messages of its own kind and no others; it is for
    /// the caller to hand in only what came from the stream of this query.
    /// What is handed on to the caller then has the query's tag.
    pub fn on_pull(&self, outcome: Result<Option<AnyMirrorQueryGrpcMessage>, StatusCode>) -> (step:
        Step)
        requires
            outcome matches Ok(Some(message)) ==> message@.kind_of() == self.data.tag(),
        ensures
            step@ == after_pull(self.data.tag(), pulled_view(outcome)),
            step@ matches StepView::Deliver(decoded) ==> decoded.kind_of() == self.data.tag(),
    {
        match outcome {
            Ok(Some(message)) => match AnyMirrorQueryMessage::from_protobuf(message) {
                Ok(decoded) => Step::Deliver(decoded),
                Err(e) => Step::Reject(e),
            },
            Ok(None) => Step::Complete,
            Err(code) => self.on_failure(code),
        }
    }
}

/// What is decoded has the tag of what it was decoded from: a message that
/// came from a stream of kind `kind` is handed on under that kind, or not at
/// all.
pub proof fn lemma_tag_coherence(kind: MirrorQueryKind, message: AnyMirrorQueryGrpcMessageView)
    requires
        message.kind_of() == kind,
    ensures
        AnyMirrorQueryMessageView::decode(message) matches Ok(decoded) ==> decoded.kind_of()
            == kind,
        after_pull(kind, Ok(Some(message))) matches StepView::Deliver(decoded)
            ==> decoded.kind_of() == kind,
        !(after_pull(kind, Ok(Some(message))) is Complete),
        !(after_pull(kind, Ok(Some(message))) is Fail),
        !(after_pull(kind, Ok(Some(message))) is Reopen),
{
}

/// Whether a failure is retried depends on the kind of the payload and on
/// the code, and on nothing else that the payload holds.
pub proof fn lemma_classification_by_kind<A: MirrorQuerySubscribe, B: MirrorQuerySubscribe>(
    a: A,
    b: B,
    code: StatusCode,
)
    requires
        a.tag() == b.tag(),
    ensures
        retry_policy(a.tag(), code) == retry_policy(b.tag(), code),
        after_failure(a.tag(), code) == after_failure(b.tag(), code),
{
}

/// A code that no kind lists is final for every kind. `Unknown`, as which
/// every code without a name is read, is such a code.
pub proof fn lemma_unlisted_codes_are_final(kind: MirrorQueryKind, code: StatusCode)
    requires
        code != StatusCode::Unavailable,
        code != StatusCode::ResourceExhausted,
    ensures
        !retry_policy(kind, code),
        after_failure(kind, code) == StepView::Fail(code),
{
}

} // verus!
