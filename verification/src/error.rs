//! What can be wrong with a wire message.

use vstd::prelude::*;

verus! {

/// Why a wire message does not decode. A message with several defects is
/// refused for the one that stands first here.
#[derive(Clone, Copy, Debug, PartialEq, Eq, Hash, Structural)]
pub enum DecodeError {
    /// A transaction identifier names no account.
    MissingAccountId,
    /// An account identifier holds a negative number, or gives no number for
    /// the account.
    InvalidAccountId,
    /// A transaction identifier has no start of validity.
    MissingValidStart,
    /// A start of validity lies outside the calendar.
    InvalidValidStart,
    /// A node names no account.
    MissingNodeAccountId,
    /// The number of a node is negative.
    InvalidNodeId,
    /// An endpoint has an address that is not four bytes long, or a port
    /// that is none.
    InvalidServiceEndpoint,
    /// A message of a topic has no consensus timestamp.
    MissingConsensusTimestamp,
    /// A consensus timestamp lies outside the calendar.
    InvalidConsensusTimestamp,
    /// A chunk does not lie among the chunks that it counts.
    InvalidChunkInfo,
}

/// What a decoder returned, as the values that it holds.
pub open spec fn decoded_view<T: View>(r: Result<T, DecodeError>) -> Result<T::V, DecodeError> {
    match r {
        Ok(v) => Ok(v@),
        Err(e) => Err(e),
    }
}

} // verus!
