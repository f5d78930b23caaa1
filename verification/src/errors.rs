use vstd::prelude::*;

verus! {

/// The failure kinds of the mining client.
///
/// `NetworkError` and `Expired` are transient and may be retried by the
/// submission layer; `Rejected` and `InsufficientBalance` are definitive and
/// are surfaced without retry; `WorkerFailure` aborts a mining round, since a
/// partial search of the nonce space is never trusted as a round's result.
#[derive(Clone, Copy, Debug, PartialEq, Eq, Structural)]
pub enum MinerError {
    /// A bad thread count or a malformed input such as a difficulty of the
    /// wrong width.
    InvalidConfig,
    /// A search worker did not report a result for its range.
    WorkerFailure,
    /// The ledger endpoint was unreachable or timed out.
    NetworkError,
    /// The transaction's blockhash left the validity window unconfirmed.
    Expired,
    /// The ledger definitively rejected the transaction.
    Rejected,
    /// A claim asked for more than the claimable balance.
    InsufficientBalance,
}

} // verus!
