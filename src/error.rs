use vstd::prelude::*;

verus! {

/// Terminal reasons a settlement is refused. Every one of them leaves the
/// ledger exactly as it was.
#[derive(Debug, Clone, Copy, PartialEq, Eq, Structural)]
pub enum SettleError {
    /// The destination endpoint does not use the protocol of the invoked path.
    ProtocolMismatch,
    /// A settlement record for this attested message already exists.
    AlreadySettled,
    /// The fee would make the user amount negative.
    FeeExceedsDeposit,
    /// A token movement out of the custody holding was refused: the holding
    /// is missing, answers to another authority or cannot cover it, or the
    /// burn-and-mint bridge rejected the burn.
    BridgeCallFailed,
    /// The messaging module rejected the publication.
    PublishCallFailed,
    /// The custody holding still held tokens when it was to be closed.
    NonZeroBalanceOnClose,
}

} // verus!
