use vstd::prelude::*;

verus! {

/// Why an operation on a voter, a deposit entry or the registrar was refused.
#[derive(Clone, Copy, Debug, PartialEq, Eq, Structural)]
pub enum VsrError {
    /// The asset is not configured in the registrar.
    VotingMintNotFound,
    /// The deposit entry still holds tokens.
    VotingTokenNonZero,
    /// The deposit entry index is beyond the voter's capacity.
    OutOfBoundsDepositEntryIndex,
    /// The deposit entry is not in the state the operation needs (unused, or already used
    /// when a new one is created there).
    UnusedDepositEntryIndex,
    /// The amount exceeds the unlocked balance.
    InsufficientUnlockedTokens,
    /// The lockup kind and period do not agree.
    InvalidLockupPeriod,
    /// The asset configuration index is taken already.
    VotingMintConfigIndexAlreadyInUse,
    /// The asset configuration index is beyond the registrar's capacity.
    OutOfBoundsVotingMintConfigIndex,
    /// The asset does not match the one the deposit entry is bound to.
    InvalidMint,
    /// The term has not ended, or some tokens are still locked.
    DepositStillLocked,
    /// The sum of the voting power does not fit.
    VoterWeightOverflow,
    /// The asset is configured already, under another index.
    VotingMintConfiguredWithDifferentIndex,
    /// A custody account of the voter still holds tokens.
    VaultTokenNonZero,
    /// A timestamp computed from the clock does not fit, or the cooldown has not passed.
    InvalidTimestampArguments,
    /// A fixed-term deposit is withdrawn from before its unlock was requested.
    UnlockMustBeCalledFirst,
    /// The unlock was requested already.
    UnlockAlreadyRequested,
    /// The target is not a fixed-term deposit, or the new period is shorter than the current one.
    ExtendDepositIsNotAllowed,
    /// Tokens can only be deposited into an unrestricted deposit entry.
    DepositingIsForbidded,
    /// Only an unrestricted deposit entry can be the source of staked tokens.
    LockingIsForbidded,
    /// Tokens can only be staked into a deposit entry that holds none yet.
    DepositEntryIsOld,
    /// A checked addition or subtraction did not fit.
    ArithmeticOverflow,
    /// A fixed-term deposit entry is still in use.
    DepositStillUsed,
}

} // verus!
