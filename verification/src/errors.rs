use vstd::prelude::*;

verus! {

/// Why an operation on the game or on the staking pool was rejected.
#[derive(Clone, Copy, Debug, PartialEq, Eq, Structural)]
pub enum CasinoError {
    /// The game does not accept operations while paused.
    GamePaused,
    /// The bet amount lies outside the configured bounds.
    InvalidBetAmount,
    /// The bet is not in the state that the operation needs.
    InvalidBetStatus,
    /// The cash-out was requested above the crash point of a resolved round.
    GameAlreadyCrashed,
    /// A checked arithmetic operation left the range of `u64`.
    MathOverflow,
    /// The signer is not the casino's authority.
    Unauthorized,
    /// The amount to stake or unstake is zero.
    InvalidStakeAmount,
    /// More was asked back than is staked.
    InsufficientStake,
    /// There is no stake to earn rewards on.
    NoStake,
    /// Nothing is claimable at the moment.
    NoRewards,
    /// The random seed is not exactly 32 bytes long.
    InvalidVrfResult,
}

impl CasinoError {
    /// The human-readable text of each error.
    pub open spec fn message_text(self) -> Seq<char> {
        match self {
            CasinoError::GamePaused => "Game is currently paused"@,
            CasinoError::InvalidBetAmount => "Invalid bet amount"@,
            CasinoError::InvalidBetStatus => "Invalid bet status"@,
            CasinoError::GameAlreadyCrashed => "Game has already crashed"@,
            CasinoError::MathOverflow => "Math overflow"@,
            CasinoError::Unauthorized => "Unauthorized"@,
            CasinoError::InvalidStakeAmount => "Invalid stake amount"@,
            CasinoError::InsufficientStake => "Insufficient stake"@,
            CasinoError::NoStake => "No stake found"@,
            CasinoError::NoRewards => "No rewards to claim"@,
            CasinoError::InvalidVrfResult => "Invalid VRF result"@,
        }
    }

    /// The text to show for this error.
    pub fn message(&self) -> (text: &'static str)
        ensures
            text@ == self.message_text(),
    {
        match self {
            CasinoError::GamePaused => "Game is currently paused",
            CasinoError::InvalidBetAmount => "Invalid bet amount",
            CasinoError::InvalidBetStatus => "Invalid bet status",
            CasinoError::GameAlreadyCrashed => "Game has already crashed",
            CasinoError::MathOverflow => "Math overflow",
            CasinoError::Unauthorized => "Unauthorized",
            CasinoError::InvalidStakeAmount => "Invalid stake amount",
            CasinoError::InsufficientStake => "Insufficient stake",
            CasinoError::NoStake => "No stake found",
            CasinoError::NoRewards => "No rewards to claim",
            CasinoError::InvalidVrfResult => "Invalid VRF result",
        }
    }
}

} // verus!
