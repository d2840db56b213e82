//! The data model: the persisted escrow record, the instruction set, the
//! error kinds, and the runtime facts a settlement call depends on.

use vstd::prelude::*;

verus! {

/// The sole persisted entity: one fixed-size record per escrow account.
///
/// `is_initialized` is a one-way latch: false until `Initialize` succeeds,
/// true forever after. `total_bets` counts settled bets; `total_amount_wagered`
/// sums their amounts. Both counters are non-decreasing over the account's
/// lifetime.
#[derive(Clone, Copy, Debug, PartialEq, Eq, Structural)]
pub struct CoinFlipState {
    pub is_initialized: bool,
    pub total_bets: u64,
    pub total_amount_wagered: u64,
}

/// A transient instruction, decoded once per invocation and never persisted.
#[derive(Clone, Copy, Debug, PartialEq, Eq, Structural)]
pub enum CoinFlipInstruction {
    Initialize,
    /// `side` is the bettor's call: true for heads, false for tails.
    PlaceBet { amount: u64, side: bool },
}

/// Every way an invocation can fail. Each handler fails fast on the first
/// violated precondition, with no partial write of the record.
#[derive(Clone, Copy, Debug, PartialEq, Eq, Structural)]
pub enum CoinFlipError {
    /// Malformed instruction or record bytes.
    DecodeError,
    /// The account's backing collateral is below the permanently-funded
    /// threshold required by `Initialize`.
    InsufficientCollateral,
    /// `Initialize` on a record whose latch is already set.
    AlreadyInitialized,
    /// The bettor presented no valid authorization.
    Unauthorized,
    /// `PlaceBet` on a record whose latch is not yet set.
    Uninitialized,
    /// A wager of zero.
    InvalidAmount,
    /// The wager would overflow the transfer primitive's range, either added
    /// to the escrow's balance or doubled for the payout.
    AmountOverflow,
    /// The escrow debit was refused by the transfer primitive.
    TransferFailed,
    /// A settlement counter would overflow.
    CounterOverflow,
    /// The payout transfer was refused by the transfer primitive.
    PayoutFailed,
}

/// The facts a single settlement call takes from the host runtime, injected
/// as plain values: the signature check's verdict, the escrow account's
/// current balance, the clock reading, and the verdict of each value
/// transfer the runtime performs when asked.
#[derive(Clone, Copy, Debug, PartialEq, Eq, Structural)]
pub struct BetContext {
    /// Whether the bettor signed the invocation.
    pub player_is_signer: bool,
    /// The escrow account's balance at the time of the call.
    pub escrow_balance: u64,
    /// Whether the escrow debit succeeds when the handler asks for it.
    pub escrow_transfer_ok: bool,
    /// The external clock value, the seed of the outcome.
    pub timestamp: i64,
    /// Whether the payout transfer succeeds when the handler asks for it.
    pub payout_transfer_ok: bool,
}

/// The value movements a settlement call asked the runtime for and the
/// runtime confirmed. Zero means no transfer happened in that direction.
#[derive(Clone, Copy, Debug, PartialEq, Eq, Structural)]
pub struct BetEffects {
    /// Value moved from the bettor into escrow.
    pub escrow_debited: u64,
    /// Value moved from escrow back to the bettor.
    pub payout_sent: u64,
}

/// What a successfully dispatched instruction reports back.
#[derive(Clone, Copy, Debug, PartialEq, Eq, Structural)]
pub enum ProcessOutcome {
    Initialized,
    BetSettled { player_won: bool },
}

impl BetEffects {
    /// No value moved in either direction.
    pub open spec fn spec_none() -> BetEffects {
        BetEffects { escrow_debited: 0, payout_sent: 0 }
    }

    /// Executable twin of [`BetEffects::spec_none`].
    pub fn none() -> (r: BetEffects)
        ensures
            r == BetEffects::spec_none(),
    {
        BetEffects { escrow_debited: 0, payout_sent: 0 }
    }
}

} // verus!
