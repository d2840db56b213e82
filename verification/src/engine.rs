//! The instruction handlers: first-time initialization of an escrow record
//! and settlement of a single bet, plus the dispatcher that routes a decoded
//! instruction to its handler.
//!
//! Each handler is a pure state transition over the account's raw bytes.
//! Everything the host runtime decides — the signature check, the collateral
//! query, the clock, and the verdict of each value transfer — is injected as
//! a plain value, and the value movements the handler asked for are returned
//! as [`BetEffects`] for the runtime to reconcile.

use crate::codec::{spec_decode_instruction, spec_decode_state, spec_encode_state};
use crate::state::{
    BetContext, BetEffects, CoinFlipError, CoinFlipInstruction, CoinFlipState, ProcessOutcome,
};
use vstd::prelude::*;

verus! {

/// The initialization transition on a record: refused without sufficient
/// collateral, refused once the latch is set, and otherwise producing the
/// fresh record with the latch set and both counters zero.
pub open spec fn spec_initialize(state: CoinFlipState, collateral_sufficient: bool) -> Result<
    CoinFlipState,
    CoinFlipError,
> {
    if !collateral_sufficient {
        Err(CoinFlipError::InsufficientCollateral)
    } else if state.is_initialized {
        Err(CoinFlipError::AlreadyInitialized)
    } else {
        Ok(CoinFlipState { is_initialized: true, total_bets: 0, total_amount_wagered: 0 })
    }
}

/// The outcome the clock value seeds: true exactly when the timestamp is
/// even. A pure function of the timestamp, so repeated derivations from the
/// same clock value always agree.
pub open spec fn spec_outcome(timestamp: i64) -> bool {
    timestamp % 2 == 0
}

/// Executable twin of [`spec_outcome`].
pub fn derive_outcome(timestamp: i64) -> (r: bool)
    ensures
        r == spec_outcome(timestamp),
{
    timestamp % 2 == 0
}

/// The settlement preconditions, in the order they are checked: the bettor
/// must have signed, the record's latch must be set, the wager must be
/// positive, and neither the escrowed sum nor the doubled payout may
/// overflow the transfer primitive's range.
pub open spec fn spec_validate_bet(
    state: CoinFlipState,
    amount: u64,
    escrow_balance: u64,
    player_is_signer: bool,
) -> Result<(), CoinFlipError> {
    if !player_is_signer {
        Err(CoinFlipError::Unauthorized)
    } else if !state.is_initialized {
        Err(CoinFlipError::Uninitialized)
    } else if amount == 0 {
        Err(CoinFlipError::InvalidAmount)
    } else if escrow_balance + amount > u64::MAX || amount + amount > u64::MAX {
        Err(CoinFlipError::AmountOverflow)
    } else {
        Ok(())
    }
}

/// Executable twin of [`spec_validate_bet`].
pub fn validate_bet(
    state: &CoinFlipState,
    amount: u64,
    escrow_balance: u64,
    player_is_signer: bool,
) -> (r: Result<(), CoinFlipError>)
    ensures
        r == spec_validate_bet(*state, amount, escrow_balance, player_is_signer),
{
    if !player_is_signer {
        Err(CoinFlipError::Unauthorized)
    } else if !state.is_initialized {
        Err(CoinFlipError::Uninitialized)
    } else if amount == 0 {
        Err(CoinFlipError::InvalidAmount)
    } else if amount > u64::MAX - escrow_balance || amount > u64::MAX / 2 {
        Err(CoinFlipError::AmountOverflow)
    } else {
        Ok(())
    }
}

/// The counter update of one settled bet: the bet count rises by exactly
/// one and the wagered sum by exactly the amount, both overflow-checked;
/// the latch is untouched.
pub open spec fn spec_settle(state: CoinFlipState, amount: u64) -> Result<
    CoinFlipState,
    CoinFlipError,
> {
    if state.total_bets + 1 > u64::MAX || state.total_amount_wagered + amount > u64::MAX {
        Err(CoinFlipError::CounterOverflow)
    } else {
        Ok(
            CoinFlipState {
                is_initialized: state.is_initialized,
                total_bets: (state.total_bets + 1) as u64,
                total_amount_wagered: (state.total_amount_wagered + amount) as u64,
            },
        )
    }
}

/// Executable twin of [`spec_settle`]: updates the record in place, or
/// leaves it exactly as it was and reports the overflow.
pub fn settle_counters(state: &mut CoinFlipState, amount: u64) -> (r: Result<(), CoinFlipError>)
    ensures
        match spec_settle(*old(state), amount) {
            Ok(settled) => r == Ok::<(), CoinFlipError>(()) && *final(state) == settled,
            Err(e) => r == Err::<(), CoinFlipError>(e) && *final(state) == *old(state),
        },
{
    let bets = match state.total_bets.checked_add(1) {
        Some(b) => b,
        None => {
            return Err(CoinFlipError::CounterOverflow);
        },
    };
    let wagered = match state.total_amount_wagered.checked_add(amount) {
        Some(w) => w,
        None => {
            return Err(CoinFlipError::CounterOverflow);
        },
    };
    state.total_bets = bets;
    state.total_amount_wagered = wagered;
    Ok(())
}

/// The payout a settled bet owes the bettor: double the wager when the
/// bettor's call matched the outcome, nothing otherwise.
pub open spec fn spec_payout(amount: u64, side: bool, outcome: bool) -> int {
    if side == outcome {
        2 * amount
    } else {
        0
    }
}

/// Executable twin of [`spec_payout`]. The doubled wager must fit the
/// transfer primitive's range, which [`spec_validate_bet`] has checked.
pub fn payout_due(amount: u64, side: bool, outcome: bool) -> (r: u64)
    requires
        amount + amount <= u64::MAX,
    ensures
        r == spec_payout(amount, side, outcome),
{
    if side == outcome {
        2 * amount
    } else {
        0
    }
}

/// The initialization transition on an account's raw bytes: the collateral
/// gate comes first, then the decode, then [`spec_initialize`]; only a
/// successful transition rewrites the buffer, and it writes the encoding of
/// the fresh record.
pub open spec fn spec_initialize_account(bytes: Seq<u8>, collateral_sufficient: bool) -> (
    Result<(), CoinFlipError>,
    Seq<u8>,
) {
    if !collateral_sufficient {
        (Err(CoinFlipError::InsufficientCollateral), bytes)
    } else {
        match spec_decode_state(bytes) {
            Err(e) => (Err(e), bytes),
            Ok(state) => match spec_initialize(state, true) {
                Err(e) => (Err(e), bytes),
                Ok(fresh) => (Ok(()), spec_encode_state(fresh)),
            },
        }
    }
}

/// First-time setup of an escrow account. No value moves here; the buffer
/// is rewritten exactly when the transition succeeds.
pub fn initialize_account(data: &mut Vec<u8>, collateral_sufficient: bool) -> (r: Result<
    (),
    CoinFlipError,
>)
    ensures
        (r, final(data)@) == spec_initialize_account(old(data)@, collateral_sufficient),
{
    if !collateral_sufficient {
        return Err(CoinFlipError::InsufficientCollateral);
    }
    let state = match CoinFlipState::decode(data.as_slice()) {
        Ok(s) => s,
        Err(e) => {
            return Err(e);
        },
    };
    if state.is_initialized {
        return Err(CoinFlipError::AlreadyInitialized);
    }
    let fresh = CoinFlipState { is_initialized: true, total_bets: 0, total_amount_wagered: 0 };
    let encoded = fresh.encode();
    *data = encoded;
    Ok(())
}

/// One whole settlement call on an account's raw bytes, as a function of
/// the runtime facts in the [`BetContext`]: the result (the win/lose
/// notification or the first failure), the value movements that took place,
/// and the buffer afterwards.
///
/// Failures before the escrow debit move no value and leave the buffer
/// unchanged. After a confirmed debit, a counter overflow or a refused
/// payout still leaves the buffer unchanged, but the debit stands — the
/// effects report it, and the engine cannot roll it back.
pub open spec fn spec_place_bet(bytes: Seq<u8>, amount: u64, side: bool, ctx: BetContext) -> (
    Result<bool, CoinFlipError>,
    BetEffects,
    Seq<u8>,
) {
    if !ctx.player_is_signer {
        (Err(CoinFlipError::Unauthorized), BetEffects::spec_none(), bytes)
    } else {
        match spec_decode_state(bytes) {
            Err(e) => (Err(e), BetEffects::spec_none(), bytes),
            Ok(state) => match spec_validate_bet(
                state,
                amount,
                ctx.escrow_balance,
                ctx.player_is_signer,
            ) {
                Err(e) => (Err(e), BetEffects::spec_none(), bytes),
                Ok(_) => if !ctx.escrow_transfer_ok {
                    (Err(CoinFlipError::TransferFailed), BetEffects::spec_none(), bytes)
                } else {
                    let debited = BetEffects { escrow_debited: amount, payout_sent: 0 };
                    let won = side == spec_outcome(ctx.timestamp);
                    match spec_settle(state, amount) {
                        Err(e) => (Err(e), debited, bytes),
                        Ok(settled) => if won && !ctx.payout_transfer_ok {
                            (Err(CoinFlipError::PayoutFailed), debited, bytes)
                        } else {
                            let effects = BetEffects {
                                escrow_debited: amount,
                                payout_sent: if won {
                                    (2 * amount) as u64
                                } else {
                                    0u64
                                },
                            };
                            (Ok(won), effects, spec_encode_state(settled))
                        },
                    }
                },
            },
        }
    }
}

/// Settle one bet against the account's raw bytes. Returns whether the
/// bettor won (or the first failure) and the value movements the runtime
/// confirmed; rewrites the buffer exactly when settlement ran to the end.
pub fn place_bet(data: &mut Vec<u8>, amount: u64, side: bool, ctx: BetContext) -> (r: (
    Result<bool, CoinFlipError>,
    BetEffects,
))
    ensures
        (r.0, r.1, final(data)@) == spec_place_bet(old(data)@, amount, side, ctx),
{
    if !ctx.player_is_signer {
        return (Err(CoinFlipError::Unauthorized), BetEffects::none());
    }
    let mut state = match CoinFlipState::decode(data.as_slice()) {
        Ok(s) => s,
        Err(e) => {
            return (Err(e), BetEffects::none());
        },
    };
    if let Err(e) = validate_bet(&state, amount, ctx.escrow_balance, ctx.player_is_signer) {
        return (Err(e), BetEffects::none());
    }
    if !ctx.escrow_transfer_ok {
        return (Err(CoinFlipError::TransferFailed), BetEffects::none());
    }
    let debited = BetEffects { escrow_debited: amount, payout_sent: 0 };
    let outcome = derive_outcome(ctx.timestamp);
    let player_won = side == outcome;
    if let Err(e) = settle_counters(&mut state, amount) {
        return (Err(e), debited);
    }
    if player_won && !ctx.payout_transfer_ok {
        return (Err(CoinFlipError::PayoutFailed), debited);
    }
    let payout = payout_due(amount, side, outcome);
    let encoded = state.encode();
    *data = encoded;
    (Ok(player_won), BetEffects { escrow_debited: amount, payout_sent: payout })
}

/// The dispatcher's transition: decode the instruction, route it to the
/// matching handler's transition, and pass that handler's result, effects
/// and buffer through.
pub open spec fn spec_process(
    bytes: Seq<u8>,
    instruction: Seq<u8>,
    collateral_sufficient: bool,
    ctx: BetContext,
) -> (Result<ProcessOutcome, CoinFlipError>, BetEffects, Seq<u8>) {
    match spec_decode_instruction(instruction) {
        Err(e) => (Err(e), BetEffects::spec_none(), bytes),
        Ok(CoinFlipInstruction::Initialize) => {
            let stepped = spec_initialize_account(bytes, collateral_sufficient);
            match stepped.0 {
                Ok(_) => (Ok(ProcessOutcome::Initialized), BetEffects::spec_none(), stepped.1),
                Err(e) => (Err(e), BetEffects::spec_none(), stepped.1),
            }
        },
        Ok(CoinFlipInstruction::PlaceBet { amount, side }) => {
            let stepped = spec_place_bet(bytes, amount, side, ctx);
            match stepped.0 {
                Ok(won) => (Ok(ProcessOutcome::BetSettled { player_won: won }), stepped.1, stepped.2),
                Err(e) => (Err(e), stepped.1, stepped.2),
            }
        },
    }
}

/// Decode an incoming instruction and route it to its handler. The
/// dispatcher itself touches no account state: everything it returns and
/// every byte it rewrites comes from the handler it routed to.
pub fn process_instruction(
    data: &mut Vec<u8>,
    instruction_data: &[u8],
    collateral_sufficient: bool,
    ctx: BetContext,
) -> (r: (Result<ProcessOutcome, CoinFlipError>, BetEffects))
    ensures
        (r.0, r.1, final(data)@) == spec_process(
            old(data)@,
            instruction_data@,
            collateral_sufficient,
            ctx,
        ),
{
    let instruction = match CoinFlipInstruction::decode(instruction_data) {
        Ok(ix) => ix,
        Err(e) => {
            return (Err(e), BetEffects::none());
        },
    };
    match instruction {
        CoinFlipInstruction::Initialize => {
            match initialize_account(data, collateral_sufficient) {
                Ok(_) => (Ok(ProcessOutcome::Initialized), BetEffects::none()),
                Err(e) => (Err(e), BetEffects::none()),
            }
        },
        CoinFlipInstruction::PlaceBet { amount, side } => {
            let stepped = place_bet(data, amount, side, ctx);
            match stepped.0 {
                Ok(won) => (Ok(ProcessOutcome::BetSettled { player_won: won }), stepped.1),
                Err(e) => (Err(e), stepped.1),
            }
        },
    }
}

} // verus!
