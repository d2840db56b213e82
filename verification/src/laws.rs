//! The library's laws: round-trip of the codec, exactly-once initialization,
//! conservation of the settlement counters, the gates that leave the record
//! and the ledger untouched, determinism of the outcome, and the absence of
//! partial persistence on any failure.

use crate::codec::{
    spec_decode_instruction, spec_decode_state, spec_encode_instruction, spec_encode_state,
};
use crate::engine::{spec_initialize_account, spec_outcome, spec_place_bet, spec_settle};
use crate::state::{BetContext, BetEffects, CoinFlipError, CoinFlipInstruction, CoinFlipState};
use vstd::bytes::lemma_auto_spec_u64_to_from_le_bytes;
use vstd::prelude::*;

verus! {

/// Round-trip law: every record decodes back from its own encoding.
pub proof fn lemma_state_round_trip(s: CoinFlipState)
    ensures
        spec_decode_state(spec_encode_state(s)) == Ok::<CoinFlipState, CoinFlipError>(s),
{
    lemma_auto_spec_u64_to_from_le_bytes();
    let bytes = spec_encode_state(s);
    assert(bytes.subrange(1, 9) =~= vstd::bytes::spec_u64_to_le_bytes(s.total_bets));
    assert(bytes.subrange(9, 17) =~= vstd::bytes::spec_u64_to_le_bytes(s.total_amount_wagered));
}

/// Round-trip law for instructions: every instruction decodes back from its
/// own encoding.
pub proof fn lemma_instruction_round_trip(ix: CoinFlipInstruction)
    ensures
        spec_decode_instruction(spec_encode_instruction(ix)) == Ok::<
            CoinFlipInstruction,
            CoinFlipError,
        >(ix),
{
    lemma_auto_spec_u64_to_from_le_bytes();
    let bytes = spec_encode_instruction(ix);
    if let CoinFlipInstruction::PlaceBet { amount, side: _ } = ix {
        assert(bytes.subrange(1, 9) =~= vstd::bytes::spec_u64_to_le_bytes(amount));
    }
}

/// Exactly-once law: after a successful initialization, initializing the
/// same account again fails with `AlreadyInitialized` and leaves the bytes
/// exactly as the first call wrote them.
pub proof fn lemma_initialize_exactly_once(bytes: Seq<u8>, collateral_sufficient: bool)
    requires
        spec_initialize_account(bytes, collateral_sufficient).0 is Ok,
    ensures
        ({
            let after_first = spec_initialize_account(bytes, collateral_sufficient).1;
            spec_initialize_account(after_first, collateral_sufficient) == (
                Err::<(), CoinFlipError>(CoinFlipError::AlreadyInitialized),
                after_first,
            )
        }),
{
    let fresh = CoinFlipState { is_initialized: true, total_bets: 0, total_amount_wagered: 0 };
    lemma_state_round_trip(fresh);
}

/// The sum of the wagers in a run of bets.
pub open spec fn spec_sum_wagered(bets: Seq<(u64, bool, BetContext)>) -> int
    decreases bets.len(),
{
    if bets.len() == 0 {
        0
    } else {
        bets[0].0 + spec_sum_wagered(bets.drop_first())
    }
}

/// A run of settlement calls against one account, each with its own wager,
/// call and runtime facts: the buffer after all of them, provided every one
/// succeeded.
pub open spec fn spec_run_bets(bytes: Seq<u8>, bets: Seq<(u64, bool, BetContext)>) -> Option<
    Seq<u8>,
>
    decreases bets.len(),
{
    if bets.len() == 0 {
        Some(bytes)
    } else {
        let step = spec_place_bet(bytes, bets[0].0, bets[0].1, bets[0].2);
        if step.0 is Ok {
            spec_run_bets(step.2, bets.drop_first())
        } else {
            None
        }
    }
}

/// Conservation law: after any run of successful settlement calls, the bet
/// count has risen by exactly the number of calls and the wagered sum by
/// exactly the sum of their amounts, whatever each bet's side, outcome or
/// payout was; the latch is untouched.
pub proof fn lemma_conservation(
    bytes: Seq<u8>,
    bets: Seq<(u64, bool, BetContext)>,
    out: Seq<u8>,
)
    requires
        spec_decode_state(bytes) is Ok,
        spec_run_bets(bytes, bets) == Some(out),
    ensures
        spec_decode_state(out) is Ok,
        ({
            let before = spec_decode_state(bytes)->Ok_0;
            let after = spec_decode_state(out)->Ok_0;
            &&& after.total_bets == before.total_bets + bets.len()
            &&& after.total_amount_wagered == before.total_amount_wagered + spec_sum_wagered(bets)
            &&& after.is_initialized == before.is_initialized
        }),
    decreases bets.len(),
{
    if bets.len() > 0 {
        let step = spec_place_bet(bytes, bets[0].0, bets[0].1, bets[0].2);
        let before = spec_decode_state(bytes)->Ok_0;
        let settled = spec_settle(before, bets[0].0)->Ok_0;
        lemma_state_round_trip(settled);
        lemma_conservation(step.2, bets.drop_first(), out);
    }
}

/// Authorization gate: a settlement call without the bettor's signature
/// fails with `Unauthorized`, moves no value in either direction, and
/// leaves the account bytes untouched.
pub proof fn lemma_unauthorized_untouched(
    bytes: Seq<u8>,
    amount: u64,
    side: bool,
    ctx: BetContext,
)
    requires
        !ctx.player_is_signer,
    ensures
        spec_place_bet(bytes, amount, side, ctx) == (
            Err::<bool, CoinFlipError>(CoinFlipError::Unauthorized),
            BetEffects::spec_none(),
            bytes,
        ),
{
}

/// Uninitialized gate: a settlement call against a record whose latch is
/// not set fails with `Uninitialized`, moves no value in either direction,
/// and leaves the account bytes untouched.
pub proof fn lemma_uninitialized_untouched(
    bytes: Seq<u8>,
    amount: u64,
    side: bool,
    ctx: BetContext,
)
    requires
        ctx.player_is_signer,
        spec_decode_state(bytes) is Ok,
        !(spec_decode_state(bytes)->Ok_0.is_initialized),
    ensures
        spec_place_bet(bytes, amount, side, ctx) == (
            Err::<bool, CoinFlipError>(CoinFlipError::Uninitialized),
            BetEffects::spec_none(),
            bytes,
        ),
{
}

/// Determinism law: any two outcomes derived from the same clock value are
/// the same outcome.
pub proof fn lemma_outcome_deterministic(timestamp: i64, first: bool, second: bool)
    requires
        first == spec_outcome(timestamp),
        second == spec_outcome(timestamp),
    ensures
        first == second,
{
}

/// No partial persistence: a failed initialization, whatever its reason,
/// leaves the account bytes exactly as they were.
pub proof fn lemma_failed_initialize_leaves_record(bytes: Seq<u8>, collateral_sufficient: bool)
    requires
        spec_initialize_account(bytes, collateral_sufficient).0 is Err,
    ensures
        spec_initialize_account(bytes, collateral_sufficient).1 == bytes,
{
}

/// No partial persistence: a failed settlement call, whatever its reason
/// and even after a confirmed escrow debit, leaves the account bytes
/// exactly as they were.
pub proof fn lemma_failed_bet_leaves_record(
    bytes: Seq<u8>,
    amount: u64,
    side: bool,
    ctx: BetContext,
)
    requires
        spec_place_bet(bytes, amount, side, ctx).0 is Err,
    ensures
        spec_place_bet(bytes, amount, side, ctx).2 == bytes,
{
}

/// A settlement call that ran to the end persisted exactly the settled
/// record: the bytes it wrote decode to the old record with its counters
/// stepped by this one bet.
pub proof fn lemma_place_bet_persists_settlement(
    bytes: Seq<u8>,
    amount: u64,
    side: bool,
    ctx: BetContext,
)
    requires
        spec_place_bet(bytes, amount, side, ctx).0 is Ok,
    ensures
        spec_decode_state(bytes) is Ok,
        spec_settle(spec_decode_state(bytes)->Ok_0, amount) is Ok,
        spec_decode_state(spec_place_bet(bytes, amount, side, ctx).2) == Ok::<
            CoinFlipState,
            CoinFlipError,
        >(spec_settle(spec_decode_state(bytes)->Ok_0, amount)->Ok_0),
{
    let settled = spec_settle(spec_decode_state(bytes)->Ok_0, amount)->Ok_0;
    lemma_state_round_trip(settled);
}

} // verus!
