use coinflip_contract::state::{CoinFlipError, CoinFlipInstruction, CoinFlipState};

fn le8(v: u64) -> Vec<u8> {
    v.to_le_bytes().to_vec()
}

fn raw_state_bytes(latch: u8, total_bets: u64, total_amount_wagered: u64) -> Vec<u8> {
    let mut bytes = vec![latch];
    bytes.extend(le8(total_bets));
    bytes.extend(le8(total_amount_wagered));
    bytes
}

#[test]
fn state_encodes_to_fixed_layout() {
    let state = CoinFlipState { is_initialized: true, total_bets: 1, total_amount_wagered: 100 };
    assert_eq!(state.encode(), raw_state_bytes(1, 1, 100));
    let zero = CoinFlipState { is_initialized: false, total_bets: 0, total_amount_wagered: 0 };
    assert_eq!(zero.encode(), vec![0u8; 17]);
}

#[test]
fn state_round_trip_concrete() {
    let records = [
        CoinFlipState { is_initialized: false, total_bets: 0, total_amount_wagered: 0 },
        CoinFlipState { is_initialized: true, total_bets: 7, total_amount_wagered: 4242 },
        CoinFlipState {
            is_initialized: true,
            total_bets: u64::MAX,
            total_amount_wagered: u64::MAX,
        },
    ];
    for record in records {
        assert_eq!(CoinFlipState::decode(&record.encode()), Ok(record));
    }
}

#[test]
fn state_decode_reads_fixed_layout() {
    let bytes = raw_state_bytes(1, 3, 999);
    let state = CoinFlipState::decode(&bytes).unwrap();
    assert!(state.is_initialized);
    assert_eq!(state.total_bets, 3);
    assert_eq!(state.total_amount_wagered, 999);
}

#[test]
fn state_decode_rejects_short_buffer() {
    assert_eq!(CoinFlipState::decode(&[]), Err(CoinFlipError::DecodeError));
    assert_eq!(CoinFlipState::decode(&[1u8; 16]), Err(CoinFlipError::DecodeError));
}

#[test]
fn state_decode_rejects_long_buffer() {
    assert_eq!(CoinFlipState::decode(&[0u8; 18]), Err(CoinFlipError::DecodeError));
}

#[test]
fn state_decode_rejects_bad_latch_byte() {
    let bytes = raw_state_bytes(2, 0, 0);
    assert_eq!(CoinFlipState::decode(&bytes), Err(CoinFlipError::DecodeError));
}

#[test]
fn instruction_encodes_to_fixed_layout() {
    assert_eq!(CoinFlipInstruction::Initialize.encode(), vec![0u8]);
    let bet = CoinFlipInstruction::PlaceBet { amount: 7, side: true };
    let mut expected = vec![1u8];
    expected.extend(le8(7));
    expected.push(1);
    assert_eq!(bet.encode(), expected);
}

#[test]
fn instruction_round_trip_concrete() {
    let instructions = [
        CoinFlipInstruction::Initialize,
        CoinFlipInstruction::PlaceBet { amount: 0, side: false },
        CoinFlipInstruction::PlaceBet { amount: u64::MAX, side: true },
    ];
    for instruction in instructions {
        assert_eq!(CoinFlipInstruction::decode(&instruction.encode()), Ok(instruction));
    }
}

#[test]
fn instruction_decode_rejects_unknown_variant() {
    assert_eq!(CoinFlipInstruction::decode(&[2u8]), Err(CoinFlipError::DecodeError));
    let mut bytes = vec![2u8];
    bytes.extend(le8(5));
    bytes.push(0);
    assert_eq!(CoinFlipInstruction::decode(&bytes), Err(CoinFlipError::DecodeError));
}

#[test]
fn instruction_decode_rejects_wrong_length() {
    assert_eq!(CoinFlipInstruction::decode(&[]), Err(CoinFlipError::DecodeError));
    assert_eq!(CoinFlipInstruction::decode(&[0u8, 0u8]), Err(CoinFlipError::DecodeError));
    let mut truncated = vec![1u8];
    truncated.extend(le8(5));
    assert_eq!(CoinFlipInstruction::decode(&truncated), Err(CoinFlipError::DecodeError));
}

#[test]
fn instruction_decode_rejects_bad_side_byte() {
    let mut bytes = vec![1u8];
    bytes.extend(le8(5));
    bytes.push(2);
    assert_eq!(CoinFlipInstruction::decode(&bytes), Err(CoinFlipError::DecodeError));
}

#[test]
fn state_layout_matches_borsh() {
    let state = CoinFlipState { is_initialized: true, total_bets: 5, total_amount_wagered: 7 };
    let reference = borsh::to_vec(&(true, 5u64, 7u64)).unwrap();
    assert_eq!(state.encode(), reference);
    assert_eq!(CoinFlipState::decode(&reference), Ok(state));
}

#[test]
fn instruction_layout_matches_borsh() {
    let reference = borsh::to_vec(&(1u8, 42u64, true)).unwrap();
    let bet = CoinFlipInstruction::PlaceBet { amount: 42, side: true };
    assert_eq!(bet.encode(), reference);
    assert_eq!(CoinFlipInstruction::decode(&reference), Ok(bet));
    assert_eq!(CoinFlipInstruction::Initialize.encode(), borsh::to_vec(&0u8).unwrap());
}
