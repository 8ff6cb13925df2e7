use splerg_p2p::state::ORDER_LEN;
use splerg_p2p::{Pubkey, SwapError, SwapInstruction, SwapOrder};

fn sample_order() -> SwapOrder {
    SwapOrder::new(
        Pubkey([1; 32]),
        Pubkey([2; 32]),
        Pubkey([3; 32]),
        Pubkey([4; 32]),
        0x0102_0304_0506_0708,
        500,
        254,
    )
}

#[test]
fn order_record_is_145_bytes() {
    assert_eq!(ORDER_LEN, 145);
    assert_eq!(SwapOrder::LEN, 145);
    assert_eq!(sample_order().serialize().len(), 145);
}

#[test]
fn order_fields_are_laid_out_in_declaration_order() {
    let bytes = sample_order().serialize();
    assert_eq!(&bytes[0..32], &[1u8; 32]);
    assert_eq!(&bytes[32..64], &[2u8; 32]);
    assert_eq!(&bytes[64..96], &[3u8; 32]);
    assert_eq!(&bytes[96..128], &[4u8; 32]);
    assert_eq!(&bytes[128..136], &[8, 7, 6, 5, 4, 3, 2, 1]);
    assert_eq!(&bytes[136..144], &[244, 1, 0, 0, 0, 0, 0, 0]);
    assert_eq!(bytes[144], 254);
}

#[test]
fn order_layout_is_what_borsh_writes() {
    let order = sample_order();
    let expected = borsh::to_vec(
        &(
            order.maker.0,
            order.taker.0,
            order.maker_token_mint.0,
            order.taker_token_mint.0,
            order.maker_amount,
            order.taker_amount,
            order.bump,
        ),
    )
    .unwrap();
    assert_eq!(order.serialize(), expected);
}

#[test]
fn order_reads_back_as_written() {
    let order = sample_order();
    assert_eq!(SwapOrder::try_from_slice(&order.serialize()), Ok(order));
    let extreme = SwapOrder::new(
        Pubkey([0; 32]),
        Pubkey([255; 32]),
        Pubkey([7; 32]),
        Pubkey([9; 32]),
        u64::MAX,
        0,
        0,
    );
    assert_eq!(SwapOrder::try_from_slice(&extreme.serialize()), Ok(extreme));
}

#[test]
fn order_is_read_from_exactly_one_record() {
    let bytes = sample_order().serialize();
    assert_eq!(SwapOrder::try_from_slice(&bytes[..144]), Err(SwapError::InvalidAccountData));
    let mut longer = bytes.clone();
    longer.push(0);
    assert_eq!(SwapOrder::try_from_slice(&longer), Err(SwapError::InvalidAccountData));
    assert_eq!(SwapOrder::try_from_slice(&[]), Err(SwapError::InvalidAccountData));
}

#[test]
fn instructions_are_encoded_as_borsh_encodes_them() {
    let initialize = SwapInstruction::InitializeOrder { maker_amount: 100, taker_amount: 7 };
    assert_eq!(initialize.serialize(), borsh::to_vec(&(0u8, 100u64, 7u64)).unwrap());
    let change = SwapInstruction::ChangeOrderAmounts {
        new_maker_amount: u64::MAX,
        new_taker_amount: 1 << 40,
    };
    assert_eq!(change.serialize(), borsh::to_vec(&(1u8, u64::MAX, 1u64 << 40)).unwrap());
    let taker = SwapInstruction::ChangeTaker { new_taker: [9; 32] };
    assert_eq!(taker.serialize(), borsh::to_vec(&(2u8, [9u8; 32])).unwrap());
    assert_eq!(SwapInstruction::CompleteSwap.serialize(), vec![3]);
    assert_eq!(SwapInstruction::CloseOrder.serialize(), vec![4]);
}

#[test]
fn instruction_amounts_are_little_endian() {
    let bytes = SwapInstruction::InitializeOrder { maker_amount: 0x0102, taker_amount: 3 }
        .serialize();
    assert_eq!(bytes, vec![0, 2, 1, 0, 0, 0, 0, 0, 0, 3, 0, 0, 0, 0, 0, 0, 0]);
}

#[test]
fn instructions_decode_to_what_was_encoded() {
    let all = [
        SwapInstruction::InitializeOrder { maker_amount: 100, taker_amount: 200 },
        SwapInstruction::ChangeOrderAmounts { new_maker_amount: 0, new_taker_amount: u64::MAX },
        SwapInstruction::ChangeTaker { new_taker: [42; 32] },
        SwapInstruction::CompleteSwap,
        SwapInstruction::CloseOrder,
    ];
    for instruction in all {
        assert_eq!(SwapInstruction::try_from_slice(&instruction.serialize()), Ok(instruction));
    }
}

#[test]
fn instruction_decoding_refuses_what_is_no_instruction() {
    let malformed = Err(SwapError::MalformedRequest);
    assert_eq!(SwapInstruction::try_from_slice(&[]), malformed);
    assert_eq!(SwapInstruction::try_from_slice(&[5]), malformed);
    assert_eq!(SwapInstruction::try_from_slice(&[255]), malformed);
    // trailing bytes
    assert_eq!(SwapInstruction::try_from_slice(&[3, 0]), malformed);
    assert_eq!(SwapInstruction::try_from_slice(&[4, 4]), malformed);
    assert_eq!(SwapInstruction::try_from_slice(&[0; 18]), malformed);
    assert_eq!(SwapInstruction::try_from_slice(&[2; 34]), malformed);
    // truncated fields
    assert_eq!(SwapInstruction::try_from_slice(&[0; 16]), malformed);
    assert_eq!(SwapInstruction::try_from_slice(&[1]), malformed);
    assert_eq!(SwapInstruction::try_from_slice(&[2; 32]), malformed);
    // a tag with the fields of another
    assert_eq!(SwapInstruction::try_from_slice(&[2; 17]), malformed);
    assert_eq!(SwapInstruction::try_from_slice(&[3; 17]), malformed);
}
