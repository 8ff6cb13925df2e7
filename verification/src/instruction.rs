//! The five requests and their wire encoding.

use vstd::prelude::*;
use vstd::bytes::{lemma_auto_spec_u64_to_from_le_bytes, spec_u64_to_le_bytes, u64_to_le_bytes};
use crate::error::SwapError;
use crate::state::{read_pubkey, read_u64};

verus! {

/// A request to the escrow.
#[derive(Clone, Copy, Debug, PartialEq, Eq)]
pub enum SwapInstruction {
    /// Open an order and escrow `maker_amount`.
    InitializeOrder { maker_amount: u64, taker_amount: u64 },
    /// Set both amounts of an open order and bring the escrow to the new level.
    ChangeOrderAmounts { new_maker_amount: u64, new_taker_amount: u64 },
    /// Name another taker.
    ChangeTaker { new_taker: [u8; 32] },
    /// Execute both legs of the swap.
    CompleteSwap,
    /// Refund what is left in escrow and remove the order.
    CloseOrder,
}

impl SwapInstruction {
    /// The wire encoding: one byte for the variant, in declaration order from
    /// zero, then the fields, amounts little-endian.
    pub open spec fn to_bytes(self) -> Seq<u8> {
        match self {
            SwapInstruction::InitializeOrder { maker_amount, taker_amount } => seq![0u8]
                + spec_u64_to_le_bytes(maker_amount) + spec_u64_to_le_bytes(taker_amount),
            SwapInstruction::ChangeOrderAmounts { new_maker_amount, new_taker_amount } => seq![1u8]
                + spec_u64_to_le_bytes(new_maker_amount) + spec_u64_to_le_bytes(new_taker_amount),
            SwapInstruction::ChangeTaker { new_taker } => seq![2u8] + new_taker@,
            SwapInstruction::CompleteSwap => seq![3u8],
            SwapInstruction::CloseOrder => seq![4u8],
        }
    }

    /// The request that `data` encodes, where it encodes one.
    pub open spec fn from_bytes(data: Seq<u8>) -> Option<SwapInstruction> {
        if exists|instruction: SwapInstruction| instruction.to_bytes() == data {
            Some(choose|instruction: SwapInstruction| instruction.to_bytes() == data)
        } else {
            None
        }
    }

    /// Encodes the request for the wire.
    pub fn serialize(&self) -> (bytes: Vec<u8>)
        ensures
            bytes@ == self.to_bytes(),
    {
        let mut bytes: Vec<u8> = Vec::new();
        match self {
            SwapInstruction::InitializeOrder { maker_amount, taker_amount } => {
                bytes.push(0);
                let first = u64_to_le_bytes(*maker_amount);
                bytes.extend_from_slice(first.as_slice());
                let second = u64_to_le_bytes(*taker_amount);
                bytes.extend_from_slice(second.as_slice());
            },
            SwapInstruction::ChangeOrderAmounts { new_maker_amount, new_taker_amount } => {
                bytes.push(1);
                let first = u64_to_le_bytes(*new_maker_amount);
                bytes.extend_from_slice(first.as_slice());
                let second = u64_to_le_bytes(*new_taker_amount);
                bytes.extend_from_slice(second.as_slice());
            },
            SwapInstruction::ChangeTaker { new_taker } => {
                bytes.push(2);
                bytes.extend_from_slice(new_taker.as_slice());
            },
            SwapInstruction::CompleteSwap => {
                bytes.push(3);
            },
            SwapInstruction::CloseOrder => {
                bytes.push(4);
            },
        }
        assert(bytes@ =~= self.to_bytes());
        bytes
    }

    /// Decodes a request. The payload has to be the encoding of a request,
    /// with nothing after it.
    pub fn try_from_slice(data: &[u8]) -> (r: Result<SwapInstruction, SwapError>)
        ensures
            r matches Ok(instruction) ==> instruction.to_bytes() == data@
                && SwapInstruction::from_bytes(data@) == Some(instruction),
            r matches Err(e) ==> e == SwapError::MalformedRequest && SwapInstruction::from_bytes(
                data@,
            ) is None,
    {
        proof {
            lemma_auto_spec_u64_to_from_le_bytes();
            assert forall|a: SwapInstruction, b: SwapInstruction|
                a.to_bytes() == data@ && b.to_bytes() == data@ implies a == b by {
                lemma_instruction_bytes_injective(a, b);
            }
        }
        let len = data.len();
        if len == 0 {
            return Err(SwapError::MalformedRequest);
        }
        let tag = data[0];
        if tag <= 1 && len == 17 {
            let first = read_u64(data, 1);
            let second = read_u64(data, 9);
            let instruction = if tag == 0 {
                SwapInstruction::InitializeOrder { maker_amount: first, taker_amount: second }
            } else {
                SwapInstruction::ChangeOrderAmounts {
                    new_maker_amount: first,
                    new_taker_amount: second,
                }
            };
            assert(instruction.to_bytes() =~= data@);
            Ok(instruction)
        } else if tag == 2 && len == 33 {
            let instruction = SwapInstruction::ChangeTaker { new_taker: read_pubkey(data, 1).0 };
            assert(instruction.to_bytes() =~= data@);
            Ok(instruction)
        } else if tag == 3 && len == 1 {
            assert(SwapInstruction::CompleteSwap.to_bytes() =~= data@);
            Ok(SwapInstruction::CompleteSwap)
        } else if tag == 4 && len == 1 {
            assert(SwapInstruction::CloseOrder.to_bytes() =~= data@);
            Ok(SwapInstruction::CloseOrder)
        } else {
            assert forall|i: SwapInstruction| i.to_bytes() != data@ by {
                let bytes = i.to_bytes();
                assert(bytes.len() > 0 && bytes[0] <= 4);
                assert(bytes[0] <= 1 ==> bytes.len() == 17);
                assert(bytes[0] == 2 ==> bytes.len() == 33);
                assert(bytes[0] >= 3 ==> bytes.len() == 1);
            }
            Err(SwapError::MalformedRequest)
        }
    }
}

/// Two requests with the same encoding are the same request.
pub proof fn lemma_instruction_bytes_injective(a: SwapInstruction, b: SwapInstruction)
    requires
        a.to_bytes() == b.to_bytes(),
    ensures
        a == b,
{
    lemma_auto_spec_u64_to_from_le_bytes();
    let s = a.to_bytes();
    let t = b.to_bytes();
    assert(s[0] == t[0]);
    match a {
        SwapInstruction::InitializeOrder { maker_amount, taker_amount } => {
            assert(s[0] == 0);
            assert(b is InitializeOrder);
            lemma_two_amounts_injective(
                0,
                maker_amount,
                taker_amount,
                b->maker_amount,
                b->taker_amount,
            );
        },
        SwapInstruction::ChangeOrderAmounts { new_maker_amount, new_taker_amount } => {
            assert(s[0] == 1);
            assert(b is ChangeOrderAmounts);
            lemma_two_amounts_injective(
                1,
                new_maker_amount,
                new_taker_amount,
                b->new_maker_amount,
                b->new_taker_amount,
            );
        },
        SwapInstruction::ChangeTaker { new_taker } => {
            assert(s[0] == 2);
            assert(b is ChangeTaker);
            assert(new_taker@ =~= s.subrange(1, 33));
            assert(b->new_taker@ =~= t.subrange(1, 33));
            assert(new_taker =~= b->new_taker);
        },
        SwapInstruction::CompleteSwap => {
            assert(s[0] == 3);
        },
        SwapInstruction::CloseOrder => {
            assert(s[0] == 4);
        },
    }
}

/// A tag followed by two amounts determines both amounts.
proof fn lemma_two_amounts_injective(tag: u8, a: u64, b: u64, c: u64, d: u64)
    requires
        seq![tag] + spec_u64_to_le_bytes(a) + spec_u64_to_le_bytes(b) == seq![tag]
            + spec_u64_to_le_bytes(c) + spec_u64_to_le_bytes(d),
    ensures
        a == c,
        b == d,
{
    lemma_auto_spec_u64_to_from_le_bytes();
    let s = seq![tag] + spec_u64_to_le_bytes(a) + spec_u64_to_le_bytes(b);
    let t = seq![tag] + spec_u64_to_le_bytes(c) + spec_u64_to_le_bytes(d);
    assert(spec_u64_to_le_bytes(a) =~= s.subrange(1, 9));
    assert(spec_u64_to_le_bytes(c) =~= t.subrange(1, 9));
    assert(spec_u64_to_le_bytes(b) =~= s.subrange(9, 17));
    assert(spec_u64_to_le_bytes(d) =~= t.subrange(9, 17));
    assert(spec_u64_from_le_bytes_of(a) == a);
    assert(spec_u64_from_le_bytes_of(b) == b);
    assert(spec_u64_from_le_bytes_of(c) == c);
    assert(spec_u64_from_le_bytes_of(d) == d);
}

/// The amount read back from the encoding of `x`.
spec fn spec_u64_from_le_bytes_of(x: u64) -> u64 {
    vstd::bytes::spec_u64_from_le_bytes(spec_u64_to_le_bytes(x))
}

} // verus!
