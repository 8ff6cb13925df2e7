//! A peer-to-peer token swap escrow: the order state machine and the custody
//! protocol that guards it.
//!
//! A maker opens an order by escrowing an amount of one token in a custody
//! account and naming the amount of another token wanted for it; the taker
//! settles by paying that amount, and both legs execute together. The
//! library decides: from a request and the accounts it names it works out
//! either why the request is refused or the plan of steps that carries it
//! out. Carrying the plan out, atomically, is the runtime's part.

pub mod accounts;
pub mod cpi;
pub mod error;
pub mod escrow;
pub mod instruction;
pub mod laws;
pub mod ledger;
pub mod pda;
pub mod processor;
pub mod pubkey;
pub mod rent;
pub mod state;
pub mod token;
pub mod validation;

pub use accounts::{
    AccountInfo, ChangeOrderAmountsAccounts, ChangeTakerAccounts, CloseOrderAccounts,
    CompleteSwapAccounts, InitializeOrderAccounts,
};
pub use cpi::{AccountMeta, Instruction, Step};
pub use error::SwapError;
pub use instruction::SwapInstruction;
pub use processor::Processor;
pub use pubkey::Pubkey;
pub use state::SwapOrder;
