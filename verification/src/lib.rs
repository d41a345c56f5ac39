//! Decision logic of an open token faucet: which accounts it accepts, what it
//! asks of the token program, and how it reports what the token program did.
//!
//! An invocation has two halves. The first checks the accounts and gives the
//! call to make; the second takes the token program's answer and gives the
//! event to emit or the error to return. Making the call and emitting the
//! event are left to the program around this library.

pub mod accounts;
pub mod address;
pub mod burn;
pub mod call;
pub mod derivation;
pub mod error;
pub mod event;
pub mod laws;
pub mod mint;

pub use accounts::{Account, TOKEN_PROGRAM_ID};
pub use address::Address;
pub use burn::{burn_tokens, complete_burn, BurnTokens};
pub use call::{AccountRole, Instruction, TokenCall};
pub use derivation::{derive_authority, find_authority, signer_seeds, MINT_LABEL};
pub use error::{surface, FaucetError};
pub use event::{BurnEvent, MintEvent};
pub use mint::{complete_mint, mint_tokens, MintTokens};
