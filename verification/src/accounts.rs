use anchor_lang::AccountDeserialize;
use vstd::prelude::*;

use crate::address::Address;

verus! {

/// The address of the token program, which reads in base 58 as
/// `TokenkegQfeZyiNwAJbNbGKPFXCWuBvf9Ss623VQ5DA`.
pub const TOKEN_PROGRAM_ID: [u8; 32] = [
    6, 221, 246, 225, 215, 101, 161, 147, 217, 203, 225, 70, 206, 235, 121, 172,
    28, 180, 133, 237, 95, 91, 55, 145, 58, 140, 245, 133, 126, 255, 0, 169,
];

/// An account as the chain hands it to a program: its address, the program
/// that owns it, its data, and what the transaction grants on it.
#[derive(Clone, Debug, PartialEq, Eq)]
pub struct Account {
    pub key: Address,
    pub owner: Address,
    pub data: Vec<u8>,
    pub is_signer: bool,
    pub is_writable: bool,
    pub executable: bool,
}

/// Whether the four bytes at `at` mark an optional field: 0 or 1, as a
/// little-endian 32-bit number.
pub open spec fn is_option_tag(data: Seq<u8>, at: int) -> bool {
    &&& data[at] == 0 || data[at] == 1
    &&& data[at + 1] == 0
    &&& data[at + 2] == 0
    &&& data[at + 3] == 0
}

/// Whether bytes are the data of an initialized mint of the token program: 82
/// bytes, an optional mint authority from byte 0, the initialized flag 1 at
/// byte 45, an optional freeze authority from byte 46.
pub open spec fn is_mint_data(data: Seq<u8>) -> bool {
    &&& data.len() == 82
    &&& is_option_tag(data, 0)
    &&& data[45] == 1
    &&& is_option_tag(data, 46)
}

/// Whether bytes are the data of an initialized holder account of the token
/// program: 165 bytes, an optional delegate from byte 72, the state 1
/// (initialized) or 2 (frozen) at byte 108, an optional native reserve from
/// byte 109, an optional close authority from byte 129.
pub open spec fn is_holder_data(data: Seq<u8>) -> bool {
    &&& data.len() == 165
    &&& is_option_tag(data, 72)
    &&& data[108] == 1 || data[108] == 2
    &&& is_option_tag(data, 109)
    &&& is_option_tag(data, 129)
}

/// Calls `try_deserialize` of anchor-spl's `Mint`, which unpacks a mint of
/// spl-token. Trusted: it succeeds exactly on the bytes of `is_mint_data`.
#[verifier::external_body]
fn mint_data_unpacks(data: &[u8]) -> (ok: bool)
    ensures
        ok == is_mint_data(data@),
{
    let mut rest: &[u8] = data;
    anchor_spl::token::Mint::try_deserialize(&mut rest).is_ok()
}

/// Calls `try_deserialize` of anchor-spl's `TokenAccount`, which unpacks an
/// account of spl-token. Trusted: it succeeds exactly on the bytes of
/// `is_holder_data`.
#[verifier::external_body]
fn holder_data_unpacks(data: &[u8]) -> (ok: bool)
    ensures
        ok == is_holder_data(data@),
{
    let mut rest: &[u8] = data;
    anchor_spl::token::TokenAccount::try_deserialize(&mut rest).is_ok()
}

impl Account {
    /// Whether the account is a mint of the token program: owned by it, with
    /// the data of an initialized mint.
    pub open spec fn is_mint(&self) -> bool {
        &&& self.owner@ == TOKEN_PROGRAM_ID@
        &&& is_mint_data(self.data@)
    }

    /// Whether the account is a holder account of the token program: owned by
    /// it, with the data of an initialized holder account.
    pub open spec fn is_holder(&self) -> bool {
        &&& self.owner@ == TOKEN_PROGRAM_ID@
        &&& is_holder_data(self.data@)
    }

    /// Whether the account is the token program itself.
    pub open spec fn is_token_program(&self) -> bool {
        &&& self.key@ == TOKEN_PROGRAM_ID@
        &&& self.executable
    }

    /// Tells whether the account is a mint of the token program.
    pub fn check_mint(&self) -> (ok: bool)
        ensures
            ok == self.is_mint(),
    {
        let token = Address { bytes: TOKEN_PROGRAM_ID };
        self.owner.same(&token) && mint_data_unpacks(self.data.as_slice())
    }

    /// Tells whether the account is a holder account of the token program.
    pub fn check_holder(&self) -> (ok: bool)
        ensures
            ok == self.is_holder(),
    {
        let token = Address { bytes: TOKEN_PROGRAM_ID };
        self.owner.same(&token) && holder_data_unpacks(self.data.as_slice())
    }

    /// Tells whether the account is the token program itself.
    pub fn check_token_program(&self) -> (ok: bool)
        ensures
            ok == self.is_token_program(),
    {
        let token = Address { bytes: TOKEN_PROGRAM_ID };
        self.key.same(&token) && self.executable
    }
}

} // verus!
