use anchor_lang::solana_program::instruction::AccountMeta;
use anchor_lang::solana_program::pubkey::Pubkey;
use anchor_spl::token::spl_token;
use vstd::bytes::spec_u64_to_le_bytes;
use vstd::prelude::*;

use crate::accounts::TOKEN_PROGRAM_ID;
use crate::address::Address;
use crate::derivation::seed_list;

verus! {

/// The part an account plays in an instruction: its address, whether it signs,
/// and whether the called program may write to it.
#[derive(Clone, Copy, Debug, PartialEq, Eq)]
pub struct AccountRole {
    pub key: Address,
    pub is_signer: bool,
    pub is_writable: bool,
}

/// An account's part in an instruction, as plain values.
pub struct RoleView {
    pub key: Seq<u8>,
    pub is_signer: bool,
    pub is_writable: bool,
}

impl View for AccountRole {
    type V = RoleView;

    open spec fn view(&self) -> RoleView {
        RoleView { key: self.key@, is_signer: self.is_signer, is_writable: self.is_writable }
    }
}

/// An instruction for another program: the program, the accounts in the order
/// in which the program reads them, and the instruction's bytes.
#[derive(Clone, Debug, PartialEq, Eq)]
pub struct Instruction {
    pub program_id: Address,
    pub accounts: Vec<AccountRole>,
    pub data: Vec<u8>,
}

/// An instruction as plain values.
pub struct InstructionView {
    pub program_id: Seq<u8>,
    pub accounts: Seq<RoleView>,
    pub data: Seq<u8>,
}

impl View for Instruction {
    type V = InstructionView;

    open spec fn view(&self) -> InstructionView {
        InstructionView {
            program_id: self.program_id@,
            accounts: Seq::new(self.accounts@.len(), |i: int| self.accounts@[i]@),
            data: self.data@,
        }
    }
}

/// What the faucet asks of the chain: an instruction for the token program,
/// and for each derived address that signs it the seeds that derive the
/// address under the faucet.
#[derive(Clone, Debug, PartialEq, Eq)]
pub struct TokenCall {
    pub instruction: Instruction,
    pub signer_seeds: Vec<Vec<Vec<u8>>>,
}

impl TokenCall {
    /// The seeds of each signer, as sequences of bytes.
    pub open spec fn signers(&self) -> Seq<Seq<Seq<u8>>> {
        Seq::new(self.signer_seeds@.len(), |i: int| seed_list(self.signer_seeds@[i]@))
    }
}

/// An account that the called program may write to and that does not sign.
pub open spec fn writable(key: Seq<u8>) -> RoleView {
    RoleView { key, is_signer: false, is_writable: true }
}

/// An account that signs and that the called program only reads.
pub open spec fn signing(key: Seq<u8>) -> RoleView {
    RoleView { key, is_signer: true, is_writable: false }
}

/// The token program's instruction that mints `amount` of `mint` to the holder
/// account `to` under `authority`: the tag byte 7, then the amount in
/// little-endian bytes.
pub open spec fn mint_to_instruction(
    mint: Seq<u8>,
    to: Seq<u8>,
    authority: Seq<u8>,
    amount: u64,
) -> InstructionView {
    InstructionView {
        program_id: TOKEN_PROGRAM_ID@,
        accounts: seq![writable(mint), writable(to), signing(authority)],
        data: seq![7u8] + spec_u64_to_le_bytes(amount),
    }
}

/// The token program's instruction that burns `amount` of `mint` from the
/// holder account `from` under `authority`: the tag byte 8, then the amount in
/// little-endian bytes.
pub open spec fn burn_instruction(
    from: Seq<u8>,
    mint: Seq<u8>,
    authority: Seq<u8>,
    amount: u64,
) -> InstructionView {
    InstructionView {
        program_id: TOKEN_PROGRAM_ID@,
        accounts: seq![writable(from), writable(mint), signing(authority)],
        data: seq![8u8] + spec_u64_to_le_bytes(amount),
    }
}

/// Calls `spl_token::instruction::mint_to` with no further signers. Trusted:
/// it gives an instruction exactly where `token_program` is the token
/// program, and then the one that `mint_to_instruction` describes.
#[verifier::external_body]
pub(crate) fn build_mint_to(
    token_program: &Address,
    mint: &Address,
    to: &Address,
    authority: &Address,
    amount: u64,
) -> (r: Option<Instruction>)
    ensures
        r is Some <==> token_program@ == TOKEN_PROGRAM_ID@,
        r matches Some(ix) ==> ix@ == mint_to_instruction(mint@, to@, authority@, amount),
{
    let keys = [token_program, mint, to, authority].map(|a| Pubkey::from(a.bytes));
    let ix = spl_token::instruction::mint_to(&keys[0], &keys[1], &keys[2], &keys[3], &[], amount)
        .ok()?;
    let role = |m: &AccountMeta| AccountRole {
        key: Address { bytes: m.pubkey.to_bytes() },
        is_signer: m.is_signer,
        is_writable: m.is_writable,
    };
    Some(Instruction {
        program_id: Address { bytes: ix.program_id.to_bytes() },
        accounts: ix.accounts.iter().map(role).collect(),
        data: ix.data,
    })
}

/// Calls `spl_token::instruction::burn` with no further signers. Trusted: it
/// gives an instruction exactly where `token_program` is the token program,
/// and then the one that `burn_instruction` describes.
#[verifier::external_body]
pub(crate) fn build_burn(
    token_program: &Address,
    from: &Address,
    mint: &Address,
    authority: &Address,
    amount: u64,
) -> (r: Option<Instruction>)
    ensures
        r is Some <==> token_program@ == TOKEN_PROGRAM_ID@,
        r matches Some(ix) ==> ix@ == burn_instruction(from@, mint@, authority@, amount),
{
    let keys = [token_program, from, mint, authority].map(|a| Pubkey::from(a.bytes));
    let ix = spl_token::instruction::burn(&keys[0], &keys[1], &keys[2], &keys[3], &[], amount)
        .ok()?;
    let role = |m: &AccountMeta| AccountRole {
        key: Address { bytes: m.pubkey.to_bytes() },
        is_signer: m.is_signer,
        is_writable: m.is_writable,
    };
    Some(Instruction {
        program_id: Address { bytes: ix.program_id.to_bytes() },
        accounts: ix.accounts.iter().map(role).collect(),
        data: ix.data,
    })
}

} // verus!
