use vstd::prelude::*;

use crate::accounts::Account;
use crate::address::Address;
use crate::call::{build_mint_to, mint_to_instruction, TokenCall};
use crate::derivation::{
    authority_of, authority_seeds, derived_address, find_authority, found_address, signer_seeds,
    MINT_LABEL,
};
use crate::error::{surface, surfaced, FaucetError};
use crate::event::MintEvent;

verus! {

/// The accounts of a mint: the mint, the authority derived for the faucet,
/// the holder account that receives, and the token program.
#[derive(Clone, Debug, PartialEq, Eq)]
pub struct MintTokens {
    pub mint: Account,
    pub mint_authority: Account,
    pub to: Account,
    pub token_program: Account,
}

impl MintTokens {
    /// Whether each account has the shape that its place asks for.
    pub open spec fn shaped(&self) -> bool {
        &&& self.mint.is_mint()
        &&& self.to.is_holder()
        &&& self.token_program.is_token_program()
    }

    /// What the faucet finds of the accounts under `program`: the counter of
    /// the mint authority, or the first fault. The shapes come first, then
    /// that the mint is writable, then the authority, then that the holder
    /// account is writable. The authority must be the address that the search
    /// under the label `MINT_LABEL` ends on; where the search ends on none, no
    /// authority passes.
    pub open spec fn checked(&self, program: Seq<u8>) -> Result<u8, FaucetError> {
        if !self.shaped() || !self.mint.is_writable {
            Err(FaucetError::InvalidAccount)
        } else {
            match found_address(seq![MINT_LABEL@], program) {
                Some((authority, counter)) => if authority != self.mint_authority.key@ {
                    Err(FaucetError::DerivationMismatch)
                } else if !self.to.is_writable {
                    Err(FaucetError::InvalidAccount)
                } else {
                    Ok(counter)
                },
                None => Err(FaucetError::DerivationMismatch),
            }
        }
    }

    /// Checks the accounts under `program_id` and gives the counter of the mint
    /// authority. No caller is asked for: whoever supplies these accounts
    /// passes.
    pub fn check(&self, program_id: &Address) -> (r: Result<u8, FaucetError>)
        ensures
            r == self.checked(program_id@),
            r matches Ok(counter) ==> authority_of(MINT_LABEL@, counter, program_id@) == Some(
                self.mint_authority.key@,
            ),
    {
        if !self.mint.check_mint() || !self.to.check_holder()
            || !self.token_program.check_token_program() || !self.mint.is_writable {
            return Err(FaucetError::InvalidAccount);
        }
        match find_authority(MINT_LABEL.as_slice(), program_id) {
            Some((authority, counter)) => {
                if !authority.same(&self.mint_authority.key) {
                    Err(FaucetError::DerivationMismatch)
                } else if !self.to.is_writable {
                    Err(FaucetError::InvalidAccount)
                } else {
                    Ok(counter)
                }
            },
            None => Err(FaucetError::DerivationMismatch),
        }
    }
}

/// Whether `call` is what a mint of `amount` asks of the chain, for accounts
/// whose mint authority has the counter `counter`: the token program's mint
/// instruction, signed by the authority through its seeds.
pub open spec fn mint_call(accounts: MintTokens, counter: u8, amount: u64, call: TokenCall) -> bool {
    &&& call.instruction@ == mint_to_instruction(
        accounts.mint.key@,
        accounts.to.key@,
        accounts.mint_authority.key@,
        amount,
    )
    &&& call.signers() == seq![authority_seeds(MINT_LABEL@, counter)]
}

/// First half of a mint: checks the accounts and says what to ask of the
/// chain. The call mints `amount` of the mint to the holder account, signed by
/// the derived authority through its seeds: the seeds that the call carries
/// derive, under the faucet, the very authority that the accounts name.
pub fn mint_tokens(accounts: &MintTokens, program_id: &Address, amount: u64) -> (r: Result<
    TokenCall,
    FaucetError,
>)
    ensures
        match accounts.checked(program_id@) {
            Ok(counter) => r matches Ok(call) && mint_call(*accounts, counter, amount, call)
                && authority_of(MINT_LABEL@, counter, program_id@) == Some(
                accounts.mint_authority.key@,
            ),
            Err(e) => r == Err::<TokenCall, FaucetError>(e),
        },
        r matches Ok(call) ==> call.signers().len() == 1 && derived_address(
            call.signers()[0],
            program_id@,
        ) == Some(accounts.mint_authority.key@),
{
    let counter = match accounts.check(program_id) {
        Ok(counter) => counter,
        Err(e) => {
            return Err(e);
        },
    };
    match build_mint_to(
        &accounts.token_program.key,
        &accounts.mint.key,
        &accounts.to.key,
        &accounts.mint_authority.key,
        amount,
    ) {
        Some(instruction) => {
            let mut signers: Vec<Vec<Vec<u8>>> = Vec::new();
            signers.push(signer_seeds(MINT_LABEL.as_slice(), counter));
            let call = TokenCall { instruction, signer_seeds: signers };
            assert(call.signers() =~= seq![authority_seeds(MINT_LABEL@, counter)]);
            Ok(call)
        },
        None => Err(FaucetError::InvalidAccount),
    }
}

/// What a mint ends in, given how the token program answered the call: the
/// event on success, the surfaced error on a failure code.
pub open spec fn mint_ending(accounts: MintTokens, amount: u64, outcome: Result<(), u64>) -> Result<
    MintEvent,
    FaucetError,
> {
    match outcome {
        Ok(_) => Ok(MintEvent { account: accounts.to.key, amount }),
        Err(code) => Err(surfaced(code)),
    }
}

/// Second half of a mint: turns the token program's answer into the result of
/// the invocation. On success the event names the holder account and the
/// amount; on failure nothing is emitted.
pub fn complete_mint(accounts: &MintTokens, amount: u64, outcome: Result<(), u64>) -> (r: Result<
    MintEvent,
    FaucetError,
>)
    ensures
        r == mint_ending(*accounts, amount, outcome),
{
    match outcome {
        Ok(_) => Ok(MintEvent { account: accounts.to.key, amount }),
        Err(code) => Err(surface(code)),
    }
}

} // verus!
