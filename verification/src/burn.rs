use vstd::prelude::*;

use crate::accounts::Account;
use crate::call::{build_burn, burn_instruction, TokenCall};
use crate::error::{surface, surfaced, FaucetError};
use crate::event::BurnEvent;

verus! {

/// The accounts of a burn: the mint, the holder account that gives, the
/// authority that signs, and the token program.
#[derive(Clone, Debug, PartialEq, Eq)]
pub struct BurnTokens {
    pub mint: Account,
    pub from: Account,
    pub authority: Account,
    pub token_program: Account,
}

impl BurnTokens {
    /// Whether the faucet accepts the accounts: each has the shape that its
    /// place asks for, the authority signs, and the mint and the holder account
    /// are writable. Whose the holder account is plays no part.
    pub open spec fn accepted(&self) -> bool {
        &&& self.mint.is_mint()
        &&& self.from.is_holder()
        &&& self.authority.is_signer
        &&& self.token_program.is_token_program()
        &&& self.mint.is_writable
        &&& self.from.is_writable
    }

    /// Checks the accounts.
    pub fn check(&self) -> (r: Result<(), FaucetError>)
        ensures
            r is Ok <==> self.accepted(),
            r matches Err(e) ==> e == FaucetError::InvalidAccount,
    {
        if self.mint.check_mint() && self.from.check_holder() && self.authority.is_signer
            && self.token_program.check_token_program() && self.mint.is_writable
            && self.from.is_writable {
            Ok(())
        } else {
            Err(FaucetError::InvalidAccount)
        }
    }
}

/// Whether `call` is what a burn of `amount` asks of the chain: the token
/// program's burn instruction, with no derived address signing.
pub open spec fn burn_call(accounts: BurnTokens, amount: u64, call: TokenCall) -> bool {
    &&& call.instruction@ == burn_instruction(
        accounts.from.key@,
        accounts.mint.key@,
        accounts.authority.key@,
        amount,
    )
    &&& call.signers() == Seq::<Seq<Seq<u8>>>::empty()
}

/// First half of a burn: checks the accounts and says what to ask of the
/// chain. The call burns `amount` of the mint from the holder account, under
/// whatever authority signed.
pub fn burn_tokens(accounts: &BurnTokens, amount: u64) -> (r: Result<TokenCall, FaucetError>)
    ensures
        r is Ok <==> accounts.accepted(),
        r matches Ok(call) ==> burn_call(*accounts, amount, call),
        r matches Err(e) ==> e == FaucetError::InvalidAccount,
{
    if accounts.check().is_err() {
        return Err(FaucetError::InvalidAccount);
    }
    match build_burn(
        &accounts.token_program.key,
        &accounts.from.key,
        &accounts.mint.key,
        &accounts.authority.key,
        amount,
    ) {
        Some(instruction) => {
            let call = TokenCall { instruction, signer_seeds: Vec::new() };
            assert(call.signers() =~= Seq::<Seq<Seq<u8>>>::empty());
            Ok(call)
        },
        None => Err(FaucetError::InvalidAccount),
    }
}

/// What a burn ends in, given how the token program answered the call: the
/// event on success, the surfaced error on a failure code.
pub open spec fn burn_ending(accounts: BurnTokens, amount: u64, outcome: Result<(), u64>) -> Result<
    BurnEvent,
    FaucetError,
> {
    match outcome {
        Ok(_) => Ok(BurnEvent { account: accounts.from.key, amount }),
        Err(code) => Err(surfaced(code)),
    }
}

/// Second half of a burn: turns the token program's answer into the result of
/// the invocation. On success the event names the holder account and the
/// amount; on failure nothing is emitted.
pub fn complete_burn(accounts: &BurnTokens, amount: u64, outcome: Result<(), u64>) -> (r: Result<
    BurnEvent,
    FaucetError,
>)
    ensures
        r == burn_ending(*accounts, amount, outcome),
{
    match outcome {
        Ok(_) => Ok(BurnEvent { account: accounts.from.key, amount }),
        Err(code) => Err(surface(code)),
    }
}

} // verus!
