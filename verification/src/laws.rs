use vstd::prelude::*;

use crate::accounts::Account;
use crate::address::Address;
use crate::burn::{burn_ending, BurnTokens};
use crate::derivation::{address_bytes, authority_of, found_address, MINT_LABEL};
use crate::error::{surfaced, FaucetError, INSUFFICIENT_FUNDS, OVERFLOW};
use crate::event::{BurnEvent, MintEvent};
use crate::mint::{mint_ending, MintTokens};

verus! {

/// Two accounts that differ at most in whether they sign.
pub open spec fn same_but_signing(x: Account, y: Account) -> bool {
    &&& x.key == y.key
    &&& x.owner == y.owner
    &&& x.data@ == y.data@
    &&& x.is_writable == y.is_writable
    &&& x.executable == y.executable
}

/// Deriving an authority twice from one label, one counter and one program
/// gives one address, or none both times.
pub proof fn derivation_is_deterministic(
    label: Seq<u8>,
    counter: u8,
    program: Seq<u8>,
    first: Option<Address>,
    second: Option<Address>,
)
    requires
        address_bytes(first) == authority_of(label, counter, program),
        address_bytes(second) == authority_of(label, counter, program),
    ensures
        first == second,
{
    if let Some(a) = first {
        let b = second->0;
        assert(a@ == b@);
        assert(a.bytes =~= b.bytes);
    }
}

/// A mint whose accounts are otherwise in order fails with a derivation
/// mismatch when the authority supplied is any address but the derived one.
pub proof fn other_authority_is_refused(accounts: MintTokens, program: Seq<u8>)
    requires
        accounts.shaped(),
        accounts.mint.is_writable,
        match found_address(seq![MINT_LABEL@], program) {
            Some((authority, _)) => accounts.mint_authority.key@ != authority,
            None => true,
        },
    ensures
        accounts.checked(program) == Err::<u8, FaucetError>(FaucetError::DerivationMismatch),
{
}

/// A mint asks for no signer: accounts that differ only in who signed are
/// judged alike, so whoever submits them mints.
pub proof fn mint_asks_no_signer(a: MintTokens, b: MintTokens, program: Seq<u8>)
    requires
        same_but_signing(a.mint, b.mint),
        same_but_signing(a.mint_authority, b.mint_authority),
        same_but_signing(a.to, b.to),
        same_but_signing(a.token_program, b.token_program),
    ensures
        a.checked(program) == b.checked(program),
{
}

/// A burn accepts any authority that signs: the same mint, holder account and
/// token program are judged alike under two signing authorities, whatever
/// either has to do with the holder account.
pub proof fn burn_accepts_any_signer(a: BurnTokens, b: BurnTokens)
    requires
        a.mint == b.mint,
        a.from == b.from,
        a.token_program == b.token_program,
        a.authority.is_signer,
        b.authority.is_signer,
    ensures
        a.accepted() == b.accepted(),
{
}

/// A mint that the token program carried out ends in the event that names the
/// holder account and the amount.
pub proof fn minted_is_announced(accounts: MintTokens, amount: u64)
    ensures
        mint_ending(accounts, amount, Ok(())) == Ok::<MintEvent, FaucetError>(
            MintEvent { account: accounts.to.key, amount },
        ),
{
}

/// A burn that the token program carried out ends in the event that names the
/// holder account and the amount.
pub proof fn burned_is_announced(accounts: BurnTokens, amount: u64)
    ensures
        burn_ending(accounts, amount, Ok(())) == Ok::<BurnEvent, FaucetError>(
            BurnEvent { account: accounts.from.key, amount },
        ),
{
}

/// A mint that the token program refused for overflow fails with `Overflow`,
/// and no event comes of it.
pub proof fn overflow_is_surfaced(accounts: MintTokens, amount: u64)
    ensures
        mint_ending(accounts, amount, Err(OVERFLOW)) == Err::<MintEvent, FaucetError>(
            FaucetError::Overflow,
        ),
{
}

/// A burn that the token program refused for want of balance fails with
/// `InsufficientBalance`, and no event comes of it.
pub proof fn insufficient_balance_is_surfaced(accounts: BurnTokens, amount: u64)
    ensures
        burn_ending(accounts, amount, Err(INSUFFICIENT_FUNDS)) == Err::<BurnEvent, FaucetError>(
            FaucetError::InsufficientBalance,
        ),
{
}

/// Every failure of the token program ends the invocation in an error: no
/// code is taken for success.
pub proof fn failure_is_terminal(accounts: MintTokens, burning: BurnTokens, amount: u64, code: u64)
    ensures
        mint_ending(accounts, amount, Err(code)) == Err::<MintEvent, FaucetError>(surfaced(code)),
        burn_ending(burning, amount, Err(code)) == Err::<BurnEvent, FaucetError>(surfaced(code)),
{
}

} // verus!
