use vstd::prelude::*;

verus! {

/// Why an invocation of the faucet failed.
#[derive(Clone, Copy, Debug, PartialEq, Eq)]
pub enum FaucetError {
    /// An account is not what its place asks for: wrong owner, wrong mint,
    /// wrong size or content, not writable, not signing.
    InvalidAccount,
    /// The mint authority supplied is not the one derived for the program.
    DerivationMismatch,
    /// The token program found that the amount overflows a balance.
    Overflow,
    /// The token program found that the amount exceeds the balance.
    InsufficientBalance,
    /// Any other failure of the token program, under the code it gave.
    Library(u64),
}

/// The token program's code for an account that belongs to another mint.
pub const MINT_MISMATCH: u64 = 3;

/// The token program's code for an amount that exceeds the balance.
pub const INSUFFICIENT_FUNDS: u64 = 1;

/// The token program's code for an amount that overflows a balance.
pub const OVERFLOW: u64 = 14;

/// The chain's code for account data that a program cannot read.
pub const INVALID_ACCOUNT_DATA: u64 = 0x4_0000_0000;

/// The chain's code for account data that is too small.
pub const ACCOUNT_DATA_TOO_SMALL: u64 = 0x5_0000_0000;

/// The chain's code for an account that the expected program does not own.
pub const INCORRECT_PROGRAM_ID: u64 = 0x7_0000_0000;

/// The chain's code for an account that was never initialized.
pub const UNINITIALIZED_ACCOUNT: u64 = 0xa_0000_0000;

/// The chain's code for an account with the wrong owner.
pub const INVALID_ACCOUNT_OWNER: u64 = 0x17_0000_0000;

/// Whether a failure code of the token program names a fault in the shape of
/// an account.
pub open spec fn is_account_fault(code: u64) -> bool {
    ||| code == MINT_MISMATCH
    ||| code == INVALID_ACCOUNT_DATA
    ||| code == ACCOUNT_DATA_TOO_SMALL
    ||| code == INCORRECT_PROGRAM_ID
    ||| code == UNINITIALIZED_ACCOUNT
    ||| code == INVALID_ACCOUNT_OWNER
}

/// The error that the faucet reports for a failure code of the token program.
pub open spec fn surfaced(code: u64) -> FaucetError {
    if code == OVERFLOW {
        FaucetError::Overflow
    } else if code == INSUFFICIENT_FUNDS {
        FaucetError::InsufficientBalance
    } else if is_account_fault(code) {
        FaucetError::InvalidAccount
    } else {
        FaucetError::Library(code)
    }
}

/// Reports a failure code of the token program: overflow and insufficient
/// balance under their own names, a fault in an account's shape as an invalid
/// account, and any other code as it came.
pub fn surface(code: u64) -> (e: FaucetError)
    ensures
        e == surfaced(code),
{
    if code == OVERFLOW {
        FaucetError::Overflow
    } else if code == INSUFFICIENT_FUNDS {
        FaucetError::InsufficientBalance
    } else if code == MINT_MISMATCH || code == INVALID_ACCOUNT_DATA || code
        == ACCOUNT_DATA_TOO_SMALL || code == INCORRECT_PROGRAM_ID || code == UNINITIALIZED_ACCOUNT
        || code == INVALID_ACCOUNT_OWNER {
        FaucetError::InvalidAccount
    } else {
        FaucetError::Library(code)
    }
}

} // verus!
