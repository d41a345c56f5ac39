use anchor_lang::solana_program::program_error::ProgramError;
use anchor_spl::token::spl_token::error::TokenError;
use test_token::{complete_burn, complete_mint, surface, Account, Address, BurnEvent, BurnTokens, FaucetError, MintEvent, MintTokens};

fn code(e: ProgramError) -> u64 {
    u64::from(e)
}

fn blank(key: u8) -> Account {
    Account {
        key: Address { bytes: [key; 32] },
        owner: Address { bytes: [0u8; 32] },
        data: Vec::new(),
        is_signer: false,
        is_writable: false,
        executable: false,
    }
}

fn minting() -> MintTokens {
    MintTokens { mint: blank(1), mint_authority: blank(2), to: blank(3), token_program: blank(4) }
}

fn burning() -> BurnTokens {
    BurnTokens { mint: blank(1), from: blank(5), authority: blank(6), token_program: blank(4) }
}

#[test]
fn overflow_of_the_token_program_is_overflow() {
    assert_eq!(code(TokenError::Overflow.into()), 14);
    assert_eq!(surface(14), FaucetError::Overflow);
}

#[test]
fn insufficient_funds_of_the_token_program_is_insufficient_balance() {
    assert_eq!(code(TokenError::InsufficientFunds.into()), 1);
    assert_eq!(surface(1), FaucetError::InsufficientBalance);
}

#[test]
fn faults_in_an_account_are_invalid_account() {
    let faults = [
        code(TokenError::MintMismatch.into()),
        code(ProgramError::InvalidAccountData),
        code(ProgramError::AccountDataTooSmall),
        code(ProgramError::IncorrectProgramId),
        code(ProgramError::UninitializedAccount),
        code(ProgramError::InvalidAccountOwner),
    ];
    assert_eq!(faults, [3, 4 << 32, 5 << 32, 7 << 32, 10 << 32, 23 << 32]);
    for fault in faults {
        assert_eq!(surface(fault), FaucetError::InvalidAccount);
    }
}

#[test]
fn other_failures_keep_their_code() {
    let frozen = code(TokenError::AccountFrozen.into());
    assert_eq!(frozen, 17);
    assert_eq!(surface(frozen), FaucetError::Library(17));
    let unsigned = code(ProgramError::MissingRequiredSignature);
    assert_eq!(surface(unsigned), FaucetError::Library(8 << 32));
    assert_eq!(surface(0), FaucetError::Library(0));
    assert_eq!(surface(u64::MAX), FaucetError::Library(u64::MAX));
}

#[test]
fn mint_ends_in_its_event_or_the_surfaced_error() {
    let accounts = minting();
    assert_eq!(
        complete_mint(&accounts, 100, Ok(())),
        Ok(MintEvent { account: Address { bytes: [3u8; 32] }, amount: 100 })
    );
    assert_eq!(complete_mint(&accounts, 100, Err(14)), Err(FaucetError::Overflow));
    assert_eq!(complete_mint(&accounts, 100, Err(3)), Err(FaucetError::InvalidAccount));
    assert_eq!(complete_mint(&accounts, 100, Err(5)), Err(FaucetError::Library(5)));
}

#[test]
fn burn_ends_in_its_event_or_the_surfaced_error() {
    let accounts = burning();
    assert_eq!(
        complete_burn(&accounts, 0, Ok(())),
        Ok(BurnEvent { account: Address { bytes: [5u8; 32] }, amount: 0 })
    );
    assert_eq!(complete_burn(&accounts, 9, Err(1)), Err(FaucetError::InsufficientBalance));
    assert_eq!(complete_burn(&accounts, 9, Err(4 << 32)), Err(FaucetError::InvalidAccount));
    assert_eq!(complete_burn(&accounts, 9, Err(17)), Err(FaucetError::Library(17)));
}
