use anchor_lang::accounts::account::Account;
use anchor_lang::accounts::program::Program;
use anchor_lang::accounts::signer::Signer;
use anchor_lang::error::{Error, ErrorCode};
use anchor_lang::solana_program::account_info::AccountInfo;
use anchor_lang::solana_program::program_option::COption;
use anchor_lang::solana_program::program_pack::Pack;
use anchor_lang::solana_program::pubkey::Pubkey;
use anchor_lang::system_program::System;
use anchor_spl::associated_token::AssociatedToken;
use anchor_spl::token::spl_token::state::{Account as TokenState, AccountState, Mint as MintState};
use anchor_spl::token::{Mint, TokenAccount};
use pump_amm_swapper::schema::check_type;
use pump_amm_swapper::{AccountKind, AccountSnapshot, Address, ProgramKind, ViolationKind};

fn host_view(a: &AccountSnapshot) -> &'static AccountInfo<'static> {
    let key: &'static Pubkey = Box::leak(Box::new(Pubkey::new_from_array(a.key.bytes)));
    let owner: &'static Pubkey = Box::leak(Box::new(Pubkey::new_from_array(a.owner.bytes)));
    let lamports: &'static mut u64 = Box::leak(Box::new(a.lamports));
    let data: &'static mut [u8] = Box::leak(a.data.clone().into_boxed_slice());
    Box::leak(Box::new(AccountInfo::new(
        key,
        a.is_signer,
        a.is_writable,
        lamports,
        data,
        owner,
        a.executable,
        0,
    )))
}

fn kind_of(e: Error) -> ViolationKind {
    match e {
        Error::ProgramError(_) => ViolationKind::InvalidData,
        Error::AnchorError(e) => {
            let n = e.error_code_number;
            if n == u32::from(ErrorCode::AccountNotSigner) {
                ViolationKind::NotSigner
            } else if n == u32::from(ErrorCode::AccountNotInitialized) {
                ViolationKind::NotInitialized
            } else if n == u32::from(ErrorCode::AccountOwnedByWrongProgram) {
                ViolationKind::WrongOwner
            } else if n == u32::from(ErrorCode::InvalidProgramId) {
                ViolationKind::WrongProgram
            } else if n == u32::from(ErrorCode::InvalidProgramExecutable) {
                ViolationKind::NotExecutable
            } else {
                panic!("unexpected error {}", n)
            }
        }
    }
}

fn host_verdict(a: &AccountSnapshot, kind: AccountKind) -> Option<ViolationKind> {
    let info = host_view(a);
    match kind {
        AccountKind::Unchecked => None,
        AccountKind::Signer => Signer::try_from(info).err().map(kind_of),
        AccountKind::Mint => Account::<Mint>::try_from(info).err().map(kind_of),
        AccountKind::TokenAccount => Account::<TokenAccount>::try_from(info).err().map(kind_of),
        AccountKind::Program(ProgramKind::System) => {
            Program::<System>::try_from(info).err().map(kind_of)
        }
        AccountKind::Program(ProgramKind::AssociatedToken) => {
            Program::<AssociatedToken>::try_from(info).err().map(kind_of)
        }
        AccountKind::Program(ProgramKind::Amm) => unreachable!(),
    }
}

fn mint_data(is_initialized: bool) -> Vec<u8> {
    let mint = MintState {
        mint_authority: COption::None,
        supply: 5,
        decimals: 2,
        is_initialized,
        freeze_authority: COption::Some(Pubkey::new_from_array([8; 32])),
    };
    let mut data = vec![0u8; MintState::LEN];
    MintState::pack(mint, &mut data).unwrap();
    data
}

fn token_account_data(state: AccountState) -> Vec<u8> {
    let held = TokenState {
        mint: Pubkey::new_from_array([4; 32]),
        owner: Pubkey::new_from_array([2; 32]),
        amount: 9,
        delegate: COption::Some(Pubkey::new_from_array([5; 32])),
        state,
        is_native: COption::Some(3),
        delegated_amount: 4,
        close_authority: COption::None,
    };
    let mut data = vec![0u8; TokenState::LEN];
    TokenState::pack(held, &mut data).unwrap();
    data
}

fn samples() -> Vec<AccountSnapshot> {
    let keys = [
        Address { bytes: [1; 32] },
        Address { bytes: anchor_lang::system_program::ID.to_bytes() },
        Address { bytes: anchor_spl::token::ID.to_bytes() },
        Address { bytes: anchor_spl::associated_token::ID.to_bytes() },
    ];
    let mut flipped = mint_data(true);
    flipped[0] = 7;
    let mut truncated = token_account_data(AccountState::Initialized);
    truncated.truncate(100);
    let contents = [
        Vec::new(),
        mint_data(true),
        mint_data(false),
        flipped,
        token_account_data(AccountState::Initialized),
        token_account_data(AccountState::Frozen),
        token_account_data(AccountState::Uninitialized),
        truncated,
        vec![0u8; 82],
        vec![0u8; 165],
        vec![255u8; 82],
        vec![255u8; 165],
    ];
    let mut all = Vec::new();
    for key in keys {
        for owner in keys {
            for data in contents.iter() {
                for lamports in [0u64, 1] {
                    for flags in 0u8..4 {
                        all.push(AccountSnapshot {
                            key,
                            owner,
                            lamports,
                            data: data.clone(),
                            is_signer: flags & 1 != 0,
                            is_writable: lamports == 1,
                            executable: flags & 2 != 0,
                        });
                    }
                }
            }
        }
    }
    all
}

fn agrees_on(kind: AccountKind) {
    let amm = Address { bytes: [0xA7; 32] };
    let mut accepted = 0;
    let mut refused = 0;
    for a in samples() {
        let ours = check_type(&a, kind, &amm);
        assert_eq!(ours, host_verdict(&a, kind), "on {:?}", a);
        if ours.is_none() {
            accepted += 1;
        } else {
            refused += 1;
        }
    }
    assert!(accepted > 0);
    assert!(refused > 0 || kind == AccountKind::Unchecked);
}

#[test]
fn signer_check_agrees_with_the_host() {
    agrees_on(AccountKind::Signer);
}

#[test]
fn mint_check_agrees_with_the_host() {
    agrees_on(AccountKind::Mint);
}

#[test]
fn token_account_check_agrees_with_the_host() {
    agrees_on(AccountKind::TokenAccount);
}

#[test]
fn system_program_check_agrees_with_the_host() {
    agrees_on(AccountKind::Program(ProgramKind::System));
}

#[test]
fn associated_token_program_check_agrees_with_the_host() {
    agrees_on(AccountKind::Program(ProgramKind::AssociatedToken));
}
