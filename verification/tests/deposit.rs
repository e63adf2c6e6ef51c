use chicken::accounts::{DerivedAddress, TokenAccount};
use chicken::actions::deposit::DepositReceipt;
use chicken::actions::{
    bps, deposit, initialize_pool, Deposit, InitializePool, InitializePoolArgs,
};
use chicken::error::ChickenError;
use chicken::state::{Pool, PoolMode, PoolState, Pubkey, UserPosition};

const POOL_KEY: Pubkey = [1; 32];
const CREATOR: Pubkey = [2; 32];
const MINT: Pubkey = [3; 32];

/// A pool with its token account, as the host would keep them.
struct Bank {
    pool: Pool,
    balance: u64,
    slot: u64,
}

/// A depositor with the slot of their position record.
struct Saver {
    key: Pubkey,
    position_key: Pubkey,
    position: UserPosition,
}

fn open_bank(args: InitializePoolArgs) -> Bank {
    let accounts = InitializePool {
        pool: POOL_KEY,
        pool_lamports: 0,
        pool_derived: Some(DerivedAddress { address: POOL_KEY, bump: 255 }),
        creator: CREATOR,
        pool_collateral_mint: MINT,
        pool_collateral_mint_is_mint: true,
        pool_collateral_token_account: Some(TokenAccount { mint: MINT, owner: POOL_KEY, amount: 0 }),
    };
    Bank { pool: initialize_pool(&accounts, args).unwrap(), balance: 0, slot: 0 }
}

fn saver(tag: u8) -> Saver {
    Saver { key: [tag; 32], position_key: [tag + 100; 32], position: UserPosition::default() }
}

fn accounts_of(bank: &Bank, saver: &Saver) -> Deposit {
    Deposit {
        pool: POOL_KEY,
        pool_derived: Some(POOL_KEY),
        user: saver.key,
        user_is_signer: true,
        pool_collateral_token_account: TokenAccount {
            mint: MINT,
            owner: POOL_KEY,
            amount: bank.balance,
        },
        collateral_mint: MINT,
        user_position: saver.position_key,
        user_position_derived: Some(DerivedAddress { address: saver.position_key, bump: 250 }),
    }
}

fn pay_in(bank: &mut Bank, saver: &mut Saver, amount: u64) -> Result<DepositReceipt, ChickenError> {
    let accounts = accounts_of(bank, saver);
    let receipt = deposit(&accounts, &mut bank.pool, &mut saver.position, amount, bank.slot)?;
    bank.balance += amount;
    Ok(receipt)
}

fn last_out_winner(start_time: u64, end_time: u64) -> InitializePoolArgs {
    InitializePoolArgs {
        pool_id: [0; 16],
        pool_mode: PoolMode::LastOutWinner,
        start_time,
        end_time,
        minimum_deposit: 0,
        collateral_bps: 500,
        max_deposit: None,
        total_deposit_limit: None,
    }
}

#[test]
fn test_deposit_many() {
    let current_clock = 0;
    let mut bank = open_bank(last_out_winner(current_clock + 10, current_clock + 1000));
    let number_of_users = 10;
    let mut total_deposited = 0;
    let mut fee_amount = 0;
    let mut collateral_amount = 0;
    bank.slot = current_clock + 11;
    let mut seed: u64 = 0x9E37_79B9_7F4A_7C15;
    for user in 0..number_of_users {
        seed = seed.wrapping_mul(6364136223846793005).wrapping_add(1442695040888963407);
        let random = (seed >> 32) as u32 as u64;
        let mut depositor = saver(10 + user);
        pay_in(&mut bank, &mut depositor, random).unwrap();
        let pool = bank.pool;
        let user_position = depositor.position;

        let fee = bps(random, pool.deposit_fee_bps).unwrap();
        let collateral = bps(random - fee, pool.collateral_bps).unwrap();
        let deposit_amount = random - fee - collateral;

        assert_eq!(user_position.deposit_amount, deposit_amount);
        assert_eq!(user_position.collateral_amount, collateral);
        total_deposited += deposit_amount;
        fee_amount += fee;
        collateral_amount += collateral;
    }

    let pool = bank.pool;
    assert_eq!(pool.collateral_amount, collateral_amount);
    assert_eq!(pool.fee_amount, fee_amount);
    assert_eq!(bank.balance, total_deposited + fee_amount + collateral_amount);
}

#[test]
fn test_deposit_pool_not_started() {
    let current_clock = 0;
    let mut bank = open_bank(last_out_winner(current_clock + 100, current_clock + 1000));
    let amount = 1000;
    let mut user = saver(10);
    let result = pay_in(&mut bank, &mut user, amount);
    assert!(format!("{:?}", result.unwrap_err()).contains("PoolPending"));
}

#[test]
fn test_deposit_pool_ended() {
    let current_slot = 0;
    let mut bank = open_bank(last_out_winner(current_slot + 1, current_slot + 10));
    let amount = 1000;
    let mut user = saver(10);
    let mut user2 = saver(11);
    bank.slot = current_slot + 1;
    let result = pay_in(&mut bank, &mut user, amount);
    assert!(result.is_ok());
    bank.slot = current_slot + 100;
    let result2 = pay_in(&mut bank, &mut user2, amount);
    assert!(format!("{:?}", result2.unwrap_err()).contains("PoolEnded"));
}

#[test]
fn test_deposit_below_minimum() {
    let mut bank = open_bank(InitializePoolArgs {
        minimum_deposit: 1000,
        ..last_out_winner(100, 200)
    });
    let amount = 500;
    let mut user = saver(10);
    let result = pay_in(&mut bank, &mut user, amount);
    assert!(result.is_err());
}

#[test]
fn test_deposit_above_limit() {
    let mut bank = open_bank(InitializePoolArgs { max_deposit: Some(1000), ..last_out_winner(0, 100) });
    let amount = 2000;
    let mut user = saver(10);
    let result = pay_in(&mut bank, &mut user, amount);
    assert!(result.is_err());
}

#[test]
fn test_deposit_above_total_limit() {
    let current_clock = 0;
    let mut bank = open_bank(InitializePoolArgs {
        total_deposit_limit: Some(5000),
        ..last_out_winner(current_clock + 10, current_clock + 1000)
    });
    bank.slot = current_clock + 11;

    let amount1 = 3000;
    let mut user1 = saver(10);
    let result1 = pay_in(&mut bank, &mut user1, amount1);
    assert!(result1.is_ok());

    let amount2 = 1500;
    let mut user2 = saver(11);
    let result2 = pay_in(&mut bank, &mut user2, amount2);
    assert!(result2.is_ok());

    let amount3 = 2000;
    let mut user3 = saver(12);
    let result3 = pay_in(&mut bank, &mut user3, amount3);
    assert!(format!("{:?}", result3.unwrap_err()).contains("PoolDepositLimitExceeded"));
}

#[test]
fn a_deposit_is_split_into_fee_collateral_and_principal() {
    let mut bank = open_bank(last_out_winner(10, 1000));
    bank.slot = 11;
    let mut user = saver(10);
    let receipt = pay_in(&mut bank, &mut user, 10_000_000).unwrap();
    assert_eq!(receipt, DepositReceipt { fee: 10_000, collateral: 499_500, net: 9_490_500 });
    assert_eq!(bank.pool.users, 1);
    assert_eq!(bank.pool.fee_amount, 10_000);
    assert_eq!(bank.pool.collateral_amount, 499_500);
    assert_eq!(bank.pool.state, PoolState::Started);
    assert_eq!(
        user.position,
        UserPosition {
            bump: 250,
            owner: user.key,
            pool: POOL_KEY,
            collateral_amount: 499_500,
            deposit_amount: 9_490_500,
            deposit_time: 11,
            withdrawn: false,
        }
    );
}

#[test]
fn a_second_deposit_adds_up_and_keeps_the_first_time() {
    let mut bank = open_bank(last_out_winner(10, 1000));
    bank.slot = 11;
    let mut user = saver(10);
    pay_in(&mut bank, &mut user, 1000).unwrap();
    assert_eq!(user.position.deposit_amount, 950);
    assert_eq!(user.position.collateral_amount, 49);
    bank.slot = 500;
    pay_in(&mut bank, &mut user, 2000).unwrap();
    assert_eq!(user.position.deposit_amount, 950 + 1899);
    assert_eq!(user.position.collateral_amount, 49 + 99);
    assert_eq!(user.position.deposit_time, 11);
    assert_eq!(bank.pool.users, 2);
    assert_eq!(bank.pool.fee_amount, 1 + 2);
    assert_eq!(bank.balance, 3000);
}

#[test]
fn a_refused_deposit_changes_nothing() {
    let mut bank = open_bank(last_out_winner(10, 1000));
    let mut user = saver(10);
    let pool_before = bank.pool;
    assert_eq!(pay_in(&mut bank, &mut user, 1000), Err(ChickenError::PoolPending));
    assert_eq!(bank.pool, pool_before);
    assert_eq!(user.position, UserPosition::default());
    assert_eq!(bank.balance, 0);
}

#[test]
fn the_cap_per_position_counts_what_the_position_holds() {
    let mut bank = open_bank(InitializePoolArgs { max_deposit: Some(1000), ..last_out_winner(0, 100) });
    let mut user = saver(10);
    assert!(pay_in(&mut bank, &mut user, 1000).is_ok());
    assert_eq!(user.position.deposit_amount, 950);
    // 950 held and 51 offered are 1001.
    assert_eq!(pay_in(&mut bank, &mut user, 51), Err(ChickenError::UserDepositLimitExceeded));
    assert!(pay_in(&mut bank, &mut user, 50).is_ok());
}

#[test]
fn the_overall_cap_is_reached_exactly() {
    let mut bank = open_bank(InitializePoolArgs {
        total_deposit_limit: Some(5000),
        ..last_out_winner(0, 100)
    });
    let mut user = saver(10);
    assert!(pay_in(&mut bank, &mut user, 4000).is_ok());
    let mut other = saver(11);
    assert_eq!(pay_in(&mut bank, &mut other, 1001), Err(ChickenError::PoolDepositLimitExceeded));
    assert!(pay_in(&mut bank, &mut other, 1000).is_ok());
    assert_eq!(bank.balance, 5000);
}

#[test]
fn a_cap_that_the_sum_overflows_is_exceeded() {
    let mut bank = open_bank(InitializePoolArgs {
        total_deposit_limit: Some(u64::MAX),
        ..last_out_winner(0, 100)
    });
    bank.balance = u64::MAX;
    let mut user = saver(10);
    let accounts = accounts_of(&bank, &user);
    assert_eq!(
        deposit(&accounts, &mut bank.pool, &mut user.position, 1, 0),
        Err(ChickenError::PoolDepositLimitExceeded)
    );
}

#[test]
fn deposits_check_who_and_where() {
    let mut bank = open_bank(last_out_winner(0, 100));
    let mut user = saver(10);
    let good = accounts_of(&bank, &user);
    let pool_before = bank.pool;

    let unsigned = Deposit { user_is_signer: false, ..good };
    assert_eq!(
        deposit(&unsigned, &mut bank.pool, &mut user.position, 1000, 0),
        Err(ChickenError::Unauthorized)
    );
    let foreign_token = Deposit {
        pool_collateral_token_account: TokenAccount { mint: [8; 32], owner: POOL_KEY, amount: 0 },
        ..good
    };
    assert_eq!(
        deposit(&foreign_token, &mut bank.pool, &mut user.position, 1000, 0),
        Err(ChickenError::InvalidTokenAccount)
    );
    let stray_token = Deposit {
        pool_collateral_token_account: TokenAccount { mint: MINT, owner: [8; 32], amount: 0 },
        ..good
    };
    assert_eq!(
        deposit(&stray_token, &mut bank.pool, &mut user.position, 1000, 0),
        Err(ChickenError::InvalidTokenAccount)
    );
    let other_mint = Deposit {
        collateral_mint: [8; 32],
        pool_collateral_token_account: TokenAccount { mint: [8; 32], owner: POOL_KEY, amount: 0 },
        ..good
    };
    assert_eq!(
        deposit(&other_mint, &mut bank.pool, &mut user.position, 1000, 0),
        Err(ChickenError::InvalidMint)
    );
    let wrong_pool = Deposit { pool_derived: Some([8; 32]), ..good };
    assert_eq!(
        deposit(&wrong_pool, &mut bank.pool, &mut user.position, 1000, 0),
        Err(ChickenError::InvalidPoolAddress)
    );
    let no_pool = Deposit { pool_derived: None, ..good };
    assert_eq!(
        deposit(&no_pool, &mut bank.pool, &mut user.position, 1000, 0),
        Err(ChickenError::InvalidPoolAddress)
    );
    let wrong_slot = Deposit {
        user_position_derived: Some(DerivedAddress { address: [8; 32], bump: 250 }),
        ..good
    };
    assert_eq!(
        deposit(&wrong_slot, &mut bank.pool, &mut user.position, 1000, 0),
        Err(ChickenError::InvalidPoolAddress)
    );
    assert_eq!(bank.pool, pool_before);
    assert_eq!(user.position, UserPosition::default());

    // Once the position is live, the same mistake is named after the position.
    pay_in(&mut bank, &mut user, 1000).unwrap();
    let wrong_slot = Deposit {
        user_position_derived: None,
        ..accounts_of(&bank, &user)
    };
    assert_eq!(
        deposit(&wrong_slot, &mut bank.pool, &mut user.position, 1000, 0),
        Err(ChickenError::InvalidPoolPositionAddress)
    );
}

#[test]
fn rates_above_the_whole_cannot_be_split() {
    let mut bank = open_bank(InitializePoolArgs { collateral_bps: 10_001, ..last_out_winner(0, 100) });
    let mut user = saver(10);
    assert_eq!(
        pay_in(&mut bank, &mut user, 1_000_000),
        Err(ChickenError::InvalidNumericConversion)
    );
    bank.pool.collateral_bps = 10_000;
    let receipt = pay_in(&mut bank, &mut user, 1_000_000).unwrap();
    assert_eq!(receipt, DepositReceipt { fee: 1000, collateral: 999_000, net: 0 });
}

#[test]
fn sums_that_overflow_are_refused() {
    let mut bank = open_bank(last_out_winner(0, 100));
    bank.pool.users = u32::MAX;
    let mut user = saver(10);
    assert_eq!(pay_in(&mut bank, &mut user, 1000), Err(ChickenError::InvalidNumericConversion));
    bank.pool.users = 0;
    bank.pool.fee_amount = u64::MAX;
    assert_eq!(pay_in(&mut bank, &mut user, 1000), Err(ChickenError::InvalidNumericConversion));
    bank.pool.fee_amount = 0;
    bank.pool.collateral_amount = u64::MAX - 48;
    assert_eq!(pay_in(&mut bank, &mut user, 1000), Err(ChickenError::InvalidNumericConversion));
    bank.pool.collateral_amount = u64::MAX - 49;
    assert!(pay_in(&mut bank, &mut user, 1000).is_ok());
}
