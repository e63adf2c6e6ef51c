use chicken::actions::{remove_pool, update_pool_state, RemovePool};
use chicken::error::ChickenError;
use chicken::state::{Pool, PoolMode, PoolState, Pubkey};

const POOL_KEY: Pubkey = [1; 32];
const CREATOR: Pubkey = [2; 32];

fn drained_pool() -> Pool {
    Pool {
        state: PoolState::Ended,
        bump: 254,
        creator: CREATOR,
        deposit_fee_bps: 10,
        withdraw_fee_bps: 10,
        collateral_bps: 500,
        collateral_amount: 0,
        fee_amount: 0,
        mode: PoolMode::LastOutWinner,
        start_time: 10,
        end_time: 1000,
        min_deposit: 0,
        users: 0,
        withdrawn: 2995,
        pool_id: [0; 16],
        authority: CREATOR,
        collateral_mint: [3; 32],
        max_deposit: None,
        total_deposit_limit: None,
    }
}

fn removing() -> RemovePool {
    RemovePool {
        pool: POOL_KEY,
        pool_derived: Some(POOL_KEY),
        creator: CREATOR,
        creator_is_signer: true,
    }
}

#[test]
fn a_drained_pool_is_removed_for_good() {
    let mut pool = drained_pool();
    let before = pool;
    assert_eq!(remove_pool(&removing(), &mut pool, 1001, 2_338_560, 897_840), Ok(1_440_720));
    assert_eq!(pool, Pool { state: PoolState::Removed, ..before });
    for now in [0u64, 500, 1001, u64::MAX] {
        update_pool_state(&mut pool, now).unwrap();
        assert_eq!(pool.state, PoolState::Removed);
    }
    // It cannot be removed twice.
    assert_eq!(
        remove_pool(&removing(), &mut pool, 1001, 2_338_560, 897_840),
        Err(ChickenError::PoolEnded)
    );
}

#[test]
fn no_reserve_is_returned_where_none_is_free() {
    let mut pool = drained_pool();
    assert_eq!(remove_pool(&removing(), &mut pool, 1001, 10, 10), Ok(0));
    let mut pool = drained_pool();
    assert_eq!(remove_pool(&removing(), &mut pool, 1001, 10, 11), Ok(0));
    let mut pool = drained_pool();
    assert_eq!(remove_pool(&removing(), &mut pool, 1001, u64::MAX, 0), Ok(u64::MAX));
}

#[test]
fn the_state_is_taken_at_the_current_slot() {
    // Emptied within its window, the pool is not over yet.
    let mut pool = drained_pool();
    let before = pool;
    assert_eq!(remove_pool(&removing(), &mut pool, 500, 100, 10), Err(ChickenError::PoolEnded));
    assert_eq!(pool, before);
    // Last seen as started, the pool is over once the window has passed.
    let mut pool = Pool { state: PoolState::Started, ..drained_pool() };
    assert_eq!(remove_pool(&removing(), &mut pool, 1001, 100, 10), Ok(90));
    assert_eq!(pool.state, PoolState::Removed);
    let mut pool = Pool { state: PoolState::Pending, ..drained_pool() };
    assert_eq!(remove_pool(&removing(), &mut pool, 5, 100, 10), Err(ChickenError::PoolEnded));
}

#[test]
fn a_pool_with_positions_or_fees_stays() {
    let mut pool = Pool { users: 1, ..drained_pool() };
    let before = pool;
    assert_eq!(remove_pool(&removing(), &mut pool, 1001, 100, 10), Err(ChickenError::PoolNotEmpty));
    assert_eq!(pool, before);
    let mut pool = Pool { fee_amount: 1, ..drained_pool() };
    assert_eq!(remove_pool(&removing(), &mut pool, 1001, 100, 10), Err(ChickenError::PoolNotEmpty));
    // Collateral that nobody can claim does not keep the pool.
    let mut pool = Pool { collateral_amount: 5, ..drained_pool() };
    assert_eq!(remove_pool(&removing(), &mut pool, 1001, 100, 10), Ok(90));
}

#[test]
fn only_the_authority_removes_a_pool() {
    let mut pool = drained_pool();
    let before = pool;
    let unsigned = RemovePool { creator_is_signer: false, ..removing() };
    assert_eq!(remove_pool(&unsigned, &mut pool, 1001, 100, 10), Err(ChickenError::Unauthorized));
    let stranger = RemovePool { creator: [8; 32], ..removing() };
    assert_eq!(remove_pool(&stranger, &mut pool, 1001, 100, 10), Err(ChickenError::Unauthorized));
    let elsewhere = RemovePool { pool_derived: Some([8; 32]), ..removing() };
    assert_eq!(
        remove_pool(&elsewhere, &mut pool, 1001, 100, 10),
        Err(ChickenError::InvalidPoolAddress)
    );
    let underived = RemovePool { pool_derived: None, ..removing() };
    assert_eq!(
        remove_pool(&underived, &mut pool, 1001, 100, 10),
        Err(ChickenError::InvalidPoolAddress)
    );
    assert_eq!(pool, before);
}
