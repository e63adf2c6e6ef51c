use vstd::prelude::*;

verus! {

/// An identity or an address: thirty-two bytes.
pub type Pubkey = [u8; 32];

/// The bytes that a position record takes in storage.
pub const USER_POSITION_SPACE: u64 = 90;

/// The bytes that the admin record takes in storage.
pub const ADMIN_RECORD_SPACE: u64 = 33;

/// The bytes that are left of a pool record once the pool is removed.
pub const REMOVED_POOL_SPACE: u64 = 1;

/// Where a pool stands in its life. The state is derived from the clock on
/// every operation; only `Removed` is set for good.
#[derive(Clone, Copy, Debug, PartialEq, Eq, Structural)]
pub enum PoolState {
    Pending,
    Started,
    Ended,
    Removed,
}

/// How the collateral reserve is handed back on withdrawal.
#[derive(Clone, Copy, Debug, PartialEq, Eq, Structural)]
pub enum PoolMode {
    /// Whoever leaves while others remain forfeits their collateral; the last
    /// one out takes the whole reserve.
    LastOutWinner,
    /// Refund and reward grow with the time spent in the pool.
    TimeBased,
}

/// The shared record of one deposit round.
#[derive(Clone, Copy, Debug, PartialEq, Eq)]
pub struct Pool {
    pub state: PoolState,
    /// The nonce of the pool's derived address.
    pub bump: u8,
    pub creator: Pubkey,
    /// The fee on deposits, in basis points.
    pub deposit_fee_bps: u16,
    /// The fee on withdrawals, in basis points.
    pub withdraw_fee_bps: u16,
    /// The part of a deposit, after the fee, that goes into the reserve, in
    /// basis points.
    pub collateral_bps: u16,
    /// The collateral reserve: what was taken from deposits and has not been
    /// released yet.
    pub collateral_amount: u64,
    /// The fees that have not been claimed yet.
    pub fee_amount: u64,
    pub mode: PoolMode,
    /// The first slot of the window.
    pub start_time: u64,
    /// The last slot of the window.
    pub end_time: u64,
    pub min_deposit: u64,
    /// The deposits made, less the withdrawals. A depositor who deposits
    /// twice counts twice.
    pub users: u32,
    /// All that was ever paid out.
    pub withdrawn: u64,
    /// What the creator chose to tell this pool from their others.
    pub pool_id: [u8; 16],
    /// The identity that may remove the pool.
    pub authority: Pubkey,
    /// The asset that the pool accepts.
    pub collateral_mint: Pubkey,
    /// The cap per position, if there is one.
    pub max_deposit: Option<u64>,
    /// The cap on what the pool's token account holds, if there is one.
    pub total_deposit_limit: Option<u64>,
}

/// One depositor's claim against a pool. A record whose every byte is zero is
/// a vacant slot: no position has been opened in it, or the position was
/// withdrawn.
#[derive(Clone, Copy, Debug, PartialEq, Eq)]
pub struct UserPosition {
    /// The nonce of the record's derived address.
    pub bump: u8,
    pub owner: Pubkey,
    pub pool: Pubkey,
    /// What this position has put into the collateral reserve.
    pub collateral_amount: u64,
    /// The principal: what was deposited, less fees and collateral.
    pub deposit_amount: u64,
    /// The slot of the first deposit; zero while there was none.
    pub deposit_time: u64,
    pub withdrawn: bool,
}

/// The record that names the one identity that may claim fees.
#[derive(Clone, Copy, Debug, PartialEq, Eq)]
pub struct AdminRecord {
    pub admin: Pubkey,
    pub bump: u8,
}

/// The key made of zero bytes only.
pub open spec fn zero_key() -> Pubkey {
    vstd::array::spec_array_fill_for_copy_type::<u8, 32>(0u8)
}

/// `true` exactly when the two keys hold the same bytes.
pub fn same_key(a: &Pubkey, b: &Pubkey) -> (same: bool)
    ensures
        same == (*a == *b),
{
    broadcast use vstd::array::axiom_array_ext_equal;

    let mut i: usize = 0;
    while i < 32
        invariant
            i <= 32,
            forall|j: int| 0 <= j < i ==> a[j] == b[j],
        decreases 32 - i,
    {
        if a[i] != b[i] {
            assert(!(*a =~= *b));
            return false;
        }
        i += 1;
    }
    assert(*a =~= *b);
    true
}

/// `true` exactly when every byte of the key is zero.
pub fn is_zero_key(key: &Pubkey) -> (zero: bool)
    ensures
        zero == (*key == zero_key()),
{
    broadcast use vstd::array::axiom_array_ext_equal;
    broadcast use vstd::array::axiom_spec_array_fill_for_copy_type;

    let zeros: Pubkey = [0u8; 32];
    same_key(key, &zeros)
}

impl UserPosition {
    /// The vacant slot: every field zero.
    pub open spec fn vacant() -> UserPosition {
        UserPosition {
            bump: 0,
            owner: zero_key(),
            pool: zero_key(),
            collateral_amount: 0,
            deposit_amount: 0,
            deposit_time: 0,
            withdrawn: false,
        }
    }

    /// A fresh position of `owner` in `pool`: nothing deposited yet.
    pub open spec fn opened(owner: Pubkey, pool: Pubkey, bump: u8) -> UserPosition {
        UserPosition {
            bump,
            owner,
            pool,
            collateral_amount: 0,
            deposit_amount: 0,
            deposit_time: 0,
            withdrawn: false,
        }
    }

    /// A fresh position of `owner` in `pool`, at the address made with `bump`.
    pub fn new(owner: Pubkey, pool: Pubkey, bump: u8) -> (position: Self)
        ensures
            position == Self::opened(owner, pool, bump),
    {
        UserPosition {
            bump,
            owner,
            pool,
            collateral_amount: 0,
            deposit_amount: 0,
            deposit_time: 0,
            withdrawn: false,
        }
    }

    /// Whether the slot holds no position.
    pub fn is_vacant(&self) -> (vacant: bool)
        ensures
            vacant == (*self == Self::vacant()),
    {
        self.bump == 0 && is_zero_key(&self.owner) && is_zero_key(&self.pool)
            && self.collateral_amount == 0 && self.deposit_amount == 0 && self.deposit_time == 0
            && !self.withdrawn
    }
}

impl Default for UserPosition {
    fn default() -> (position: Self)
        ensures
            position == UserPosition::vacant(),
    {
        UserPosition {
            bump: 0,
            owner: [0u8; 32],
            pool: [0u8; 32],
            collateral_amount: 0,
            deposit_amount: 0,
            deposit_time: 0,
            withdrawn: false,
        }
    }
}

} // verus!
