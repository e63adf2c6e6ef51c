use vstd::prelude::*;
use crate::accounts::TokenAccount;
use crate::actions::claim_fees::{claim_fees_rejection, ClaimFees};
use crate::actions::deposit::{
    deposit_rejection, pool_after_deposit, position_after_deposit, Deposit,
};
use crate::actions::remove_pool::{remove_pool_rejection, RemovePool};
use crate::actions::withdraw::{payout, pool_after_withdraw, withdraw_rejection, Withdraw};
use crate::state::{AdminRecord, Pool, PoolState, UserPosition};

verus! {

/// A pool together with what surrounds it: the balance of its token account
/// and the position records of its depositors, vacant slots among them.
pub struct Ledger {
    pub pool: Pool,
    pub balance: u64,
    pub positions: Seq<UserPosition>,
}

/// A request to the pool. `slot` says which position record a deposit or a
/// withdrawal is made on.
/// The accounts are what the caller presents, honest or not; the balance of
/// the pool's token account in them is taken from the ledger.
pub enum Operation {
    Deposit { slot: int, depositing: Deposit, amount: u64, current_slot: u64 },
    Withdraw { slot: int, withdrawing: Withdraw, current_slot: u64 },
    ClaimFees { claiming: ClaimFees, admin_record: Option<AdminRecord>, current_slot: u64 },
    RemovePool { removing: RemovePool, current_slot: u64 },
}

/// The principal that the records hold together.
pub open spec fn principal(positions: Seq<UserPosition>) -> int
    decreases positions.len(),
{
    if positions.len() == 0 {
        0
    } else {
        principal(positions.drop_last()) + positions.last().deposit_amount
    }
}

/// Conservation: the pool's token account holds exactly the fees, the
/// collateral reserve and the principal of all positions.
pub open spec fn conserved(ledger: Ledger) -> bool {
    ledger.balance == ledger.pool.fee_amount + ledger.pool.collateral_amount + principal(
        ledger.positions,
    )
}

/// The accounts of a deposit as the pool sees them: with the true balance.
pub open spec fn deposit_accounts_at(accounts: Deposit, balance: u64) -> Deposit {
    Deposit {
        pool_collateral_token_account: TokenAccount {
            amount: balance,
            ..accounts.pool_collateral_token_account
        },
        ..accounts
    }
}

/// The accounts of a withdrawal as the pool sees them: with the true balance.
pub open spec fn withdraw_accounts_at(accounts: Withdraw, balance: u64) -> Withdraw {
    Withdraw {
        pool_collateral_token_account: TokenAccount {
            amount: balance,
            ..accounts.pool_collateral_token_account
        },
        ..accounts
    }
}

/// The accounts of a fee claim as the pool sees them: with the true balance.
pub open spec fn claim_accounts_at(accounts: ClaimFees, balance: u64) -> ClaimFees {
    ClaimFees {
        pool_collateral_token_account: TokenAccount {
            amount: balance,
            ..accounts.pool_collateral_token_account
        },
        ..accounts
    }
}

/// The ledger after one request. A deposit that the engine accepts, and whose
/// amount the token account can take, moves the amount in and updates pool and
/// position. A withdrawal that the engine accepts, and whose payout the token
/// account can give, moves the payout out, updates the pool and leaves the
/// record vacant. A fee claim that the engine accepts, and that the token
/// account can pay, moves the fees out. A removal that the engine accepts
/// marks the pool. Any other request leaves the ledger as it was.
pub open spec fn step(ledger: Ledger, operation: Operation) -> Ledger {
    match operation {
        Operation::Deposit { slot, depositing: accounts, amount, current_slot } => {
            let seen = deposit_accounts_at(accounts, ledger.balance);
            if 0 <= slot < ledger.positions.len() && deposit_rejection(
                seen,
                ledger.pool,
                ledger.positions[slot],
                amount,
                current_slot,
            ) is None && ledger.balance + amount <= u64::MAX {
                Ledger {
                    pool: pool_after_deposit(ledger.pool, amount, current_slot),
                    balance: (ledger.balance + amount) as u64,
                    positions: ledger.positions.update(
                        slot,
                        position_after_deposit(
                            seen,
                            ledger.pool,
                            ledger.positions[slot],
                            amount,
                            current_slot,
                        ),
                    ),
                }
            } else {
                ledger
            }
        },
        Operation::Withdraw { slot, withdrawing: accounts, current_slot } => {
            let seen = withdraw_accounts_at(accounts, ledger.balance);
            if 0 <= slot < ledger.positions.len() && withdraw_rejection(
                seen,
                ledger.pool,
                ledger.positions[slot],
                current_slot,
            ) is None && payout(ledger.pool, ledger.positions[slot], ledger.balance, current_slot)
                <= ledger.balance {
                Ledger {
                    pool: pool_after_withdraw(
                        ledger.pool,
                        ledger.positions[slot],
                        ledger.balance,
                        current_slot,
                    ),
                    balance: (ledger.balance - payout(
                        ledger.pool,
                        ledger.positions[slot],
                        ledger.balance,
                        current_slot,
                    )) as u64,
                    positions: ledger.positions.update(slot, UserPosition::vacant()),
                }
            } else {
                ledger
            }
        },
        Operation::ClaimFees { claiming: accounts, admin_record, current_slot } => {
            if claim_fees_rejection(
                claim_accounts_at(accounts, ledger.balance),
                admin_record,
                ledger.pool,
                current_slot,
            ) is None && ledger.pool.fee_amount <= ledger.balance {
                Ledger {
                    pool: Pool { state: PoolState::Ended, fee_amount: 0, ..ledger.pool },
                    balance: (ledger.balance - ledger.pool.fee_amount) as u64,
                    ..ledger
                }
            } else {
                ledger
            }
        },
        Operation::RemovePool { removing: accounts, current_slot } => {
            if remove_pool_rejection(accounts, ledger.pool, current_slot) is None {
                Ledger { pool: Pool { state: PoolState::Removed, ..ledger.pool }, ..ledger }
            } else {
                ledger
            }
        },
    }
}

/// The ledger after the requests of `operations`, in order.
pub open spec fn run(ledger: Ledger, operations: Seq<Operation>) -> Ledger
    decreases operations.len(),
{
    if operations.len() == 0 {
        ledger
    } else {
        step(run(ledger, operations.drop_last()), operations.last())
    }
}

/// Replacing one record changes the principal held by the difference between
/// the two.
proof fn lemma_principal_update(positions: Seq<UserPosition>, slot: int, position: UserPosition)
    requires
        0 <= slot < positions.len(),
    ensures
        principal(positions.update(slot, position)) == principal(positions)
            - positions[slot].deposit_amount + position.deposit_amount,
    decreases positions.len(),
{
    let updated = positions.update(slot, position);
    if slot == positions.len() - 1 {
        assert(updated.drop_last() =~= positions.drop_last());
    } else {
        assert(updated.drop_last() =~= positions.drop_last().update(slot, position));
        lemma_principal_update(positions.drop_last(), slot, position);
    }
}

/// No record holds more than all of them together.
proof fn lemma_principal_bounds(positions: Seq<UserPosition>, slot: int)
    requires
        0 <= slot < positions.len(),
    ensures
        0 <= positions[slot].deposit_amount <= principal(positions),
    decreases positions.len(),
{
    lemma_principal_nonnegative(positions.drop_last());
    if slot < positions.len() - 1 {
        lemma_principal_bounds(positions.drop_last(), slot);
    }
}

/// The principal held is never negative.
proof fn lemma_principal_nonnegative(positions: Seq<UserPosition>)
    ensures
        0 <= principal(positions),
    decreases positions.len(),
{
    if positions.len() > 0 {
        lemma_principal_nonnegative(positions.drop_last());
    }
}

/// A ledger with nothing in it is conserved: an empty token account, a pool
/// without fees or collateral, and vacant records only.
pub proof fn lemma_empty_ledger_is_conserved(pool: Pool, slots: nat)
    requires
        pool.fee_amount == 0,
        pool.collateral_amount == 0,
    ensures
        conserved(
            Ledger { pool, balance: 0, positions: Seq::new(slots, |i: int| UserPosition::vacant()) },
        ),
    decreases slots,
{
    let positions = Seq::new(slots, |i: int| UserPosition::vacant());
    if slots > 0 {
        let fewer = Seq::new((slots - 1) as nat, |i: int| UserPosition::vacant());
        assert(positions.drop_last() =~= fewer);
        lemma_empty_ledger_is_conserved(pool, (slots - 1) as nat);
    }
}

/// No request breaks conservation, whether it is accepted or refused.
pub proof fn lemma_step_conserves(ledger: Ledger, operation: Operation)
    requires
        conserved(ledger),
    ensures
        conserved(step(ledger, operation)),
{
    match operation {
        Operation::Deposit { slot, depositing: accounts, amount, current_slot } => {
            let seen = deposit_accounts_at(accounts, ledger.balance);
            if 0 <= slot < ledger.positions.len() && deposit_rejection(
                seen,
                ledger.pool,
                ledger.positions[slot],
                amount,
                current_slot,
            ) is None && ledger.balance + amount <= u64::MAX {
                let after = position_after_deposit(
                    seen,
                    ledger.pool,
                    ledger.positions[slot],
                    amount,
                    current_slot,
                );
                lemma_principal_update(ledger.positions, slot, after);
            }
        },
        Operation::Withdraw { slot, withdrawing: accounts, current_slot } => {
            let seen = withdraw_accounts_at(accounts, ledger.balance);
            if 0 <= slot < ledger.positions.len() && withdraw_rejection(
                seen,
                ledger.pool,
                ledger.positions[slot],
                current_slot,
            ) is None && payout(ledger.pool, ledger.positions[slot], ledger.balance, current_slot)
                <= ledger.balance {
                lemma_principal_update(ledger.positions, slot, UserPosition::vacant());
            }
        },
        Operation::ClaimFees { .. } => {},
        Operation::RemovePool { .. } => {},
    }
}

/// Conservation holds after every request of every sequence of deposits,
/// withdrawals, fee claims and removals, on whatever records and with whatever
/// accounts they are made.
pub proof fn lemma_conservation(ledger: Ledger, operations: Seq<Operation>)
    requires
        conserved(ledger),
    ensures
        forall|done: int|
            0 <= done <= operations.len() ==> conserved(
                #[trigger] run(ledger, operations.take(done)),
            ),
{
    assert forall|done: int| 0 <= done <= operations.len() implies conserved(
        #[trigger] run(ledger, operations.take(done)),
    ) by {
        lemma_run_conserves(ledger, operations.take(done));
    }
}

proof fn lemma_run_conserves(ledger: Ledger, operations: Seq<Operation>)
    requires
        conserved(ledger),
    ensures
        conserved(run(ledger, operations)),
    decreases operations.len(),
{
    if operations.len() > 0 {
        lemma_run_conserves(ledger, operations.drop_last());
        lemma_step_conserves(run(ledger, operations.drop_last()), operations.last());
    }
}

/// A removed pool is final: whatever is asked of it afterwards is refused,
/// and neither the pool nor its token account nor any position changes.
pub proof fn lemma_removed_pool_is_final(ledger: Ledger, operations: Seq<Operation>)
    requires
        ledger.pool.state == PoolState::Removed,
    ensures
        run(ledger, operations) == ledger,
    decreases operations.len(),
{
    if operations.len() > 0 {
        lemma_removed_pool_is_final(ledger, operations.drop_last());
    }
}

/// In a conserved ledger the token account can always give what an accepted
/// withdrawal pays.
pub proof fn lemma_payout_is_covered(
    ledger: Ledger,
    slot: int,
    accounts: Withdraw,
    current_slot: u64,
)
    requires
        conserved(ledger),
        0 <= slot < ledger.positions.len(),
        withdraw_rejection(
            withdraw_accounts_at(accounts, ledger.balance),
            ledger.pool,
            ledger.positions[slot],
            current_slot,
        ) is None,
    ensures
        0 <= payout(ledger.pool, ledger.positions[slot], ledger.balance, current_slot)
            <= ledger.balance,
{
    lemma_principal_bounds(ledger.positions, slot);
}

} // verus!
