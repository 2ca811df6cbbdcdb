//! The ledger's global guarantees, stated over the specification-level
//! transition functions and proved once and for all: the exactly-once
//! creation guard, counter monotonicity across arbitrary operation
//! sequences, atomicity on failure, and the authorization gate.

use vstd::prelude::*;

use crate::ledger::{
    ledger_deposit, ledger_fund_custodial, ledger_initialize, ledger_update_settings,
    ledger_withdraw, owner_keyed, Deposit, InitializeVault, UpdateSettings, Withdraw,
};
use crate::vault::{
    vault_deposit, vault_fund_custodial, vault_update_settings, vault_withdraw, ChaingeError,
    DepositEvent, Pubkey,
    Strategy, Vault, WithdrawEvent,
};

verus! {

/// Between two ledger states: no record disappears, and no record's
/// cumulative counter shrinks.
pub open spec fn counters_monotone(m1: Map<Pubkey, Vault>, m2: Map<Pubkey, Vault>) -> bool {
    forall|o: Pubkey| #[trigger]
        m1.dom().contains(o) ==> m2.dom().contains(o)
            && m1[o].total_deposited <= m2[o].total_deposited
            && m1[o].total_withdrawn <= m2[o].total_withdrawn
            && m1[o].deposit_count <= m2[o].deposit_count
}

/// Creation is exactly-once: whatever a first initialize call did for an
/// owner, a second call for the same owner fails with `AlreadyInitialized`
/// and leaves the ledger exactly as the first call left it.
pub proof fn lemma_initialize_once(
    m: Map<Pubkey, Vault>,
    req1: InitializeVault,
    t1: i64,
    req2: InitializeVault,
    t2: i64,
)
    requires
        req2.owner == req1.owner,
    ensures
        ledger_initialize(ledger_initialize(m, req1, t1).0, req2, t2).1 == Err::<
            (),
            ChaingeError,
        >(ChaingeError::AlreadyInitialized),
        ledger_initialize(ledger_initialize(m, req1, t1).0, req2, t2).0 == ledger_initialize(
            m,
            req1,
            t1,
        ).0,
{
}

/// Initialize never shrinks a counter: it only ever adds a record whose
/// counters start at zero.
pub proof fn lemma_initialize_monotone(m: Map<Pubkey, Vault>, req: InitializeVault, now: i64)
    ensures
        counters_monotone(m, ledger_initialize(m, req, now).0),
{
}

/// Deposit never shrinks a counter, whether it is accepted or refused.
pub proof fn lemma_deposit_monotone(m: Map<Pubkey, Vault>, req: Deposit, spendable: u64, now: i64)
    ensures
        counters_monotone(m, ledger_deposit(m, req, spendable, now).0),
{
}

/// Withdraw never shrinks a counter, whether it is accepted or refused.
pub proof fn lemma_withdraw_monotone(m: Map<Pubkey, Vault>, req: Withdraw, now: i64)
    ensures
        counters_monotone(m, ledger_withdraw(m, req, now).0),
{
}

/// A settings update touches no counter at all.
pub proof fn lemma_update_settings_monotone(m: Map<Pubkey, Vault>, req: UpdateSettings)
    ensures
        counters_monotone(m, ledger_update_settings(m, req).0),
{
}

/// An external custodial inflow touches no counter at all.
pub proof fn lemma_fund_custodial_monotone(m: Map<Pubkey, Vault>, owner: Pubkey, amount: u64)
    ensures
        counters_monotone(m, ledger_fund_custodial(m, owner, amount).0),
{
}

/// Monotonicity composes: across any sequence of operations, every
/// record's counters are non-decreasing.
pub proof fn lemma_counters_monotone_trans(
    m1: Map<Pubkey, Vault>,
    m2: Map<Pubkey, Vault>,
    m3: Map<Pubkey, Vault>,
)
    requires
        counters_monotone(m1, m2),
        counters_monotone(m2, m3),
    ensures
        counters_monotone(m1, m3),
{
    assert forall|o: Pubkey| #[trigger]
        m1.dom().contains(o) implies m3.dom().contains(o)
        && m1[o].total_deposited <= m3[o].total_deposited
        && m1[o].total_withdrawn <= m3[o].total_withdrawn
        && m1[o].deposit_count <= m3[o].deposit_count by {
        assert(m2.dom().contains(o));
    }
}

/// A refused initialize leaves the ledger untouched.
pub proof fn lemma_initialize_atomic(m: Map<Pubkey, Vault>, req: InitializeVault, now: i64)
    ensures
        ledger_initialize(m, req, now).1 is Err ==> ledger_initialize(m, req, now).0 == m,
{
}

/// A refused deposit leaves the ledger untouched, whichever check failed.
pub proof fn lemma_deposit_atomic(m: Map<Pubkey, Vault>, req: Deposit, spendable: u64, now: i64)
    ensures
        ledger_deposit(m, req, spendable, now).1 is Err ==> ledger_deposit(
            m,
            req,
            spendable,
            now,
        ).0 == m,
{
}

/// A refused withdrawal leaves the ledger untouched, whichever check
/// failed.
pub proof fn lemma_withdraw_atomic(m: Map<Pubkey, Vault>, req: Withdraw, now: i64)
    ensures
        ledger_withdraw(m, req, now).1 is Err ==> ledger_withdraw(m, req, now).0 == m,
{
}

/// A refused settings update leaves the ledger untouched.
pub proof fn lemma_update_settings_atomic(m: Map<Pubkey, Vault>, req: UpdateSettings)
    ensures
        ledger_update_settings(m, req).1 is Err ==> ledger_update_settings(m, req).0 == m,
{
}

/// A refused custodial inflow leaves the ledger untouched.
pub proof fn lemma_fund_custodial_atomic(m: Map<Pubkey, Vault>, owner: Pubkey, amount: u64)
    ensures
        ledger_fund_custodial(m, owner, amount).1 is Err ==> ledger_fund_custodial(
            m,
            owner,
            amount,
        ).0 == m,
{
}

/// The owner is set once at creation and no transition ever changes it,
/// accepted or refused.
pub proof fn lemma_owner_immutable(
    v: Vault,
    caller: Pubkey,
    amount: u64,
    spendable: u64,
    now: i64,
    round_up_amount: Option<u64>,
    strategy: Option<Strategy>,
    is_active: Option<bool>,
)
    ensures
        vault_deposit(v, caller, amount, spendable, now).0.owner == v.owner,
        vault_withdraw(v, caller, amount, now).0.owner == v.owner,
        vault_update_settings(v, caller, round_up_amount, strategy, is_active).0.owner == v.owner,
        vault_fund_custodial(v, amount).0.owner == v.owner,
{
}

/// `deposit_count` grows by exactly one on an accepted deposit and by
/// nothing on a refused deposit, a withdrawal, a settings update or an
/// external custodial inflow.
pub proof fn lemma_deposit_count_step(
    v: Vault,
    caller: Pubkey,
    amount: u64,
    spendable: u64,
    now: i64,
    round_up_amount: Option<u64>,
    strategy: Option<Strategy>,
    is_active: Option<bool>,
)
    ensures
        vault_deposit(v, caller, amount, spendable, now).1 is Ok ==> vault_deposit(
            v,
            caller,
            amount,
            spendable,
            now,
        ).0.deposit_count == v.deposit_count + 1,
        vault_deposit(v, caller, amount, spendable, now).1 is Err ==> vault_deposit(
            v,
            caller,
            amount,
            spendable,
            now,
        ).0.deposit_count == v.deposit_count,
        vault_withdraw(v, caller, amount, now).0.deposit_count == v.deposit_count,
        vault_update_settings(
            v,
            caller,
            round_up_amount,
            strategy,
            is_active,
        ).0.deposit_count == v.deposit_count,
        vault_fund_custodial(v, amount).0.deposit_count == v.deposit_count,
{
}

/// A deposit signed by anyone but the record's owner is always refused with
/// no mutation, and — past the zero-amount screen — the error is precisely
/// `Unauthorized`.
pub proof fn lemma_record_deposit_authorization(
    v: Vault,
    caller: Pubkey,
    amount: u64,
    spendable: u64,
    now: i64,
)
    requires
        caller != v.owner,
    ensures
        vault_deposit(v, caller, amount, spendable, now).0 == v,
        vault_deposit(v, caller, amount, spendable, now).1 is Err,
        amount != 0 ==> vault_deposit(v, caller, amount, spendable, now).1 == Err::<
            DepositEvent,
            ChaingeError,
        >(ChaingeError::Unauthorized),
{
}

/// A withdrawal signed by anyone but the record's owner is always refused
/// with no mutation, and — past the zero-amount screen — the error is
/// precisely `Unauthorized`.
pub proof fn lemma_record_withdraw_authorization(v: Vault, caller: Pubkey, amount: u64, now: i64)
    requires
        caller != v.owner,
    ensures
        vault_withdraw(v, caller, amount, now).0 == v,
        vault_withdraw(v, caller, amount, now).1 is Err,
        amount != 0 ==> vault_withdraw(v, caller, amount, now).1 == Err::<
            WithdrawEvent,
            ChaingeError,
        >(ChaingeError::Unauthorized),
{
}

/// A settings update signed by anyone but the record's owner always fails
/// with `Unauthorized` and causes no mutation.
pub proof fn lemma_record_update_settings_authorization(
    v: Vault,
    caller: Pubkey,
    round_up_amount: Option<u64>,
    strategy: Option<Strategy>,
    is_active: Option<bool>,
)
    requires
        caller != v.owner,
    ensures
        vault_update_settings(v, caller, round_up_amount, strategy, is_active).0 == v,
        vault_update_settings(v, caller, round_up_amount, strategy, is_active).1 == Err::<
            (),
            ChaingeError,
        >(ChaingeError::Unauthorized),
{
}

/// On an owner-keyed ledger — and every ledger the crate can build is one —
/// a deposit request whose caller differs from the owner it names mutates
/// nothing, and — past the zero-amount screen — fails precisely with
/// `Unauthorized`.
pub proof fn lemma_deposit_authorization(
    m: Map<Pubkey, Vault>,
    req: Deposit,
    spendable: u64,
    now: i64,
)
    requires
        owner_keyed(m),
        req.caller != req.owner,
    ensures
        ledger_deposit(m, req, spendable, now).0 == m,
        ledger_deposit(m, req, spendable, now).1 is Err,
        req.amount != 0 ==> ledger_deposit(m, req, spendable, now).1 == Err::<
            DepositEvent,
            ChaingeError,
        >(ChaingeError::Unauthorized),
{
}

/// On an owner-keyed ledger, a withdrawal request whose caller differs from
/// the owner it names mutates nothing, and — past the zero-amount screen —
/// fails precisely with `Unauthorized`.
pub proof fn lemma_withdraw_authorization(m: Map<Pubkey, Vault>, req: Withdraw, now: i64)
    requires
        owner_keyed(m),
        req.caller != req.owner,
    ensures
        ledger_withdraw(m, req, now).0 == m,
        ledger_withdraw(m, req, now).1 is Err,
        req.amount != 0 ==> ledger_withdraw(m, req, now).1 == Err::<
            WithdrawEvent,
            ChaingeError,
        >(ChaingeError::Unauthorized),
{
}

/// On an owner-keyed ledger, a settings update whose caller differs from
/// the owner it names always fails with `Unauthorized` and causes no
/// mutation.
pub proof fn lemma_update_settings_authorization(m: Map<Pubkey, Vault>, req: UpdateSettings)
    requires
        owner_keyed(m),
        req.caller != req.owner,
    ensures
        ledger_update_settings(m, req).0 == m,
        ledger_update_settings(m, req).1 == Err::<(), ChaingeError>(ChaingeError::Unauthorized),
{
}

} // verus!
