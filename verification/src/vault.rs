//! The per-owner vault record and its state machine.
//!
//! Every executable transition is pinned to a specification-level transition
//! function (`fresh_vault`, `vault_deposit`, `vault_withdraw`,
//! `vault_update_settings`, `vault_fund_custodial`): the `ensures` of each
//! method says that the new record and the returned value are exactly what
//! the transition function computes from the old record and the inputs.

use vstd::prelude::*;

verus! {

/// A 32-byte public key identifying an owner, held as four 64-bit words.
///
/// The key is opaque data to this crate: it is only ever compared for
/// equality. Verifying that a caller cryptographically controls a key is the
/// host environment's job; the operations here take the already-verified
/// caller identity as a plain argument.
#[derive(Clone, Copy, PartialEq, Eq, Structural, Debug, Hash)]
pub struct Pubkey {
    pub w0: u64,
    pub w1: u64,
    pub w2: u64,
    pub w3: u64,
}

/// The investment strategy tag. Pure data for an external consumer: no
/// operation of this crate branches on it.
#[derive(Clone, Copy, PartialEq, Eq, Structural, Debug)]
pub enum Strategy {
    LiquidStake,
    LpYield,
    Dca,
    Vault,
}

/// Every way an operation can be refused. Each operation checks its
/// preconditions before any mutation, so a returned error always comes with
/// an unchanged record.
#[derive(Clone, Copy, PartialEq, Eq, Structural, Debug)]
pub enum ChaingeError {
    /// The amount parameter of a deposit or withdrawal was zero.
    ZeroAmount,
    /// A deposit was attempted while the vault is deactivated.
    VaultInactive,
    /// A withdrawal asked for more than the current custodial balance.
    InsufficientFunds,
    /// The caller is not the record's owner, or no record exists.
    Unauthorized,
    /// A second initialization was attempted for the same owner.
    AlreadyInitialized,
    /// A counter update would exceed the representable range.
    ArithmeticOverflow,
    /// The value transfer into the custodial balance did not complete.
    TransferFailed,
}

/// The durable state of one owner's vault.
///
/// `custodial_balance` is the pool of value held on the owner's behalf; it
/// is logically part of the vault even though the funds physically live at
/// an address of their own. The three counters only ever grow.
#[derive(Clone, Copy, PartialEq, Eq, Structural, Debug)]
pub struct Vault {
    pub owner: Pubkey,
    pub round_up_amount: u64,
    pub strategy: Strategy,
    pub total_deposited: u64,
    pub total_withdrawn: u64,
    pub deposit_count: u64,
    pub created_at: i64,
    pub last_deposit_at: i64,
    pub is_active: bool,
    pub custodial_balance: u64,
}

/// The notification payload of an accepted deposit, for external observers.
#[derive(Clone, Copy, PartialEq, Eq, Structural, Debug)]
pub struct DepositEvent {
    pub owner: Pubkey,
    pub amount: u64,
    pub total_deposited: u64,
    pub deposit_count: u64,
    pub timestamp: i64,
}

/// The notification payload of an accepted withdrawal.
#[derive(Clone, Copy, PartialEq, Eq, Structural, Debug)]
pub struct WithdrawEvent {
    pub owner: Pubkey,
    pub amount: u64,
    pub total_withdrawn: u64,
    pub timestamp: i64,
}

/// The record a successful initialization creates: counters zeroed, the
/// creation time recorded, the vault active, and no custodial funds yet.
pub open spec fn fresh_vault(owner: Pubkey, round_up_amount: u64, strategy: Strategy, now: i64) -> Vault {
    Vault {
        owner,
        round_up_amount,
        strategy,
        total_deposited: 0,
        total_withdrawn: 0,
        deposit_count: 0,
        created_at: now,
        last_deposit_at: 0,
        is_active: true,
        custodial_balance: 0,
    }
}

/// The deposit transition on a single record.
///
/// `caller` is the cryptographically verified identity that signed the
/// request; only the record's owner may deposit. `spendable` is the owner's
/// spendable balance read fresh at call time; the external transfer
/// mechanism moves value from it into the custodial balance and fails
/// deterministically when it does not suffice, or when the custodial side
/// cannot receive the amount. Counter updates come after the transfer and
/// abort the whole operation on overflow. Every error leaves the record
/// exactly as it was.
pub open spec fn vault_deposit(
    v: Vault,
    caller: Pubkey,
    amount: u64,
    spendable: u64,
    now: i64,
) -> (Vault, Result<DepositEvent, ChaingeError>) {
    if amount == 0 {
        (v, Err(ChaingeError::ZeroAmount))
    } else if caller != v.owner {
        (v, Err(ChaingeError::Unauthorized))
    } else if !v.is_active {
        (v, Err(ChaingeError::VaultInactive))
    } else if spendable < amount || v.custodial_balance + amount > u64::MAX {
        (v, Err(ChaingeError::TransferFailed))
    } else if v.total_deposited + amount > u64::MAX || v.deposit_count + 1 > u64::MAX {
        (v, Err(ChaingeError::ArithmeticOverflow))
    } else {
        let v2 = Vault {
            total_deposited: (v.total_deposited + amount) as u64,
            deposit_count: (v.deposit_count + 1) as u64,
            last_deposit_at: now,
            custodial_balance: (v.custodial_balance + amount) as u64,
            ..v
        };
        (
            v2,
            Ok(
                DepositEvent {
                    owner: v.owner,
                    amount,
                    total_deposited: v2.total_deposited,
                    deposit_count: v2.deposit_count,
                    timestamp: now,
                },
            ),
        )
    }
}

/// The withdrawal transition on a single record.
///
/// Only the record's owner may withdraw, but deliberately not gated by
/// `is_active`: an owner may always take their own funds back out of a
/// deactivated vault. The custodial balance is the only funding check; it
/// may have been fed from outside the deposit path, so `total_withdrawn` is
/// not bounded by `total_deposited`.
pub open spec fn vault_withdraw(v: Vault, caller: Pubkey, amount: u64, now: i64) -> (Vault, Result<
    WithdrawEvent,
    ChaingeError,
>) {
    if amount == 0 {
        (v, Err(ChaingeError::ZeroAmount))
    } else if caller != v.owner {
        (v, Err(ChaingeError::Unauthorized))
    } else if v.custodial_balance < amount {
        (v, Err(ChaingeError::InsufficientFunds))
    } else if v.total_withdrawn + amount > u64::MAX {
        (v, Err(ChaingeError::ArithmeticOverflow))
    } else {
        let v2 = Vault {
            custodial_balance: (v.custodial_balance - amount) as u64,
            total_withdrawn: (v.total_withdrawn + amount) as u64,
            ..v
        };
        (
            v2,
            Ok(
                WithdrawEvent {
                    owner: v.owner,
                    amount,
                    total_withdrawn: v2.total_withdrawn,
                    timestamp: now,
                },
            ),
        )
    }
}

/// The settings transition: each present field overwrites the record's
/// field, each absent field leaves it untouched. No counters, no transfer,
/// and beyond authorization no way to fail.
pub open spec fn vault_update_settings(
    v: Vault,
    caller: Pubkey,
    round_up_amount: Option<u64>,
    strategy: Option<Strategy>,
    is_active: Option<bool>,
) -> (Vault, Result<(), ChaingeError>) {
    if caller != v.owner {
        (v, Err(ChaingeError::Unauthorized))
    } else {
        (
            Vault {
                round_up_amount: match round_up_amount {
                    Some(a) => a,
                    None => v.round_up_amount,
                },
                strategy: match strategy {
                    Some(s) => s,
                    None => v.strategy,
                },
                is_active: match is_active {
                    Some(b) => b,
                    None => v.is_active,
                },
                ..v
            },
            Ok(()),
        )
    }
}

/// An inflow into the custodial balance that bypasses the deposit path:
/// anyone can transfer value straight to the custodial address. Counters
/// are untouched; the transfer fails if the balance cannot receive the
/// amount.
pub open spec fn vault_fund_custodial(v: Vault, amount: u64) -> (Vault, Result<
    (),
    ChaingeError,
>) {
    if v.custodial_balance + amount > u64::MAX {
        (v, Err(ChaingeError::TransferFailed))
    } else {
        (Vault { custodial_balance: (v.custodial_balance + amount) as u64, ..v }, Ok(()))
    }
}

impl Vault {
    /// Build the record of a freshly created vault.
    pub fn initialize(owner: Pubkey, round_up_amount: u64, strategy: Strategy, now: i64) -> (v:
        Vault)
        ensures
            v == fresh_vault(owner, round_up_amount, strategy, now),
    {
        Vault {
            owner,
            round_up_amount,
            strategy,
            total_deposited: 0,
            total_withdrawn: 0,
            deposit_count: 0,
            created_at: now,
            last_deposit_at: 0,
            is_active: true,
            custodial_balance: 0,
        }
    }

    /// Apply the deposit transition to this record. `caller` must be the
    /// verified signer of the request.
    pub fn deposit(&mut self, caller: Pubkey, amount: u64, spendable: u64, now: i64) -> (r: Result<
        DepositEvent,
        ChaingeError,
    >)
        ensures
            (*final(self), r) == vault_deposit(*old(self), caller, amount, spendable, now),
    {
        if amount == 0 {
            return Err(ChaingeError::ZeroAmount);
        }
        if caller != self.owner {
            return Err(ChaingeError::Unauthorized);
        }
        if !self.is_active {
            return Err(ChaingeError::VaultInactive);
        }
        if spendable < amount {
            return Err(ChaingeError::TransferFailed);
        }
        let custodial = match self.custodial_balance.checked_add(amount) {
            Some(c) => c,
            None => {
                return Err(ChaingeError::TransferFailed);
            },
        };
        let total = match self.total_deposited.checked_add(amount) {
            Some(t) => t,
            None => {
                return Err(ChaingeError::ArithmeticOverflow);
            },
        };
        let count = match self.deposit_count.checked_add(1) {
            Some(c) => c,
            None => {
                return Err(ChaingeError::ArithmeticOverflow);
            },
        };
        self.total_deposited = total;
        self.deposit_count = count;
        self.last_deposit_at = now;
        self.custodial_balance = custodial;
        Ok(
            DepositEvent {
                owner: self.owner,
                amount,
                total_deposited: total,
                deposit_count: count,
                timestamp: now,
            },
        )
    }

    /// Apply the withdrawal transition to this record. `caller` must be the
    /// verified signer of the request.
    pub fn withdraw(&mut self, caller: Pubkey, amount: u64, now: i64) -> (r: Result<
        WithdrawEvent,
        ChaingeError,
    >)
        ensures
            (*final(self), r) == vault_withdraw(*old(self), caller, amount, now),
    {
        if amount == 0 {
            return Err(ChaingeError::ZeroAmount);
        }
        if caller != self.owner {
            return Err(ChaingeError::Unauthorized);
        }
        if self.custodial_balance < amount {
            return Err(ChaingeError::InsufficientFunds);
        }
        let total = match self.total_withdrawn.checked_add(amount) {
            Some(t) => t,
            None => {
                return Err(ChaingeError::ArithmeticOverflow);
            },
        };
        self.custodial_balance = self.custodial_balance - amount;
        self.total_withdrawn = total;
        Ok(
            WithdrawEvent {
                owner: self.owner,
                amount,
                total_withdrawn: total,
                timestamp: now,
            },
        )
    }

    /// Apply the settings transition to this record. `caller` must be the
    /// verified signer of the request.
    pub fn update_settings(
        &mut self,
        caller: Pubkey,
        round_up_amount: Option<u64>,
        strategy: Option<Strategy>,
        is_active: Option<bool>,
    ) -> (r: Result<(), ChaingeError>)
        ensures
            (*final(self), r) == vault_update_settings(
                *old(self),
                caller,
                round_up_amount,
                strategy,
                is_active,
            ),
    {
        if caller != self.owner {
            return Err(ChaingeError::Unauthorized);
        }
        if let Some(a) = round_up_amount {
            self.round_up_amount = a;
        }
        if let Some(s) = strategy {
            self.strategy = s;
        }
        if let Some(b) = is_active {
            self.is_active = b;
        }
        Ok(())
    }

    /// Apply an external custodial inflow to this record.
    pub fn fund_custodial(&mut self, amount: u64) -> (r: Result<(), ChaingeError>)
        ensures
            (*final(self), r) == vault_fund_custodial(*old(self), amount),
    {
        let custodial = match self.custodial_balance.checked_add(amount) {
            Some(c) => c,
            None => {
                return Err(ChaingeError::TransferFailed);
            },
        };
        self.custodial_balance = custodial;
        Ok(())
    }
}

} // verus!
