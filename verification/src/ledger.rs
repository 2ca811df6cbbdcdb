//! The vault ledger: one record per owner, located by the owner's key.
//!
//! The ledger plays the role of the process-wide derived-address index: a
//! record and its custodial balance live at a slot that is a deterministic
//! function of the owner identity, so looking a vault up by owner and
//! checking the caller against the record's owner together gate every
//! operation. The ledger's view is the map from owner key to record, and
//! each operation's `ensures` pins the new view and the returned value to a
//! specification-level transition function on that map.

use vstd::prelude::*;

use crate::vault::{
    fresh_vault, vault_deposit, vault_fund_custodial, vault_update_settings, vault_withdraw,
    ChaingeError, DepositEvent, Pubkey, Strategy, Vault, WithdrawEvent,
};

verus! {

/// The request to create a vault. `owner` is the transaction's
/// cryptographically verified signer; the new record is bound to it.
#[derive(Clone, Copy, PartialEq, Eq, Structural, Debug)]
pub struct InitializeVault {
    pub owner: Pubkey,
    pub round_up_amount: u64,
    pub strategy: Strategy,
}

/// The request to deposit into the vault bound to `owner`. `caller` is the
/// verified identity that signed the request.
#[derive(Clone, Copy, PartialEq, Eq, Structural, Debug)]
pub struct Deposit {
    pub owner: Pubkey,
    pub caller: Pubkey,
    pub amount: u64,
}

/// The request to withdraw from the vault bound to `owner`. `caller` is the
/// verified identity that signed the request.
#[derive(Clone, Copy, PartialEq, Eq, Structural, Debug)]
pub struct Withdraw {
    pub owner: Pubkey,
    pub caller: Pubkey,
    pub amount: u64,
}

/// The partial settings update for the vault bound to `owner`: each field
/// is independently present or absent, and an absent field leaves the
/// record's field untouched.
#[derive(Clone, Copy, PartialEq, Eq, Debug)]
pub struct UpdateSettings {
    pub owner: Pubkey,
    pub caller: Pubkey,
    pub round_up_amount: Option<u64>,
    pub strategy: Option<Strategy>,
    pub is_active: Option<bool>,
}

/// No two records in the sequence are bound to the same owner.
pub open spec fn owners_unique(s: Seq<Vault>) -> bool {
    forall|i: int, j: int| 0 <= i < j < s.len() ==> s[i].owner != s[j].owner
}

/// The map from owner key to record that a sequence of records represents.
pub open spec fn vaults_map(s: Seq<Vault>) -> Map<Pubkey, Vault>
    decreases s.len(),
{
    if s.len() == 0 {
        Map::empty()
    } else {
        vaults_map(s.drop_last()).insert(s.last().owner, s.last())
    }
}

/// Every record the map holds is bound to its own owner key. Every map a
/// ledger can present has this shape, so a caller other than the key a
/// request names can never pass the per-record owner check.
pub open spec fn owner_keyed(m: Map<Pubkey, Vault>) -> bool {
    forall|o: Pubkey| #[trigger] m.dom().contains(o) ==> m[o].owner == o
}

/// The initialize transition on the whole ledger: creation is exactly-once
/// per owner, and a second attempt leaves the map untouched.
pub open spec fn ledger_initialize(m: Map<Pubkey, Vault>, req: InitializeVault, now: i64) -> (Map<
    Pubkey,
    Vault,
>, Result<(), ChaingeError>) {
    if m.dom().contains(req.owner) {
        (m, Err(ChaingeError::AlreadyInitialized))
    } else {
        (m.insert(req.owner, fresh_vault(req.owner, req.round_up_amount, req.strategy, now)), Ok(()))
    }
}

/// The deposit transition on the whole ledger: the zero-amount check comes
/// first, then the record must exist, then the per-record transition — which
/// itself refuses a caller other than the record's owner.
pub open spec fn ledger_deposit(
    m: Map<Pubkey, Vault>,
    req: Deposit,
    spendable: u64,
    now: i64,
) -> (Map<Pubkey, Vault>, Result<DepositEvent, ChaingeError>) {
    if req.amount == 0 {
        (m, Err(ChaingeError::ZeroAmount))
    } else if !m.dom().contains(req.owner) {
        (m, Err(ChaingeError::Unauthorized))
    } else {
        let step = vault_deposit(m[req.owner], req.caller, req.amount, spendable, now);
        match step.1 {
            Ok(ev) => (m.insert(req.owner, step.0), Ok(ev)),
            Err(e) => (m, Err(e)),
        }
    }
}

/// The withdraw transition on the whole ledger. Like deposit, but never
/// gated by `is_active`.
pub open spec fn ledger_withdraw(m: Map<Pubkey, Vault>, req: Withdraw, now: i64) -> (Map<
    Pubkey,
    Vault,
>, Result<WithdrawEvent, ChaingeError>) {
    if req.amount == 0 {
        (m, Err(ChaingeError::ZeroAmount))
    } else if !m.dom().contains(req.owner) {
        (m, Err(ChaingeError::Unauthorized))
    } else {
        let step = vault_withdraw(m[req.owner], req.caller, req.amount, now);
        match step.1 {
            Ok(ev) => (m.insert(req.owner, step.0), Ok(ev)),
            Err(e) => (m, Err(e)),
        }
    }
}

/// The settings transition on the whole ledger: beyond authorization it
/// never fails.
pub open spec fn ledger_update_settings(m: Map<Pubkey, Vault>, req: UpdateSettings) -> (Map<
    Pubkey,
    Vault,
>, Result<(), ChaingeError>) {
    if !m.dom().contains(req.owner) {
        (m, Err(ChaingeError::Unauthorized))
    } else {
        let step = vault_update_settings(
            m[req.owner],
            req.caller,
            req.round_up_amount,
            req.strategy,
            req.is_active,
        );
        match step.1 {
            Ok(u) => (m.insert(req.owner, step.0), Ok(u)),
            Err(e) => (m, Err(e)),
        }
    }
}

/// The external-funding transition: value arrives at the custodial address
/// of `owner` without going through the deposit path, so no authorization
/// and no counters — but the target record must exist for the custodial
/// slot to exist at all.
pub open spec fn ledger_fund_custodial(m: Map<Pubkey, Vault>, owner: Pubkey, amount: u64) -> (Map<
    Pubkey,
    Vault,
>, Result<(), ChaingeError>) {
    if !m.dom().contains(owner) {
        (m, Err(ChaingeError::TransferFailed))
    } else {
        let step = vault_fund_custodial(m[owner], amount);
        match step.1 {
            Ok(u) => (m.insert(owner, step.0), Ok(u)),
            Err(e) => (m, Err(e)),
        }
    }
}

/// A record found at an index is the one the map binds to its owner.
proof fn lemma_map_found(s: Seq<Vault>, i: int)
    requires
        owners_unique(s),
        0 <= i < s.len(),
    ensures
        vaults_map(s).dom().contains(s[i].owner),
        vaults_map(s)[s[i].owner] == s[i],
    decreases s.len(),
{
    if i < s.len() - 1 {
        assert(s[i].owner != s.last().owner);
        lemma_map_found(s.drop_last(), i);
    }
}

/// An owner no record is bound to is not in the map.
proof fn lemma_map_absent(s: Seq<Vault>, o: Pubkey)
    requires
        forall|i: int| 0 <= i < s.len() ==> s[i].owner != o,
    ensures
        !vaults_map(s).dom().contains(o),
    decreases s.len(),
{
    if s.len() > 0 {
        lemma_map_absent(s.drop_last(), o);
    }
}

/// Appending a record with a fresh owner inserts it into the map and keeps
/// the owners unique.
proof fn lemma_map_push(s: Seq<Vault>, v: Vault)
    requires
        owners_unique(s),
        forall|i: int| 0 <= i < s.len() ==> s[i].owner != v.owner,
    ensures
        owners_unique(s.push(v)),
        vaults_map(s.push(v)) == vaults_map(s).insert(v.owner, v),
{
    assert(s.push(v).drop_last() =~= s);
    assert(s.push(v).last() == v);
}

/// Replacing the record at an index by one with the same owner updates the
/// map at that owner and keeps the owners unique.
proof fn lemma_map_update(s: Seq<Vault>, i: int, v: Vault)
    requires
        owners_unique(s),
        0 <= i < s.len(),
        v.owner == s[i].owner,
    ensures
        owners_unique(s.update(i, v)),
        vaults_map(s.update(i, v)) == vaults_map(s).insert(v.owner, v),
    decreases s.len(),
{
    let s2 = s.update(i, v);
    if i == s.len() - 1 {
        assert(s2.drop_last() =~= s.drop_last());
        assert(s2.last() == v);
        assert(vaults_map(s2) == vaults_map(s.drop_last()).insert(v.owner, v));
        assert(vaults_map(s.drop_last()).insert(v.owner, v) =~= vaults_map(s).insert(v.owner, v));
    } else {
        assert(s2.drop_last() =~= s.drop_last().update(i, v));
        assert(s2.last() == s.last());
        lemma_map_update(s.drop_last(), i, v);
        assert(vaults_map(s2) == vaults_map(s.drop_last()).insert(v.owner, v).insert(
            s.last().owner,
            s.last(),
        ));
        assert(s.last().owner != v.owner);
        assert(vaults_map(s.drop_last()).insert(v.owner, v).insert(s.last().owner, s.last())
            =~= vaults_map(s).insert(v.owner, v));
        assert(forall|a: int, b: int| 0 <= a < b < s2.len() ==> s2[a].owner != s2[b].owner);
    }
}

/// Every record in the map is bound to its own owner key.
proof fn lemma_map_keyed_by_owner(s: Seq<Vault>, o: Pubkey)
    requires
        vaults_map(s).dom().contains(o),
    ensures
        vaults_map(s)[o].owner == o,
    decreases s.len(),
{
    if s.len() > 0 && o != s.last().owner {
        lemma_map_keyed_by_owner(s.drop_last(), o);
    }
}

/// The vault ledger: the durable store of every owner's record.
#[derive(Clone, Debug)]
pub struct Ledger {
    vaults: Vec<Vault>,
}

impl View for Ledger {
    type V = Map<Pubkey, Vault>;

    closed spec fn view(&self) -> Map<Pubkey, Vault> {
        vaults_map(self.vaults@)
    }
}

impl Ledger {
    /// The ledger's internal invariant: no owner has two records.
    pub closed spec fn wf(self) -> bool {
        owners_unique(self.vaults@)
    }

    /// An empty ledger: no owner has a vault yet.
    pub fn new() -> (r: Ledger)
        ensures
            r.wf(),
            r@ == Map::<Pubkey, Vault>::empty(),
    {
        Ledger { vaults: Vec::new() }
    }

    /// Where the record bound to `owner` sits, if anywhere.
    fn find_index(&self, owner: Pubkey) -> (r: Option<usize>)
        ensures
            match r {
                Some(i) => (i as int) < self.vaults@.len() && self.vaults@[i as int].owner == owner,
                None => forall|j: int| 0 <= j < self.vaults@.len() ==> self.vaults@[j].owner != owner,
            },
    {
        let mut i: usize = 0;
        while i < self.vaults.len()
            invariant
                i <= self.vaults@.len(),
                forall|j: int| 0 <= j < i ==> self.vaults@[j].owner != owner,
            decreases self.vaults@.len() - i,
        {
            if self.vaults[i].owner == owner {
                return Some(i);
            }
            i = i + 1;
        }
        None
    }

    /// Create the vault of `req.owner`, exactly once per owner.
    pub fn initialize_vault(&mut self, req: InitializeVault, now: i64) -> (r: Result<
        (),
        ChaingeError,
    >)
        requires
            old(self).wf(),
        ensures
            final(self).wf(),
            final(self)@ == ledger_initialize(old(self)@, req, now).0,
            r == ledger_initialize(old(self)@, req, now).1,
    {
        match self.find_index(req.owner) {
            Some(i) => {
                proof {
                    lemma_map_found(self.vaults@, i as int);
                }
                Err(ChaingeError::AlreadyInitialized)
            },
            None => {
                proof {
                    lemma_map_absent(self.vaults@, req.owner);
                }
                let v = Vault::initialize(req.owner, req.round_up_amount, req.strategy, now);
                proof {
                    lemma_map_push(self.vaults@, v);
                }
                self.vaults.push(v);
                Ok(())
            },
        }
    }

    /// Deposit `req.amount` into the vault of `req.owner`, drawing on the
    /// owner's spendable balance (`spendable`, read fresh at call time).
    pub fn deposit(&mut self, req: Deposit, spendable: u64, now: i64) -> (r: Result<
        DepositEvent,
        ChaingeError,
    >)
        requires
            old(self).wf(),
        ensures
            final(self).wf(),
            final(self)@ == ledger_deposit(old(self)@, req, spendable, now).0,
            r == ledger_deposit(old(self)@, req, spendable, now).1,
    {
        if req.amount == 0 {
            return Err(ChaingeError::ZeroAmount);
        }
        let i = match self.find_index(req.owner) {
            Some(i) => i,
            None => {
                proof {
                    lemma_map_absent(self.vaults@, req.owner);
                }
                return Err(ChaingeError::Unauthorized);
            },
        };
        proof {
            lemma_map_found(self.vaults@, i as int);
        }
        let mut v = self.vaults[i];
        let r = v.deposit(req.caller, req.amount, spendable, now);
        match r {
            Ok(ev) => {
                proof {
                    lemma_map_update(self.vaults@, i as int, v);
                }
                self.vaults[i] = v;
                Ok(ev)
            },
            Err(e) => Err(e),
        }
    }

    /// Withdraw `req.amount` from the custodial balance of `req.owner`'s
    /// vault. Never gated by `is_active`.
    pub fn withdraw(&mut self, req: Withdraw, now: i64) -> (r: Result<WithdrawEvent, ChaingeError>)
        requires
            old(self).wf(),
        ensures
            final(self).wf(),
            final(self)@ == ledger_withdraw(old(self)@, req, now).0,
            r == ledger_withdraw(old(self)@, req, now).1,
    {
        if req.amount == 0 {
            return Err(ChaingeError::ZeroAmount);
        }
        let i = match self.find_index(req.owner) {
            Some(i) => i,
            None => {
                proof {
                    lemma_map_absent(self.vaults@, req.owner);
                }
                return Err(ChaingeError::Unauthorized);
            },
        };
        proof {
            lemma_map_found(self.vaults@, i as int);
        }
        let mut v = self.vaults[i];
        let r = v.withdraw(req.caller, req.amount, now);
        match r {
            Ok(ev) => {
                proof {
                    lemma_map_update(self.vaults@, i as int, v);
                }
                self.vaults[i] = v;
                Ok(ev)
            },
            Err(e) => Err(e),
        }
    }

    /// Overwrite each present settings field of `req.owner`'s vault.
    pub fn update_settings(&mut self, req: UpdateSettings) -> (r: Result<(), ChaingeError>)
        requires
            old(self).wf(),
        ensures
            final(self).wf(),
            final(self)@ == ledger_update_settings(old(self)@, req).0,
            r == ledger_update_settings(old(self)@, req).1,
    {
        let i = match self.find_index(req.owner) {
            Some(i) => i,
            None => {
                proof {
                    lemma_map_absent(self.vaults@, req.owner);
                }
                return Err(ChaingeError::Unauthorized);
            },
        };
        proof {
            lemma_map_found(self.vaults@, i as int);
        }
        let mut v = self.vaults[i];
        let r = v.update_settings(req.caller, req.round_up_amount, req.strategy, req.is_active);
        match r {
            Ok(u) => {
                proof {
                    lemma_map_update(self.vaults@, i as int, v);
                }
                self.vaults[i] = v;
                Ok(u)
            },
            Err(e) => Err(e),
        }
    }

    /// Credit `amount` straight to the custodial balance of `owner`'s
    /// vault, bypassing the deposit path.
    pub fn fund_custodial(&mut self, owner: Pubkey, amount: u64) -> (r: Result<(), ChaingeError>)
        requires
            old(self).wf(),
        ensures
            final(self).wf(),
            final(self)@ == ledger_fund_custodial(old(self)@, owner, amount).0,
            r == ledger_fund_custodial(old(self)@, owner, amount).1,
    {
        let i = match self.find_index(owner) {
            Some(i) => i,
            None => {
                proof {
                    lemma_map_absent(self.vaults@, owner);
                }
                return Err(ChaingeError::TransferFailed);
            },
        };
        proof {
            lemma_map_found(self.vaults@, i as int);
        }
        let mut v = self.vaults[i];
        let r = v.fund_custodial(amount);
        match r {
            Ok(u) => {
                proof {
                    lemma_map_update(self.vaults@, i as int, v);
                }
                self.vaults[i] = v;
                Ok(u)
            },
            Err(e) => Err(e),
        }
    }

    /// Read the record bound to `owner`, if one exists.
    pub fn get_vault(&self, owner: Pubkey) -> (r: Option<Vault>)
        requires
            self.wf(),
        ensures
            r == if self@.dom().contains(owner) {
                Some(self@[owner])
            } else {
                None::<Vault>
            },
    {
        match self.find_index(owner) {
            Some(i) => {
                proof {
                    lemma_map_found(self.vaults@, i as int);
                }
                Some(self.vaults[i])
            },
            None => {
                proof {
                    lemma_map_absent(self.vaults@, owner);
                }
                None
            },
        }
    }

    /// Every record the ledger holds is keyed by its own owner field — the
    /// owner field is set once at creation and never touched again by any
    /// transition, so the map a ledger presents is always owner-keyed.
    pub proof fn lemma_view_owner_keyed(self)
        ensures
            owner_keyed(self@),
    {
        assert forall|o: Pubkey| #[trigger] self@.dom().contains(o) implies self@[o].owner == o by {
            lemma_map_keyed_by_owner(self.vaults@, o);
        }
    }
}

} // verus!
