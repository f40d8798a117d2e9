//! A model of the transaction host that surrounds the core.
//!
//! The host resolves a record by its derived address, validates accounts
//! and signatures, runs one entry point as a single unit of work, and
//! commits the effect or rolls the record back in its entirety: after a
//! failed unit of work the ledger is exactly as it was before. The
//! `Ledger` holds every record keyed by its storage address, each address
//! holding at most one record.

use vstd::prelude::*;

use crate::account::{
    decrement, increment, initialize, spec_decremented, spec_incremented, spec_initialized,
    BaseAccount, Decrement, ErrorCode, Increment, Initialize,
};
use crate::address::{base_account_seeds, derive_base_account_address, derive_result};
use crate::identity::Pubkey;

verus! {

/// Failures detected by the host's account-validation layer, outside the
/// core's own logic.
#[derive(Clone, Copy, Debug, PartialEq, Eq, Structural)]
pub enum HostError {
    /// Storage already exists at the derived address.
    AccountAlreadyInUse,
    /// The payer cannot cover the storage's minimum retained balance.
    InsufficientFunds,
    /// No record exists at the given address.
    AccountNotFound,
    /// The policy demands the record authority's signature and the caller
    /// is someone else.
    MissingRequiredSignature,
    /// No bump value yields a valid derived address for these seeds.
    NoViableAddress,
}

/// The failure of one unit of work: raised by the host's validation
/// layer, or the core's one domain error, surfaced unchanged.
#[derive(Clone, Copy, Debug, PartialEq, Eq, Structural)]
pub enum TxError {
    Host(HostError),
    Program(ErrorCode),
}

/// Whether the mutating entry points demand the record authority's
/// signature. The current design is `Open`: any caller that can name a
/// record may bump it. The check is kept configurable pending a product
/// decision.
#[derive(Clone, Copy, Debug, PartialEq, Eq, Structural)]
pub enum AuthorityPolicy {
    /// Any caller may increment or decrement the record.
    Open,
    /// Only the record's authority may increment or decrement it.
    AuthorityOnly,
}

/// The index of the first record stored under `key`, if any.
pub open spec fn spec_find_idx(s: Seq<(Pubkey, BaseAccount)>, key: Seq<u8>) -> Option<int>
    decreases s.len(),
{
    if s.len() == 0 {
        None
    } else if s[0].0@ == key {
        Some(0int)
    } else {
        match spec_find_idx(s.drop_first(), key) {
            Some(i) => Some(i + 1),
            None => None,
        }
    }
}

/// The record stored under `key`, if any.
pub open spec fn spec_find(s: Seq<(Pubkey, BaseAccount)>, key: Seq<u8>) -> Option<BaseAccount> {
    match spec_find_idx(s, key) {
        Some(i) => Some(s[i].1),
        None => None,
    }
}

/// What `spec_find_idx` returns is a real index, its entry matches the
/// key, and when it returns nothing, no entry does.
pub proof fn lemma_find_idx_is_match(s: Seq<(Pubkey, BaseAccount)>, key: Seq<u8>)
    ensures
        (match spec_find_idx(s, key) {
            Some(i) => 0 <= i < s.len() && s[i].0@ == key,
            None => forall|j: int| 0 <= j < s.len() ==> s[j].0@ != key,
        }),
    decreases s.len(),
{
    if s.len() > 0 && s[0].0@ != key {
        lemma_find_idx_is_match(s.drop_first(), key);
        assert forall|j: int| 0 <= j < s.len() && spec_find_idx(s, key) is None implies s[j].0@
            != key by {
            if j > 0 {
                assert(s.drop_first()[j - 1] == s[j]);
            }
        }
    }
}

/// A scan that rejected every entry before `i` agrees with
/// `spec_find_idx`: a match at `i` is the found index, and reaching the
/// end means no entry matches.
pub proof fn lemma_find_idx_first_match(s: Seq<(Pubkey, BaseAccount)>, key: Seq<u8>, i: int)
    requires
        0 <= i <= s.len(),
        forall|j: int| 0 <= j < i ==> s[j].0@ != key,
    ensures
        i < s.len() && s[i].0@ == key ==> spec_find_idx(s, key) == Some(i),
        i == s.len() ==> spec_find_idx(s, key) is None,
    decreases s.len(),
{
    if s.len() > 0 && s[0].0@ != key && i > 0 {
        assert forall|j: int| 0 <= j < i - 1 implies s.drop_first()[j].0@ != key by {
            assert(s.drop_first()[j] == s[j + 1]);
        }
        lemma_find_idx_first_match(s.drop_first(), key, i - 1);
        if i < s.len() {
            assert(s.drop_first()[i - 1] == s[i]);
        }
    }
}

/// Updating the record at an existing index, keeping its key, moves no
/// other record and keeps every lookup's index.
pub proof fn lemma_find_idx_update(
    s: Seq<(Pubkey, BaseAccount)>,
    i: int,
    a: BaseAccount,
    key: Seq<u8>,
)
    requires
        0 <= i < s.len(),
    ensures
        spec_find_idx(s.update(i, (s[i].0, a)), key) == spec_find_idx(s, key),
    decreases s.len(),
{
    let t = s.update(i, (s[i].0, a));
    if s.len() > 0 {
        if i == 0 {
            if s[0].0@ != key {
                assert(t.drop_first() =~= s.drop_first());
            }
        } else {
            if s[0].0@ != key {
                assert(t.drop_first() =~= s.drop_first().update(i - 1, (s[i].0, a)));
                assert(s.drop_first()[i - 1] == s[i]);
                lemma_find_idx_update(s.drop_first(), i - 1, a, key);
            }
        }
    }
}

/// Law: initialization is deterministic and unrepeatable. Storing the
/// freshly initialized record at a free address yields exactly
/// `{count: 0, authority: user}` there and touches no other address; the
/// address is then occupied, so by `run_initialize`'s contract a second
/// attempt at it fails with `AccountAlreadyInUse` and changes nothing.
pub proof fn lemma_initialize_deterministic(
    s: Seq<(Pubkey, BaseAccount)>,
    addr: Pubkey,
    user: Pubkey,
)
    requires
        spec_find(s, addr@) is None,
    ensures
        spec_find(s.push((addr, spec_initialized(user))), addr@) == Some(spec_initialized(user)),
        spec_initialized(user).count == 0,
        spec_initialized(user).authority == user,
        forall|k: Seq<u8>|
            k != addr@ ==> spec_find_idx(s.push((addr, spec_initialized(user))), k)
                == spec_find_idx(s, k),
{
    lemma_find_idx_is_match(s, addr@);
    lemma_find_idx_first_match(s.push((addr, spec_initialized(user))), addr@, s.len() as int);
    assert forall|k: Seq<u8>|
        k != addr@ implies spec_find_idx(s.push((addr, spec_initialized(user))), k)
        == spec_find_idx(s, k) by {
        lemma_find_idx_push(s, (addr, spec_initialized(user)), k);
    }
}

/// Appending a record leaves every earlier lookup as it was; a key found
/// nowhere before is found at the new end only if the new record carries it.
pub proof fn lemma_find_idx_push(
    s: Seq<(Pubkey, BaseAccount)>,
    p: (Pubkey, BaseAccount),
    key: Seq<u8>,
)
    ensures
        spec_find_idx(s, key) is Some ==> spec_find_idx(s.push(p), key) == spec_find_idx(s, key),
        spec_find_idx(s, key) is None && p.0@ == key ==> spec_find_idx(s.push(p), key) == Some(
            s.len() as int,
        ),
        spec_find_idx(s, key) is None && p.0@ != key ==> spec_find_idx(s.push(p), key) is None,
    decreases s.len(),
{
    if s.len() == 0 {
        assert(s.push(p)[0] == p);
        assert(s.push(p).drop_first() =~= s);
    } else {
        assert(s.push(p)[0] == s[0]);
        if s[0].0@ != key {
            assert(s.push(p).drop_first() =~= s.drop_first().push(p));
            lemma_find_idx_push(s.drop_first(), p, key);
        }
    }
}

/// The host-managed store of counter records, keyed by storage address.
/// No operation ever removes a record.
pub struct Ledger {
    pub accounts: Vec<(Pubkey, BaseAccount)>,
}

impl Ledger {
    /// Each storage address holds at most one record.
    pub open spec fn wf(self) -> bool {
        forall|i: int, j: int|
            0 <= i < j < self.accounts@.len() ==> self.accounts@[i].0@ != self.accounts@[j].0@
    }

    /// An empty ledger: no record at any address.
    pub fn new() -> (r: Ledger)
        ensures
            r.wf(),
            r.accounts@.len() == 0,
    {
        Ledger { accounts: Vec::new() }
    }

    /// The record stored at `addr`, if any, as a copy for inspection.
    pub fn get(&self, addr: &Pubkey) -> (r: Option<BaseAccount>)
        ensures
            r == spec_find(self.accounts@, addr@),
    {
        match self.find_index(addr) {
            Some(i) => Some(self.accounts[i].1),
            None => None,
        }
    }

    fn find_index(&self, key: &Pubkey) -> (r: Option<usize>)
        ensures
            (match r {
                Some(i) => i < self.accounts@.len() && spec_find_idx(self.accounts@, key@) == Some(
                    i as int,
                ),
                None => spec_find_idx(self.accounts@, key@) is None,
            }),
    {
        let n = self.accounts.len();
        let mut i: usize = 0;
        while i < n
            invariant
                n == self.accounts@.len(),
                i <= n,
                forall|j: int| 0 <= j < i ==> self.accounts@[j].0@ != key@,
            decreases n - i,
        {
            let pair = &self.accounts[i];
            if pair.0 == *key {
                proof {
                    lemma_find_idx_first_match(self.accounts@, key@, i as int);
                }
                return Some(i);
            }
            i = i + 1;
        }
        proof {
            lemma_find_idx_first_match(self.accounts@, key@, n as int);
        }
        None
    }

    /// One unit of work around the initializer: derive the record's
    /// address from `user`, validate that the address is free and that
    /// the payer's balance covers the storage's retained minimum `rent`,
    /// allocate, and run `initialize`. Any failure leaves the ledger
    /// exactly as it was.
    pub fn run_initialize(
        &mut self,
        user: &Pubkey,
        payer_balance: u64,
        rent: u64,
        program_id: &Pubkey,
    ) -> (r: Result<(Pubkey, u8), TxError>)
        requires
            old(self).wf(),
        ensures
            final(self).wf(),
            ({
                let d = derive_result(base_account_seeds(user@), program_id@);
                match r {
                    Ok(p) => {
                        &&& d == Some((p.0@, p.1))
                        &&& spec_find(old(self).accounts@, p.0@) is None
                        &&& payer_balance >= rent
                        &&& final(self).accounts@ == old(self).accounts@.push(
                            (p.0, spec_initialized(*user)),
                        )
                        &&& spec_find(final(self).accounts@, p.0@) == Some(spec_initialized(*user))
                    },
                    Err(e) => {
                        &&& final(self).accounts@ == old(self).accounts@
                        &&& match d {
                            None => e == TxError::Host(HostError::NoViableAddress),
                            Some(p) => {
                                if spec_find(old(self).accounts@, p.0) is Some {
                                    e == TxError::Host(HostError::AccountAlreadyInUse)
                                } else {
                                    e == TxError::Host(HostError::InsufficientFunds)
                                        && payer_balance < rent
                                }
                            },
                        }
                    },
                }
            }),
            r is Err ==> final(self).accounts@ == old(self).accounts@,
    {
        let derived = derive_base_account_address(user, program_id);
        match derived {
            None => Err(TxError::Host(HostError::NoViableAddress)),
            Some(p) => {
                let addr = p.0;
                let bump = p.1;
                match self.find_index(&addr) {
                    Some(_) => Err(TxError::Host(HostError::AccountAlreadyInUse)),
                    None => {
                        if payer_balance < rent {
                            Err(TxError::Host(HostError::InsufficientFunds))
                        } else {
                            // Freshly allocated storage; whatever it holds
                            // before the initializer runs is irrelevant to
                            // the contract.
                            let mut ctx = Initialize {
                                base_account: BaseAccount { count: 0, authority: *user },
                                user: *user,
                            };
                            let _ = initialize(&mut ctx);
                            proof {
                                lemma_find_idx_is_match(self.accounts@, addr@);
                                lemma_find_idx_first_match(
                                    self.accounts@.push((addr, ctx.base_account)),
                                    addr@,
                                    self.accounts@.len() as int,
                                );
                            }
                            self.accounts.push((addr, ctx.base_account));
                            Ok((addr, bump))
                        }
                    },
                }
            },
        }
    }

    /// One unit of work around the incrementer: resolve the record at
    /// `addr`, enforce the signature policy, and run `increment`. Any
    /// failure leaves the ledger exactly as it was.
    pub fn run_increment(&mut self, addr: &Pubkey, caller: &Pubkey, policy: AuthorityPolicy) -> (r:
        Result<(), TxError>)
        requires
            old(self).wf(),
            spec_find(old(self).accounts@, addr@) matches Some(a) ==> a.count < u64::MAX,
        ensures
            final(self).wf(),
            (match spec_find_idx(old(self).accounts@, addr@) {
                None => {
                    &&& r == Err::<(), TxError>(TxError::Host(HostError::AccountNotFound))
                    &&& final(self).accounts@ == old(self).accounts@
                },
                Some(i) => {
                    let a = old(self).accounts@[i].1;
                    if policy == AuthorityPolicy::AuthorityOnly && caller@ != a.authority@ {
                        &&& r == Err::<(), TxError>(
                            TxError::Host(HostError::MissingRequiredSignature),
                        )
                        &&& final(self).accounts@ == old(self).accounts@
                    } else {
                        &&& r is Ok
                        &&& final(self).accounts@ == old(self).accounts@.update(
                            i,
                            (old(self).accounts@[i].0, spec_incremented(a)),
                        )
                        &&& spec_find(final(self).accounts@, addr@) == Some(spec_incremented(a))
                    }
                },
            }),
            r is Err ==> final(self).accounts@ == old(self).accounts@,
    {
        match self.find_index(addr) {
            None => Err(TxError::Host(HostError::AccountNotFound)),
            Some(i) => {
                let pair = self.accounts[i];
                if matches!(policy, AuthorityPolicy::AuthorityOnly) && !(*caller
                    == pair.1.authority) {
                    Err(TxError::Host(HostError::MissingRequiredSignature))
                } else {
                    let mut ctx = Increment { base_account: pair.1 };
                    let _ = increment(&mut ctx);
                    proof {
                        lemma_find_idx_is_match(self.accounts@, addr@);
                        lemma_find_idx_update(
                            self.accounts@,
                            i as int,
                            ctx.base_account,
                            addr@,
                        );
                    }
                    self.accounts[i] = (pair.0, ctx.base_account);
                    Ok(())
                }
            },
        }
    }

    /// One unit of work around the decrementer: resolve the record at
    /// `addr`, enforce the signature policy, and run `decrement`. An
    /// underflow is surfaced unchanged as the program's error, and any
    /// failure leaves the ledger exactly as it was.
    pub fn run_decrement(&mut self, addr: &Pubkey, caller: &Pubkey, policy: AuthorityPolicy) -> (r:
        Result<(), TxError>)
        requires
            old(self).wf(),
        ensures
            final(self).wf(),
            (match spec_find_idx(old(self).accounts@, addr@) {
                None => {
                    &&& r == Err::<(), TxError>(TxError::Host(HostError::AccountNotFound))
                    &&& final(self).accounts@ == old(self).accounts@
                },
                Some(i) => {
                    let a = old(self).accounts@[i].1;
                    if policy == AuthorityPolicy::AuthorityOnly && caller@ != a.authority@ {
                        &&& r == Err::<(), TxError>(
                            TxError::Host(HostError::MissingRequiredSignature),
                        )
                        &&& final(self).accounts@ == old(self).accounts@
                    } else {
                        match spec_decremented(a) {
                            Ok(a2) => {
                                &&& r is Ok
                                &&& final(self).accounts@ == old(self).accounts@.update(
                                    i,
                                    (old(self).accounts@[i].0, a2),
                                )
                                &&& spec_find(final(self).accounts@, addr@) == Some(a2)
                            },
                            Err(e) => {
                                &&& r == Err::<(), TxError>(TxError::Program(e))
                                &&& final(self).accounts@ == old(self).accounts@
                            },
                        }
                    }
                },
            }),
            r is Err ==> final(self).accounts@ == old(self).accounts@,
    {
        match self.find_index(addr) {
            None => Err(TxError::Host(HostError::AccountNotFound)),
            Some(i) => {
                let pair = self.accounts[i];
                if matches!(policy, AuthorityPolicy::AuthorityOnly) && !(*caller
                    == pair.1.authority) {
                    Err(TxError::Host(HostError::MissingRequiredSignature))
                } else {
                    let mut ctx = Decrement { base_account: pair.1 };
                    match decrement(&mut ctx) {
                        Ok(_) => {
                            proof {
                                lemma_find_idx_is_match(self.accounts@, addr@);
                                lemma_find_idx_update(
                                    self.accounts@,
                                    i as int,
                                    ctx.base_account,
                                    addr@,
                                );
                            }
                            self.accounts[i] = (pair.0, ctx.base_account);
                            Ok(())
                        },
                        Err(e) => Err(TxError::Program(e)),
                    }
                }
            },
        }
    }
}

} // verus!
