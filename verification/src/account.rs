//! The counter record and the three entry points that operate on it.
//!
//! `initialize` seeds a freshly allocated record, `increment` advances the
//! count by one, and `decrement` retreats it by one, rejecting underflow.
//! Each entry point receives the record handles it needs from the host,
//! bundled in a context struct, and holds no state of its own between calls.

use vstd::prelude::*;

use crate::identity::Pubkey;

verus! {

/// The storage allocated for one record: an 8-byte type tag, the 8-byte
/// count, and the 32-byte authority.
pub const RECORD_SPACE: u64 = 8 + 8 + 32;

/// The sole persistent entity: an unsigned 64-bit count and the public
/// identity that created the record. The authority is set once, at
/// creation, and no exposed operation reassigns it.
#[derive(Clone, Copy, Debug)]
pub struct BaseAccount {
    pub count: u64,
    pub authority: Pubkey,
}

/// The one domain error this core raises: an attempt to decrement a
/// counter already at zero. Every other failure originates in the host's
/// account-validation layer.
#[derive(Clone, Copy, Debug, PartialEq, Eq, Structural)]
pub enum ErrorCode {
    Underflow,
}

impl ErrorCode {
    /// The stable numeric code for programmatic matching. Custom program
    /// errors are numbered from 6000 by the host convention, and
    /// `Underflow` is this program's first (and only) error.
    pub fn code(&self) -> (r: u32)
        ensures
            r == 6000u32,
    {
        6000
    }

    /// The fixed human-readable message carried by the error.
    pub fn message(&self) -> (r: &'static str)
        ensures
            r@ == "Underflow error"@,
    {
        "Underflow error"
    }
}

/// Handles for one initialization: the freshly allocated record and the
/// identity that both signs for and will own it.
pub struct Initialize {
    pub base_account: BaseAccount,
    pub user: Pubkey,
}

/// Handles for one increment: a writable counter record.
pub struct Increment {
    pub base_account: BaseAccount,
}

/// Handles for one decrement: a writable counter record.
pub struct Decrement {
    pub base_account: BaseAccount,
}

/// The record a fresh initialization by `user` yields.
pub open spec fn spec_initialized(user: Pubkey) -> BaseAccount {
    BaseAccount { count: 0, authority: user }
}

/// The record after one increment.
pub open spec fn spec_incremented(a: BaseAccount) -> BaseAccount {
    BaseAccount { count: (a.count + 1) as u64, authority: a.authority }
}

/// The outcome of one decrement: the count retreats by one, unless it is
/// already zero, in which case the operation fails and changes nothing.
pub open spec fn spec_decremented(a: BaseAccount) -> Result<BaseAccount, ErrorCode> {
    if a.count > 0 {
        Ok(BaseAccount { count: (a.count - 1) as u64, authority: a.authority })
    } else {
        Err(ErrorCode::Underflow)
    }
}

/// Seed the record: zero count, authority set to the creating identity.
pub fn initialize(ctx: &mut Initialize) -> (r: Result<(), ErrorCode>)
    ensures
        final(ctx).base_account == spec_initialized(old(ctx).user),
        final(ctx).user == old(ctx).user,
        r is Ok,
{
    ctx.base_account.count = 0;
    ctx.base_account.authority = ctx.user;
    Ok(())
}

/// Advance the count by one. The caller must keep the count below the
/// 64-bit ceiling; this core does not define behaviour at that boundary.
pub fn increment(ctx: &mut Increment) -> (r: Result<(), ErrorCode>)
    requires
        old(ctx).base_account.count < u64::MAX,
    ensures
        final(ctx).base_account == spec_incremented(old(ctx).base_account),
        final(ctx).base_account.count == old(ctx).base_account.count + 1,
        final(ctx).base_account.authority == old(ctx).base_account.authority,
        r is Ok,
{
    ctx.base_account.count = ctx.base_account.count + 1;
    Ok(())
}

/// Retreat the count by one, or fail with `Underflow` and leave the
/// record exactly as it was when the count is already zero.
pub fn decrement(ctx: &mut Decrement) -> (r: Result<(), ErrorCode>)
    ensures
        (match spec_decremented(old(ctx).base_account) {
            Ok(a) => r is Ok && final(ctx).base_account == a,
            Err(e) => r == Err::<(), ErrorCode>(e) && *final(ctx) == *old(ctx),
        }),
        old(ctx).base_account.count > 0 ==> r is Ok && final(ctx).base_account.count == old(
            ctx,
        ).base_account.count - 1,
        old(ctx).base_account.count == 0 ==> r == Err::<(), ErrorCode>(ErrorCode::Underflow)
            && final(ctx).base_account.count == 0,
        final(ctx).base_account.authority == old(ctx).base_account.authority,
{
    if ctx.base_account.count == 0 {
        return Err(ErrorCode::Underflow);
    }
    ctx.base_account.count = ctx.base_account.count - 1;
    Ok(())
}

/// Law: one increment followed by one decrement returns any record to
/// exactly its previous value.
pub proof fn lemma_increment_then_decrement(a: BaseAccount)
    requires
        a.count < u64::MAX,
    ensures
        spec_decremented(spec_incremented(a)) == Ok::<BaseAccount, ErrorCode>(a),
{
}

/// Law: from a fresh record, three increments followed by three decrements
/// return the count to zero, and every intermediate count equals the number
/// of increments minus the number of decrements applied so far.
pub proof fn lemma_monotonic_round_trip(user: Pubkey)
    ensures
        ({
            let a0 = spec_initialized(user);
            let a1 = spec_incremented(a0);
            let a2 = spec_incremented(a1);
            let a3 = spec_incremented(a2);
            &&& a0.count == 0
            &&& a1.count == 1
            &&& a2.count == 2
            &&& a3.count == 3
            &&& spec_decremented(a3) == Ok::<BaseAccount, ErrorCode>(a2)
            &&& spec_decremented(a2) == Ok::<BaseAccount, ErrorCode>(a1)
            &&& spec_decremented(a1) == Ok::<BaseAccount, ErrorCode>(a0)
        }),
{
}

} // verus!
