//! The laws of the escrow state machine, proved over sequences of operations.
//!
//! `World` models everything the host ledger serializes for one record: the
//! escrow account and the two party accounts. `world_step` applies one
//! submitted operation exactly as the executable operations do — it is built
//! from the same spec-level transition functions that their contracts use —
//! and `world_run` folds a whole sequence. The lemmas state the machine's
//! guarantees: once released, a record absorbs every later operation; funds
//! are conserved and the payout equals the sum of the deposits; the parties
//! are immutable.

use vstd::prelude::*;

use crate::EscrowAccount;
use crate::EscrowError;
use crate::Wallet;
use crate::deposit_effect;
use crate::deposit_result;
use crate::release_effect;
use crate::release_result;

verus! {

/// One submitted operation on an existing escrow record.
pub enum Op {
    /// The tenant pays the given amount into escrow.
    Deposit(u64),
    /// The full held funds are paid out to the landlord.
    Release,
}

/// Everything the host ledger serializes for one record: the escrow account
/// and the accounts of its two parties.
pub struct World {
    pub escrow: EscrowAccount,
    pub tenant: Wallet,
    pub landlord: Wallet,
}

/// What the host ledger guarantees of a world it hands to the operations:
/// the party accounts are the record's parties, and the total circulating
/// funds fit in a `u64`.
pub open spec fn world_wf(w: World) -> bool {
    &&& w.tenant.identity == w.escrow.data.tenant
    &&& w.landlord.identity == w.escrow.data.landlord
    &&& w.escrow.balance + w.tenant.balance + w.landlord.balance <= u64::MAX
}

/// The total funds in the world: the record's plus both parties'.
pub open spec fn world_total(w: World) -> int {
    w.escrow.balance + w.tenant.balance + w.landlord.balance
}

/// Applies one operation, yielding the next world and the reported outcome.
pub open spec fn world_step(w: World, op: Op) -> (World, Result<(), EscrowError>) {
    match op {
        Op::Deposit(amount) => {
            let (e, t) = deposit_effect(w.escrow, w.tenant, amount);
            (World { escrow: e, tenant: t, ..w }, deposit_result(w.escrow, w.tenant, amount))
        }
        Op::Release => {
            let (e, l) = release_effect(w.escrow, w.landlord);
            (World { escrow: e, landlord: l, ..w }, release_result(w.escrow, w.landlord))
        }
    }
}

/// Applies a sequence of operations in order.
pub open spec fn world_run(w: World, ops: Seq<Op>) -> World
    decreases ops.len(),
{
    if ops.len() == 0 {
        w
    } else {
        world_run(world_step(w, ops[0]).0, ops.drop_first())
    }
}

/// One operation keeps the world well formed, conserves the total funds,
/// keeps both parties fixed, and never resets the release flag.
pub proof fn lemma_step_preserves(w: World, op: Op)
    requires
        world_wf(w),
    ensures
        world_wf(world_step(w, op).0),
        world_total(world_step(w, op).0) == world_total(w),
        world_step(w, op).0.escrow.data.landlord == w.escrow.data.landlord,
        world_step(w, op).0.escrow.data.tenant == w.escrow.data.tenant,
        w.escrow.data.released ==> world_step(w, op).0.escrow.data.released,
{
}

/// Conservation over any sequence: no run of operations creates or destroys
/// funds — the total held by the record and the two parties never changes —
/// and the world stays well formed.
pub proof fn lemma_conservation(w: World, ops: Seq<Op>)
    requires
        world_wf(w),
    ensures
        world_wf(world_run(w, ops)),
        world_total(world_run(w, ops)) == world_total(w),
    decreases ops.len(),
{
    if ops.len() > 0 {
        lemma_step_preserves(w, ops[0]);
        lemma_conservation(world_step(w, ops[0]).0, ops.drop_first());
    }
}

/// Immutability of the parties: after any sequence of operations the record's
/// landlord and tenant, and the identities of both party accounts, equal those
/// fixed at creation.
pub proof fn lemma_parties_immutable(w: World, ops: Seq<Op>)
    ensures
        world_run(w, ops).escrow.data.landlord == w.escrow.data.landlord,
        world_run(w, ops).escrow.data.tenant == w.escrow.data.tenant,
        world_run(w, ops).tenant.identity == w.tenant.identity,
        world_run(w, ops).landlord.identity == w.landlord.identity,
    decreases ops.len(),
{
    if ops.len() > 0 {
        lemma_parties_immutable(world_step(w, ops[0]).0, ops.drop_first());
    }
}

/// A released record absorbs one operation: the world does not change and the
/// caller is told the record is already released.
pub proof fn lemma_released_absorbs(w: World, op: Op)
    requires
        w.escrow.data.released,
    ensures
        world_step(w, op).0 == w,
        world_step(w, op).1 == Err::<(), EscrowError>(EscrowError::AlreadyReleased),
{
}

/// A released record absorbs every sequence of operations.
pub proof fn lemma_released_absorbs_run(w: World, ops: Seq<Op>)
    requires
        w.escrow.data.released,
    ensures
        world_run(w, ops) == w,
    decreases ops.len(),
{
    if ops.len() > 0 {
        lemma_released_absorbs(w, ops[0]);
        lemma_released_absorbs_run(w, ops.drop_first());
    }
}

/// Monotonic release: once `release` succeeds, every later `deposit` or
/// `release` — however many operations come between — fails with
/// `AlreadyReleased` and changes nothing.
pub proof fn lemma_release_is_terminal(w: World, ops: Seq<Op>, op: Op)
    requires
        world_step(w, Op::Release).1 is Ok,
    ensures
        world_run(world_step(w, Op::Release).0, ops) == world_step(w, Op::Release).0,
        world_step(world_run(world_step(w, Op::Release).0, ops), op).1
            == Err::<(), EscrowError>(EscrowError::AlreadyReleased),
        world_step(world_run(world_step(w, Op::Release).0, ops), op).0
            == world_step(w, Op::Release).0,
{
    let w1 = world_step(w, Op::Release).0;
    lemma_released_absorbs_run(w1, ops);
    lemma_released_absorbs(w1, op);
}

/// A second `release` directly after a successful one fails with
/// `AlreadyReleased` and leaves the record's funds at zero: no double payout.
pub proof fn lemma_second_release_fails(w: World)
    requires
        world_step(w, Op::Release).1 is Ok,
    ensures
        world_step(world_step(w, Op::Release).0, Op::Release).1
            == Err::<(), EscrowError>(EscrowError::AlreadyReleased),
        world_step(world_step(w, Op::Release).0, Op::Release).0
            == world_step(w, Op::Release).0,
        world_step(w, Op::Release).0.escrow.balance == 0,
{
    lemma_released_absorbs(world_step(w, Op::Release).0, Op::Release);
}

/// The sum of the amounts that a sequence of deposits pays in.
pub open spec fn deposit_sum(ops: Seq<Op>) -> int
    decreases ops.len(),
{
    if ops.len() == 0 {
        0
    } else {
        (match ops[0] {
            Op::Deposit(amount) => amount as int,
            Op::Release => 0,
        }) + deposit_sum(ops.drop_first())
    }
}

/// The sequence is made of deposits alone, each of which succeeds when the
/// operations run in order from `w`.
pub open spec fn all_deposits_ok(w: World, ops: Seq<Op>) -> bool
    decreases ops.len(),
{
    if ops.len() == 0 {
        true
    } else {
        &&& ops[0] is Deposit
        &&& world_step(w, ops[0]).1 is Ok
        &&& all_deposits_ok(world_step(w, ops[0]).0, ops.drop_first())
    }
}

/// Successful deposits accumulate: the record's funds grow by exactly the sum
/// of the amounts, the record's data and the landlord's account do not change.
pub proof fn lemma_deposits_accumulate(w: World, ops: Seq<Op>)
    requires
        world_wf(w),
        all_deposits_ok(w, ops),
    ensures
        world_run(w, ops).escrow.balance == w.escrow.balance + deposit_sum(ops),
        world_run(w, ops).escrow.data == w.escrow.data,
        world_run(w, ops).landlord == w.landlord,
        world_wf(world_run(w, ops)),
    decreases ops.len(),
{
    if ops.len() > 0 {
        lemma_step_preserves(w, ops[0]);
        lemma_deposits_accumulate(world_step(w, ops[0]).0, ops.drop_first());
    }
}

/// Conservation at the payout: starting from a fresh, unreleased record, any
/// sequence of successful deposits followed by one `release` succeeds and pays
/// the landlord exactly the sum of the deposited amounts, leaving the record
/// empty and released.
pub proof fn lemma_payout_equals_deposits(w: World, ops: Seq<Op>)
    requires
        world_wf(w),
        !w.escrow.data.released,
        w.escrow.balance == 0,
        all_deposits_ok(w, ops),
    ensures
        world_step(world_run(w, ops), Op::Release).1 is Ok,
        world_step(world_run(w, ops), Op::Release).0.landlord.balance
            == w.landlord.balance + deposit_sum(ops),
        world_step(world_run(w, ops), Op::Release).0.escrow.balance == 0,
        world_step(world_run(w, ops), Op::Release).0.escrow.data.released,
{
    lemma_deposits_accumulate(w, ops);
}

} // verus!
