//! A fund-custody state machine that holds a tenant's rent payment in escrow
//! until an authorized release pays the full held balance out to a landlord.
//!
//! The host ledger is modeled by plain values: an account's funds are a `u64`
//! and a party's public key is a pair of 128-bit halves. The three operations
//! (`initialize`, `deposit`, `release`) are verified against spec-level
//! transition functions, and the laws of the state machine (monotonic release,
//! conservation of funds, immutability of the parties) are proved in `laws`.

use vstd::prelude::*;

pub mod laws;

verus! {

/// A party's public identity: a 256-bit public key, held as two 128-bit halves.
#[derive(Clone, Copy, PartialEq, Eq, Structural, Debug)]
pub struct Identity {
    pub hi: u128,
    pub lo: u128,
}

/// The persistent escrow record: the two fixed parties and the release flag.
#[derive(Clone, Copy, PartialEq, Eq, Structural, Debug)]
pub struct Escrow {
    /// The sole authorized recipient of `release`, fixed at creation.
    pub landlord: Identity,
    /// The sole authorized depositor, fixed at creation from the creating signer.
    pub tenant: Identity,
    /// Set to true exactly once by `release`; never reset.
    pub released: bool,
}

/// The escrow record together with the funds the host ledger holds for it.
#[derive(Clone, Copy, PartialEq, Eq, Structural, Debug)]
pub struct EscrowAccount {
    pub data: Escrow,
    pub balance: u64,
}

/// A party's account on the host ledger: its identity and its spendable funds.
#[derive(Clone, Copy, PartialEq, Eq, Structural, Debug)]
pub struct Wallet {
    pub identity: Identity,
    pub balance: u64,
}

/// The typed failures an operation can report.
#[derive(Clone, Copy, PartialEq, Eq, Structural, Debug)]
pub enum EscrowError {
    /// A `deposit` or `release` was attempted on a record already released.
    AlreadyReleased,
    /// The depositor's account holds less than the requested amount.
    InsufficientFunds,
    /// The account supplied to `release` is not the record's landlord.
    LandlordMismatch,
}

/// Accounts for `initialize`: the signing tenant who creates the record.
#[derive(Clone, Copy, Debug)]
pub struct Initialize {
    /// The authenticated signer; becomes the record's tenant.
    pub tenant: Identity,
}

/// Accounts for `deposit`: the escrow account and the signing tenant's account.
#[derive(Clone, Copy, Debug)]
pub struct Deposit {
    pub escrow: EscrowAccount,
    pub tenant: Wallet,
}

/// Accounts for `release`: the escrow account and the landlord's account.
#[derive(Clone, Copy, Debug)]
pub struct Release {
    pub escrow: EscrowAccount,
    pub landlord: Wallet,
}

/// The outcome `deposit` reports for a given escrow, depositor and amount.
pub open spec fn deposit_result(
    escrow: EscrowAccount,
    tenant: Wallet,
    amount: u64,
) -> Result<(), EscrowError> {
    if escrow.data.released {
        Err(EscrowError::AlreadyReleased)
    } else if tenant.balance < amount {
        Err(EscrowError::InsufficientFunds)
    } else {
        Ok(())
    }
}

/// The two accounts after `deposit`: on success the amount moves from the
/// tenant's funds into the record's funds; on failure nothing changes.
pub open spec fn deposit_effect(
    escrow: EscrowAccount,
    tenant: Wallet,
    amount: u64,
) -> (EscrowAccount, Wallet) {
    if deposit_result(escrow, tenant, amount) is Ok {
        (
            EscrowAccount { balance: (escrow.balance + amount) as u64, ..escrow },
            Wallet { balance: (tenant.balance - amount) as u64, ..tenant },
        )
    } else {
        (escrow, tenant)
    }
}

/// The outcome `release` reports for a given escrow and supplied landlord account.
pub open spec fn release_result(
    escrow: EscrowAccount,
    landlord: Wallet,
) -> Result<(), EscrowError> {
    if escrow.data.released {
        Err(EscrowError::AlreadyReleased)
    } else if landlord.identity != escrow.data.landlord {
        Err(EscrowError::LandlordMismatch)
    } else {
        Ok(())
    }
}

/// The two accounts after `release`: on success the record's entire funds move
/// to the landlord and the record becomes released; on failure nothing changes.
pub open spec fn release_effect(
    escrow: EscrowAccount,
    landlord: Wallet,
) -> (EscrowAccount, Wallet) {
    if release_result(escrow, landlord) is Ok {
        (
            EscrowAccount {
                data: Escrow { released: true, ..escrow.data },
                balance: 0,
            },
            Wallet { balance: (landlord.balance + escrow.balance) as u64, ..landlord },
        )
    } else {
        (escrow, landlord)
    }
}

/// Creates a new escrow record: the given landlord, the signing tenant,
/// not yet released, holding no funds.
pub fn initialize(ctx: &Initialize, landlord: Identity) -> (r: EscrowAccount)
    ensures
        r.data.landlord == landlord,
        r.data.tenant == ctx.tenant,
        !r.data.released,
        r.balance == 0,
{
    EscrowAccount {
        data: Escrow { landlord, tenant: ctx.tenant, released: false },
        balance: 0,
    }
}

/// The tenant pays rent into escrow: moves `amount` from the tenant's account
/// into the record's funds, unless the record is already released or the
/// tenant's funds are insufficient, in which case nothing changes.
///
/// The host ledger authenticates the signer as the record's tenant, and its
/// total circulating funds fit in a `u64`; both arrive here as preconditions.
pub fn deposit(ctx: &mut Deposit, amount: u64) -> (r: Result<(), EscrowError>)
    requires
        old(ctx).tenant.identity == old(ctx).escrow.data.tenant,
        old(ctx).escrow.balance + old(ctx).tenant.balance <= u64::MAX,
    ensures
        r == deposit_result(old(ctx).escrow, old(ctx).tenant, amount),
        final(ctx).escrow == deposit_effect(old(ctx).escrow, old(ctx).tenant, amount).0,
        final(ctx).tenant == deposit_effect(old(ctx).escrow, old(ctx).tenant, amount).1,
{
    if ctx.escrow.data.released {
        return Err(EscrowError::AlreadyReleased);
    }
    if ctx.tenant.balance < amount {
        return Err(EscrowError::InsufficientFunds);
    }
    ctx.tenant.balance = ctx.tenant.balance - amount;
    ctx.escrow.balance = ctx.escrow.balance + amount;
    Ok(())
}

/// Pays the record's entire held funds out to the landlord and marks the
/// record released, unless it is already released or the supplied account is
/// not the record's landlord, in which case nothing changes.
///
/// The host ledger's total circulating funds fit in a `u64`; that bound
/// arrives here as a precondition.
pub fn release(ctx: &mut Release) -> (r: Result<(), EscrowError>)
    requires
        old(ctx).escrow.balance + old(ctx).landlord.balance <= u64::MAX,
    ensures
        r == release_result(old(ctx).escrow, old(ctx).landlord),
        final(ctx).escrow == release_effect(old(ctx).escrow, old(ctx).landlord).0,
        final(ctx).landlord == release_effect(old(ctx).escrow, old(ctx).landlord).1,
{
    if ctx.escrow.data.released {
        return Err(EscrowError::AlreadyReleased);
    }
    if ctx.landlord.identity != ctx.escrow.data.landlord {
        return Err(EscrowError::LandlordMismatch);
    }
    let amount = ctx.escrow.balance;
    ctx.escrow.balance = 0;
    ctx.landlord.balance = ctx.landlord.balance + amount;
    ctx.escrow.data.released = true;
    Ok(())
}

} // verus!
