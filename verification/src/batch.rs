//! The batch registry: the cap, the counter and the completion flag of one
//! authority's batch of certificates.

use vstd::prelude::*;
use crate::address::Address;
use crate::error::ErrorCode;

verus! {

/// The largest cap a batch may have.
pub const MAX_BATCH_SIZE: u8 = 100;

/// The registry record of one batch.
#[derive(Clone, Copy, Debug, PartialEq, Eq)]
pub struct Batch {
    /// Who administers the batch and lends its certificates their issuing authority.
    pub authority: Address,
    /// Where the fees of the batch go.
    pub treasury: Address,
    /// How many certificates the batch has issued.
    pub current_mints: u8,
    /// How many certificates the batch may ever issue.
    pub max_mints: u8,
    /// The fee of one issuance, in lamports.
    pub mint_price_lamports: u64,
    /// Whether the batch has issued all its certificates.
    pub triggered: bool,
    /// The bump of the record's derived address.
    pub bump: u8,
}

/// The accounts that take part in the creation of a batch.
#[derive(Clone, Copy, Debug, PartialEq, Eq)]
pub struct InitializeBatch {
    /// The record to fill.
    pub batch: Batch,
    /// The wallet that will administer the batch.
    pub authority: Address,
    /// The wallet that pays for the record.
    pub payer: Address,
    /// The account that will receive the fees.
    pub treasury: Address,
    /// The bump found for the record's derived address.
    pub bump: u8,
}

impl Batch {
    /// The bytes a stored record takes: an 8-byte tag, then the fields.
    pub const LEN: usize = 8 + 32 + 32 + 1 + 1 + 8 + 1 + 1;

    /// What holds of every registry between two requests: the counter is
    /// within the cap, the cap is between 1 and 100, the fee is positive, and
    /// the batch is complete exactly when the counter has reached the cap.
    pub open spec fn wf(&self) -> bool {
        &&& 1 <= self.max_mints <= MAX_BATCH_SIZE
        &&& self.current_mints <= self.max_mints
        &&& self.mint_price_lamports > 0
        &&& self.triggered <==> self.current_mints == self.max_mints
    }

    /// The registry after one more certificate was issued.
    pub open spec fn recorded(self) -> Batch {
        Batch {
            current_mints: (self.current_mints + 1) as u8,
            triggered: self.current_mints + 1 == self.max_mints,
            ..self
        }
    }

    /// The registry after `n` issuances in a row, each of them accepted:
    /// `None` where the registry refuses one of them.
    pub open spec fn issued_times(self, n: nat) -> Option<Batch>
        decreases n,
    {
        if n == 0 {
            Some(self)
        } else if !self.open_for_issuance() {
            None
        } else {
            self.recorded().issued_times((n - 1) as nat)
        }
    }

    /// Whether the registry accepts another issuance.
    pub open spec fn open_for_issuance(&self) -> bool {
        !self.triggered && self.current_mints < self.max_mints
    }

    /// Why the registry refuses another issuance, if it does: completion is
    /// looked at before the counter.
    pub fn check_open(&self) -> (r: Result<(), ErrorCode>)
        ensures
            r is Ok <==> self.open_for_issuance(),
            self.triggered ==> r == Err::<(), ErrorCode>(ErrorCode::BatchTriggered),
            !self.triggered && self.current_mints >= self.max_mints ==> r == Err::<
                (),
                ErrorCode,
            >(ErrorCode::MaxMintsReached),
    {
        if self.triggered {
            return Err(ErrorCode::BatchTriggered);
        }
        if self.current_mints >= self.max_mints {
            return Err(ErrorCode::MaxMintsReached);
        }
        Ok(())
    }

    /// Counts one issued certificate, and completes the batch when the
    /// counter reaches the cap. Returns whether this issuance completed it.
    pub fn record_mint(&mut self) -> (completed: bool)
        requires
            old(self).current_mints < old(self).max_mints,
        ensures
            *final(self) == old(self).recorded(),
            completed == final(self).triggered,
            completed == (old(self).current_mints + 1 == old(self).max_mints),
    {
        self.current_mints = self.current_mints + 1;
        if self.current_mints == self.max_mints {
            self.triggered = true;
            true
        } else {
            self.triggered = false;
            false
        }
    }
}

/// Creates the registry of a batch: fills the record of `ctx` with the
/// authority, the treasury, the cap and the fee, no certificate issued yet.
/// A cap outside 1..=100 is refused first, then a fee of zero; a refused
/// request leaves the record as it was.
pub fn initialize_batch(ctx: &mut InitializeBatch, max_mints: u8, mint_price_lamports: u64) -> (r:
    Result<(), ErrorCode>)
    ensures
        r is Ok <==> 1 <= max_mints <= MAX_BATCH_SIZE && mint_price_lamports > 0,
        max_mints == 0 || max_mints > MAX_BATCH_SIZE ==> r == Err::<(), ErrorCode>(
            ErrorCode::InvalidBatchSize,
        ),
        1 <= max_mints <= MAX_BATCH_SIZE && mint_price_lamports == 0 ==> r == Err::<
            (),
            ErrorCode,
        >(ErrorCode::InvalidPrice),
        r is Err ==> *final(ctx) == *old(ctx),
        r is Ok ==> *final(ctx) == (InitializeBatch {
            batch: Batch {
                authority: old(ctx).authority,
                treasury: old(ctx).treasury,
                current_mints: 0,
                max_mints,
                mint_price_lamports,
                triggered: false,
                bump: old(ctx).bump,
            },
            ..*old(ctx)
        }),
        r is Ok ==> final(ctx).batch.wf(),
{
    if !(max_mints > 0 && max_mints <= MAX_BATCH_SIZE) {
        return Err(ErrorCode::InvalidBatchSize);
    }
    if !(mint_price_lamports > 0) {
        return Err(ErrorCode::InvalidPrice);
    }
    ctx.batch.authority = ctx.authority;
    ctx.batch.treasury = ctx.treasury;
    ctx.batch.current_mints = 0;
    ctx.batch.max_mints = max_mints;
    ctx.batch.mint_price_lamports = mint_price_lamports;
    ctx.batch.triggered = false;
    ctx.batch.bump = ctx.bump;
    Ok(())
}

/// One issuance keeps a registry valid, adds one to its counter, and changes
/// nothing else but the completion flag.
pub proof fn recorded_keeps_valid(b: Batch)
    requires
        b.wf(),
        b.open_for_issuance(),
    ensures
        b.recorded().wf(),
        b.recorded().current_mints == b.current_mints + 1,
        b.recorded().current_mints <= b.max_mints,
        b.recorded().max_mints == b.max_mints,
        b.recorded().authority == b.authority,
        b.recorded().treasury == b.treasury,
        b.recorded().mint_price_lamports == b.mint_price_lamports,
{
}

/// A valid registry accepts `n` issuances in a row exactly when the cap
/// leaves room for them. After them the counter has grown by exactly `n`, is
/// within the cap, and the registry is still valid, with its cap, fee,
/// authority and treasury as before.
pub proof fn counter_counts_issuances(b: Batch, n: nat)
    requires
        b.wf(),
    ensures
        b.issued_times(n) is Some <==> b.current_mints + n <= b.max_mints,
        b.issued_times(n) matches Some(after) ==> {
            &&& after.wf()
            &&& after.current_mints == b.current_mints + n
            &&& after.current_mints <= after.max_mints
            &&& after.max_mints == b.max_mints
            &&& after.mint_price_lamports == b.mint_price_lamports
            &&& after.authority == b.authority
            &&& after.treasury == b.treasury
        },
    decreases n,
{
    if n > 0 && b.open_for_issuance() {
        recorded_keeps_valid(b);
        counter_counts_issuances(b.recorded(), (n - 1) as nat);
    }
}

/// The batch is complete exactly when the counter has reached the cap: in
/// no state before, and for good from then on, since a complete batch
/// accepts no further issuance.
pub proof fn completed_iff_cap_reached(b: Batch, n: nat)
    requires
        b.wf(),
        b.issued_times(n) is Some,
    ensures
        b.issued_times(n).unwrap().triggered <==> b.current_mints + n == b.max_mints,
        forall|k: nat|
            k < n ==> (#[trigger] b.issued_times(k)) is Some && !b.issued_times(
                k,
            ).unwrap().triggered,
        b.issued_times(n).unwrap().triggered ==> b.issued_times(n + 1) is None,
{
    counter_counts_issuances(b, n);
    counter_counts_issuances(b, n + 1);
    assert forall|k: nat| k < n implies (#[trigger] b.issued_times(k)) is Some
        && !b.issued_times(k).unwrap().triggered by {
        counter_counts_issuances(b, k);
    }
}

} // verus!
