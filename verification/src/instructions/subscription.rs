//! Subscribing: which payment is due, and how an entitlement is created and renewed.

use crate::errors::ErrorCode;
use crate::identity::Identity;
use crate::state::{ProgramConfig, Subscription};
use vstd::prelude::*;

verus! {

/// What a subscription reads of a token account: where it is, whose it is and which token
/// it holds.
#[derive(Clone, Copy, Debug, PartialEq, Eq)]
pub struct TokenAccount {
    pub key: Identity,
    pub owner: Identity,
    pub mint: Identity,
}

/// A payment to be made by the payment ledger: `amount` units from `from` to `to`,
/// authorized by `authority`.
#[derive(Clone, Copy, Debug, PartialEq, Eq)]
pub struct Transfer {
    pub from: Identity,
    pub to: Identity,
    pub authority: Identity,
    pub amount: u64,
}

/// What the payment ledger answered to a transfer.
#[derive(Clone, Copy, Debug, PartialEq, Eq, Structural)]
pub enum TransferOutcome {
    /// The whole amount was moved.
    Completed,
    /// Nothing was moved.
    Rejected,
}

/// The records a subscription works on.
#[derive(Clone, Copy, Debug, PartialEq, Eq)]
pub struct Subscribe {
    /// The subscriber, who pays and signs.
    pub user: Identity,
    /// The subscriber's entitlement: the stored one, or a zeroed one at the first purchase.
    pub subscription: Subscription,
    pub config: ProgramConfig,
    /// The token account that pays.
    pub user_usdc: TokenAccount,
    /// The token account that is paid.
    pub treasury_usdc: TokenAccount,
    /// The token that the price is counted in.
    pub usdc_mint: Identity,
    /// The bump of the entitlement's slot.
    pub bump: u8,
}

/// The moment from which newly bought time counts: the end of the running entitlement, or
/// `now` where none runs.
pub open spec fn renewal_base(sub: Subscription, now: i64) -> i64 {
    if sub.spec_is_active(now) {
        sub.expires_at
    } else {
        now
    }
}

/// Whether the new end and the new total can be stored.
pub open spec fn renewal_fits(sub: Subscription, price: u64, duration: i64, now: i64) -> bool {
    &&& i64::MIN <= renewal_base(sub, now) + duration <= i64::MAX
    &&& sub.total_paid + price <= u64::MAX
}

/// The entitlement after `user` has bought `duration` seconds of plan `tier` for `price`
/// at `now`.
pub open spec fn renewed(
    sub: Subscription,
    user: Identity,
    tier: u8,
    price: u64,
    duration: i64,
    now: i64,
    bump: u8,
) -> Subscription {
    Subscription {
        user,
        tier,
        started_at: if sub.started_at == 0 || sub.expires_at < now {
            now
        } else {
            sub.started_at
        },
        expires_at: (renewal_base(sub, now) + duration) as i64,
        total_paid: (sub.total_paid + price) as u64,
        bump,
    }
}

impl Subscribe {
    /// Why these records admit no subscription, if they do not: the program is paused; or
    /// else the paying account is not the subscriber's; or else it holds another token
    /// than the price is counted in; or else the paid account is not the treasury's; or
    /// else that one holds another token.
    pub open spec fn refusal(self) -> Option<ErrorCode> {
        if self.config.paused {
            Some(ErrorCode::ProgramPaused)
        } else if self.user_usdc.owner != self.user {
            Some(ErrorCode::Unauthorized)
        } else if self.user_usdc.mint != self.usdc_mint {
            Some(ErrorCode::InsufficientBalance)
        } else if self.treasury_usdc.owner != self.config.treasury {
            Some(ErrorCode::Unauthorized)
        } else if self.treasury_usdc.mint != self.usdc_mint {
            Some(ErrorCode::Unauthorized)
        } else {
            None
        }
    }

    /// Checks that the program is not paused, that the paying account is the subscriber's
    /// and the paid account the treasury's, and that both hold the token of the price.
    pub fn check(&self) -> (r: Result<(), ErrorCode>)
        ensures
            match self.refusal() {
                Some(e) => r == Err::<(), ErrorCode>(e),
                None => r is Ok,
            },
    {
        if self.config.paused {
            Err(ErrorCode::ProgramPaused)
        } else if !self.user_usdc.owner.same(&self.user) {
            Err(ErrorCode::Unauthorized)
        } else if !self.user_usdc.mint.same(&self.usdc_mint) {
            Err(ErrorCode::InsufficientBalance)
        } else if !self.treasury_usdc.owner.same(&self.config.treasury) {
            Err(ErrorCode::Unauthorized)
        } else if !self.treasury_usdc.mint.same(&self.usdc_mint) {
            Err(ErrorCode::Unauthorized)
        } else {
            Ok(())
        }
    }

    /// The payment that a subscription to plan `tier` asks for, or why there is none.
    pub open spec fn spec_transfer_request(self, tier: u8) -> Result<Transfer, ErrorCode> {
        match (self.refusal(), self.config.spec_plan(tier)) {
            (Some(e), _) => Err(e),
            (None, None) => Err(ErrorCode::InvalidTier),
            (None, Some((price, _))) => Ok(
                Transfer {
                    from: self.user_usdc.key,
                    to: self.treasury_usdc.key,
                    authority: self.user,
                    amount: price,
                },
            ),
        }
    }

    /// The records after a subscription to plan `tier` at `now`, given what the payment
    /// ledger answered; or why they stay as they are.
    pub open spec fn outcome(self, tier: u8, payment: TransferOutcome, now: i64) -> Result<
        Subscribe,
        ErrorCode,
    > {
        match (self.refusal(), self.config.spec_plan(tier), payment) {
            (Some(e), _, _) => Err(e),
            (None, None, _) => Err(ErrorCode::InvalidTier),
            (None, Some(_), TransferOutcome::Rejected) => Err(ErrorCode::TransferFailed),
            (None, Some((price, duration)), TransferOutcome::Completed) => Ok(
                Subscribe {
                    subscription: renewed(
                        self.subscription,
                        self.user,
                        tier,
                        price,
                        duration,
                        now,
                        self.bump,
                    ),
                    ..self
                },
            ),
        }
    }

    /// Whether a subscription to plan `tier` at `now`, if it is admitted, leaves an end and
    /// a total that can be stored.
    pub open spec fn fits(self, tier: u8, now: i64) -> bool {
        self.refusal() is None ==> (self.config.spec_plan(tier) matches Some((price, duration))
            ==> renewal_fits(self.subscription, price, duration, now))
    }

    /// Tells whether a subscription to plan `tier` at `now`, if it is admitted, leaves an
    /// end and a total that can be stored. `subscribe` asks this of its caller.
    pub fn can_store(&self, tier: u8, now: i64) -> (r: bool)
        ensures
            r == self.fits(tier, now),
    {
        match self.check() {
            Err(_) => {
                return true;
            },
            Ok(()) => {},
        }
        match self.config.plan(tier) {
            None => true,
            Some((price, duration)) => {
                let base: i64 = if self.subscription.is_active(now) {
                    self.subscription.expires_at
                } else {
                    now
                };
                base.checked_add(duration).is_some() && self.subscription.total_paid.checked_add(
                    price,
                ).is_some()
            },
        }
    }
}

/// Says which payment a subscription to plan `tier` asks for. Nothing is changed: the
/// payment ledger is asked to make this transfer, and its answer goes to `subscribe`.
pub fn transfer_request(ctx: &Subscribe, tier: u8) -> (r: Result<Transfer, ErrorCode>)
    ensures
        r == ctx.spec_transfer_request(tier),
{
    match ctx.check() {
        Err(e) => {
            return Err(e);
        },
        Ok(()) => {},
    }
    match ctx.config.plan(tier) {
        Some((price, _)) => Ok(
            Transfer {
                from: ctx.user_usdc.key,
                to: ctx.treasury_usdc.key,
                authority: ctx.user,
                amount: price,
            },
        ),
        None => Err(ErrorCode::InvalidTier),
    }
}

/// Subscribes `ctx.user` to plan `tier` at `now`, after the payment ledger has answered
/// `payment` to the transfer of the plan's price.
///
/// Time bought while the entitlement still runs is added to its end; time bought after it
/// has lapsed, or for the first time, counts from `now`. The start is set to `now` when
/// the entitlement is new or had lapsed before `now`, and kept otherwise. The price is
/// added to the total paid, and the plan becomes `tier` whatever it was.
///
/// Where the operation is refused, nothing changes.
pub fn subscribe(ctx: &mut Subscribe, tier: u8, payment: TransferOutcome, now: i64) -> (r: Result<
    (),
    ErrorCode,
>)
    requires
        payment is Completed ==> old(ctx).fits(tier, now),
    ensures
        match old(ctx).outcome(tier, payment, now) {
            Ok(after) => r is Ok && *final(ctx) == after,
            Err(e) => r == Err::<(), ErrorCode>(e) && *final(ctx) == *old(ctx),
        },
        final(ctx).subscription.total_paid >= old(ctx).subscription.total_paid,
        old(ctx).subscription.wf() && (old(ctx).config.spec_plan(tier) matches Some((_, duration))
            ==> duration >= 0) ==> final(ctx).subscription.wf(),
{
    match ctx.check() {
        Err(e) => {
            return Err(e);
        },
        Ok(()) => {},
    }
    let (price, duration) = match ctx.config.plan(tier) {
        Some(plan) => plan,
        None => {
            return Err(ErrorCode::InvalidTier);
        },
    };
    match payment {
        TransferOutcome::Rejected => {
            return Err(ErrorCode::TransferFailed);
        },
        TransferOutcome::Completed => {},
    }
    let current_expiry: i64 = ctx.subscription.expires_at;
    let new_expiry: i64 = if ctx.subscription.is_active(now) {
        current_expiry + duration
    } else {
        now + duration
    };
    ctx.subscription.user = ctx.user;
    ctx.subscription.tier = tier;
    if ctx.subscription.started_at == 0 || current_expiry < now {
        ctx.subscription.started_at = now;
    }
    ctx.subscription.expires_at = new_expiry;
    ctx.subscription.total_paid = ctx.subscription.total_paid + price;
    ctx.subscription.bump = ctx.bump;
    Ok(())
}

} // verus!
