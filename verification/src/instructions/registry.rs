//! The registry of tracked traders: creating it, and adding, updating and removing
//! traders with the counters kept in step.

use crate::errors::ErrorCode;
use crate::identity::Identity;
use crate::state::{ProgramConfig, TrackedTrader, TraderTier, WhaleRegistry};
use vstd::prelude::*;

verus! {

/// The records that creating the registry works on.
#[derive(Clone, Copy, Debug, PartialEq, Eq)]
pub struct InitializeRegistry {
    /// The caller, who signs.
    pub admin: Identity,
    pub config: ProgramConfig,
    /// The registry's slot, just allotted.
    pub registry: WhaleRegistry,
    /// The bump of the registry's slot.
    pub bump: u8,
}

impl InitializeRegistry {
    /// The records after the registry is created at `now`, or why they stay as they are.
    pub open spec fn outcome(self, now: i64) -> Result<InitializeRegistry, ErrorCode> {
        if self.config.admin != self.admin {
            Err(ErrorCode::Unauthorized)
        } else {
            Ok(
                InitializeRegistry {
                    registry: WhaleRegistry {
                        admin: self.admin,
                        whale_count: 0,
                        degen_count: 0,
                        last_updated: now,
                        bump: self.bump,
                    },
                    ..self
                },
            )
        }
    }
}

/// Creates the registry at `now`, with both counters at zero. Only the administrator may.
pub fn initialize_registry(ctx: &mut InitializeRegistry, now: i64) -> (r: Result<(), ErrorCode>)
    ensures
        match old(ctx).outcome(now) {
            Ok(after) => r is Ok && *final(ctx) == after,
            Err(e) => r == Err::<(), ErrorCode>(e) && *final(ctx) == *old(ctx),
        },
{
    if !ctx.config.admin.same(&ctx.admin) {
        return Err(ErrorCode::Unauthorized);
    }
    ctx.registry.admin = ctx.admin;
    ctx.registry.whale_count = 0;
    ctx.registry.degen_count = 0;
    ctx.registry.last_updated = now;
    ctx.registry.bump = ctx.bump;
    Ok(())
}

/// The records that adding a trader works on.
#[derive(Clone, Copy, Debug, PartialEq, Eq)]
pub struct AddTrader {
    /// The caller, who signs.
    pub admin: Identity,
    pub config: ProgramConfig,
    pub registry: WhaleRegistry,
    /// The trader's slot, just allotted.
    pub trader: TrackedTrader,
    /// The bump of the trader's slot.
    pub bump: u8,
}

impl AddTrader {
    /// The records after the trader is added at `now`, or why they stay as they are.
    pub open spec fn outcome(
        self,
        polygon_address: [u8; 20],
        tier: u8,
        total_pnl: i64,
        win_rate: u16,
        trade_count: u32,
        total_volume: u64,
        roi: i32,
        now: i64,
    ) -> Result<AddTrader, ErrorCode> {
        if self.config.admin != self.admin {
            Err(ErrorCode::Unauthorized)
        } else if tier > 4 {
            Err(ErrorCode::InvalidTraderTier)
        } else {
            Ok(
                AddTrader {
                    trader: TrackedTrader {
                        polygon_address,
                        tier,
                        total_pnl,
                        win_rate,
                        trade_count,
                        total_volume,
                        roi,
                        last_trade_at: now,
                        added_at: now,
                        updated_at: now,
                        bump: self.bump,
                        ..self.trader
                    },
                    registry: WhaleRegistry { last_updated: now, ..self.registry.counted_in(tier) },
                    ..self
                },
            )
        }
    }
}

/// Adds a trader at `now`: fills the trader's record, with `now` as the time of its last
/// trade, and counts it in the registry under the bucket of `tier`. Only the administrator
/// may, and `tier` is at most 4. Where the operation is refused, nothing changes.
pub fn add_trader(
    ctx: &mut AddTrader,
    polygon_address: [u8; 20],
    tier: u8,
    total_pnl: i64,
    win_rate: u16,
    trade_count: u32,
    total_volume: u64,
    roi: i32,
    now: i64,
) -> (r: Result<(), ErrorCode>)
    ensures
        match old(ctx).outcome(
            polygon_address,
            tier,
            total_pnl,
            win_rate,
            trade_count,
            total_volume,
            roi,
            now,
        ) {
            Ok(after) => r is Ok && *final(ctx) == after,
            Err(e) => r == Err::<(), ErrorCode>(e) && *final(ctx) == *old(ctx),
        },
        r is Ok ==> final(ctx).trader.wf(),
{
    if !ctx.config.admin.same(&ctx.admin) {
        return Err(ErrorCode::Unauthorized);
    }
    if TraderTier::from_u8(tier).is_none() {
        return Err(ErrorCode::InvalidTraderTier);
    }
    ctx.trader.polygon_address = polygon_address;
    ctx.trader.tier = tier;
    ctx.trader.total_pnl = total_pnl;
    ctx.trader.win_rate = win_rate;
    ctx.trader.trade_count = trade_count;
    ctx.trader.total_volume = total_volume;
    ctx.trader.roi = roi;
    ctx.trader.last_trade_at = now;
    ctx.trader.added_at = now;
    ctx.trader.updated_at = now;
    ctx.trader.bump = ctx.bump;

    ctx.registry.count_in(tier);
    ctx.registry.last_updated = now;
    Ok(())
}

/// The records that updating a trader works on.
#[derive(Clone, Copy, Debug, PartialEq, Eq)]
pub struct UpdateTrader {
    /// The caller, who signs.
    pub admin: Identity,
    pub config: ProgramConfig,
    /// The trader's record as it is stored.
    pub trader: TrackedTrader,
    pub registry: WhaleRegistry,
}

impl UpdateTrader {
    /// The records after the trader is updated at `now`, or why they stay as they are.
    pub open spec fn outcome(
        self,
        tier: u8,
        total_pnl: i64,
        win_rate: u16,
        trade_count: u32,
        total_volume: u64,
        roi: i32,
        last_trade_at: i64,
        now: i64,
    ) -> Result<UpdateTrader, ErrorCode> {
        if self.config.admin != self.admin {
            Err(ErrorCode::Unauthorized)
        } else if tier > 4 {
            Err(ErrorCode::InvalidTraderTier)
        } else {
            Ok(
                UpdateTrader {
                    trader: TrackedTrader {
                        tier,
                        total_pnl,
                        win_rate,
                        trade_count,
                        total_volume,
                        roi,
                        last_trade_at,
                        updated_at: now,
                        ..self.trader
                    },
                    registry: WhaleRegistry {
                        last_updated: now,
                        ..self.registry.recounted(self.trader.tier, tier)
                    },
                    ..self
                },
            )
        }
    }
}

/// Updates the trader in `ctx` at `now`: overwrites its tier and figures, and, where the
/// tier changes, counts it out of the bucket of the old tier and into that of the new.
/// Only the administrator may, and `tier` is at most 4. Where the operation is refused,
/// nothing changes. The address is that of the record in `ctx` and is not read.
pub fn update_trader(
    ctx: &mut UpdateTrader,
    _polygon_address: [u8; 20],
    tier: u8,
    total_pnl: i64,
    win_rate: u16,
    trade_count: u32,
    total_volume: u64,
    roi: i32,
    last_trade_at: i64,
    now: i64,
) -> (r: Result<(), ErrorCode>)
    ensures
        match old(ctx).outcome(
            tier,
            total_pnl,
            win_rate,
            trade_count,
            total_volume,
            roi,
            last_trade_at,
            now,
        ) {
            Ok(after) => r is Ok && *final(ctx) == after,
            Err(e) => r == Err::<(), ErrorCode>(e) && *final(ctx) == *old(ctx),
        },
        r is Ok ==> final(ctx).trader.wf(),
{
    if !ctx.config.admin.same(&ctx.admin) {
        return Err(ErrorCode::Unauthorized);
    }
    if TraderTier::from_u8(tier).is_none() {
        return Err(ErrorCode::InvalidTraderTier);
    }
    let old_tier: u8 = ctx.trader.tier;
    ctx.registry.recount(old_tier, tier);

    ctx.trader.tier = tier;
    ctx.trader.total_pnl = total_pnl;
    ctx.trader.win_rate = win_rate;
    ctx.trader.trade_count = trade_count;
    ctx.trader.total_volume = total_volume;
    ctx.trader.roi = roi;
    ctx.trader.last_trade_at = last_trade_at;
    ctx.trader.updated_at = now;

    ctx.registry.last_updated = now;
    Ok(())
}

/// The records that removing a trader works on.
#[derive(Clone, Copy, Debug, PartialEq, Eq)]
pub struct RemoveTrader {
    /// The caller, who signs.
    pub admin: Identity,
    pub config: ProgramConfig,
    pub registry: WhaleRegistry,
    /// The trader's record as it is stored; its slot is freed once the removal is done.
    pub trader: TrackedTrader,
}

impl RemoveTrader {
    /// The records after the trader is removed at `now`, or why they stay as they are.
    pub open spec fn outcome(self, now: i64) -> Result<RemoveTrader, ErrorCode> {
        if self.config.admin != self.admin {
            Err(ErrorCode::Unauthorized)
        } else {
            Ok(
                RemoveTrader {
                    registry: WhaleRegistry {
                        last_updated: now,
                        ..self.registry.counted_out(self.trader.tier)
                    },
                    ..self
                },
            )
        }
    }
}

/// Removes the trader in `ctx` at `now`: counts it out of the bucket of its tier. Only the
/// administrator may. Where the operation is refused, nothing changes. The address is that
/// of the record in `ctx` and is not read.
pub fn remove_trader(ctx: &mut RemoveTrader, _polygon_address: [u8; 20], now: i64) -> (r: Result<
    (),
    ErrorCode,
>)
    ensures
        match old(ctx).outcome(now) {
            Ok(after) => r is Ok && *final(ctx) == after,
            Err(e) => r == Err::<(), ErrorCode>(e) && *final(ctx) == *old(ctx),
        },
{
    if !ctx.config.admin.same(&ctx.admin) {
        return Err(ErrorCode::Unauthorized);
    }
    let tier: u8 = ctx.trader.tier;
    ctx.registry.count_out(tier);
    ctx.registry.last_updated = now;
    Ok(())
}

} // verus!
