//! A ledger of small records that one administrator governs: a configuration with the
//! prices and durations of two plans, the subscribers' entitlements, a registry that counts
//! tracked traders in two buckets, and a log of signals that are written once.
//!
//! The rules of each operation stand in [`instructions`], on the records that the
//! operation works on. The functions of this module apply them to a [`ledger::Ledger`],
//! which keeps the records in memory by their keys: each finds its records, applies the
//! rules and stores what they give, or refuses and changes nothing. What holds of every
//! sequence of operations is proved in [`laws`].

pub mod errors;
pub mod identity;
pub mod instructions;
pub mod keys;
pub mod laws;
pub mod ledger;
pub mod resolve;
pub mod state;
pub mod table;

use crate::errors::ErrorCode;
use crate::identity::Identity;
use crate::instructions::config::InitializeConfig;
use crate::instructions::movement::{RecordWhaleMovement, WhaleMovementEvent};
use crate::instructions::registry::{AddTrader, InitializeRegistry, RemoveTrader, UpdateTrader};
use crate::instructions::signal::PublishSignal;
use crate::instructions::subscription::{renewal_fits, Subscribe, TokenAccount, Transfer, TransferOutcome};
use crate::laws::{
    lemma_add_trader_keeps_counters, lemma_initialize_registry_keeps_counters,
    lemma_remove_trader_keeps_counters, lemma_update_trader_keeps_counters,
};
use crate::ledger::{Ledger, LedgerView};
use crate::state::Subscription;
use vstd::prelude::*;

verus! {

/// The ledger went from `before` to `after`, and the caller was told `told`, as `outcome`
/// asks: on success the ledger is the new one; on refusal the caller is told why and the
/// ledger is as it was.
pub open spec fn follows(
    before: LedgerView,
    after: LedgerView,
    told: Result<(), ErrorCode>,
    outcome: Result<LedgerView, ErrorCode>,
) -> bool {
    match outcome {
        Ok(next) => told is Ok && after == next,
        Err(e) => told == Err::<(), ErrorCode>(e) && after == before,
    }
}

/// The ledger after the configuration is created, or why it is not.
pub open spec fn spec_initialize_config(
    l: LedgerView,
    admin: Identity,
    treasury: Identity,
    basic_price: u64,
    pro_price: u64,
    basic_duration: i64,
    pro_duration: i64,
) -> Result<LedgerView, ErrorCode> {
    match InitializeConfig::spec_resolve(l, admin, treasury) {
        Err(e) => Err(e),
        Ok(ctx) => Ok(
            LedgerView {
                config: Some(
                    ctx.outcome(basic_price, pro_price, basic_duration, pro_duration).config,
                ),
                ..l
            },
        ),
    }
}

/// Creates the configuration, with `admin` as the administrator and `treasury` as the
/// receiver of payments. It can be created once: a second call is refused.
pub fn initialize_config(
    ledger: &mut Ledger,
    admin: Identity,
    treasury: Identity,
    basic_price: u64,
    pro_price: u64,
    basic_duration: i64,
    pro_duration: i64,
) -> (r: Result<(), ErrorCode>)
    ensures
        follows(
            old(ledger)@,
            final(ledger)@,
            r,
            spec_initialize_config(
                old(ledger)@,
                admin,
                treasury,
                basic_price,
                pro_price,
                basic_duration,
                pro_duration,
            ),
        ),
        old(ledger)@.counters_consistent() ==> final(ledger)@.counters_consistent(),
        old(ledger)@.records_wf() ==> final(ledger)@.records_wf(),
{
    let mut ctx = match InitializeConfig::resolve(ledger, admin, treasury) {
        Ok(ctx) => ctx,
        Err(e) => {
            return Err(e);
        },
    };
    match instructions::config::initialize_config(
        &mut ctx,
        basic_price,
        pro_price,
        basic_duration,
        pro_duration,
    ) {
        Ok(()) => {
            ledger.set_config(ctx.config);
            Ok(())
        },
        Err(e) => Err(e),
    }
}

/// The entitlement that `user` holds: the stored one, or a zeroed one.
pub open spec fn current_subscription(l: LedgerView, user: Identity) -> Subscription {
    match l.subscription(user) {
        Some(subscription) => subscription,
        None => Subscription::spec_zeroed(),
    }
}

/// Whether a subscription of `user` to plan `tier` at `now` leaves an end and a total that
/// can be stored.
pub open spec fn subscription_fits(l: LedgerView, user: Identity, tier: u8, now: i64) -> bool {
    match l.config {
        Some(config) => match config.spec_plan(tier) {
            Some((price, duration)) => renewal_fits(
                current_subscription(l, user),
                price,
                duration,
                now,
            ),
            None => true,
        },
        None => true,
    }
}

/// Tells whether a subscription of `user` to plan `tier` at `now` leaves an end and a
/// total that can be stored. `subscribe` asks this of its caller.
pub fn can_store_subscription(ledger: &Ledger, user: &Identity, tier: u8, now: i64) -> (r: bool)
    ensures
        r == subscription_fits(ledger@, *user, tier, now),
{
    let config = match ledger.config() {
        Some(config) => config,
        None => {
            return true;
        },
    };
    let current = match ledger.subscription(user) {
        Some(subscription) => subscription,
        None => Subscription::zeroed(),
    };
    match config.plan(tier) {
        None => true,
        Some((price, duration)) => {
            let base: i64 = if current.is_active(now) {
                current.expires_at
            } else {
                now
            };
            base.checked_add(duration).is_some() && current.total_paid.checked_add(price).is_some()
        },
    }
}

/// The payment that a subscription of `user` to plan `tier` asks for, or why there is none.
pub open spec fn spec_transfer_request(
    l: LedgerView,
    user: Identity,
    user_usdc: TokenAccount,
    treasury_usdc: TokenAccount,
    usdc_mint: Identity,
    tier: u8,
) -> Result<Transfer, ErrorCode> {
    match Subscribe::spec_resolve(l, user, user_usdc, treasury_usdc, usdc_mint) {
        Err(e) => Err(e),
        Ok(ctx) => ctx.spec_transfer_request(tier),
    }
}

/// Says which payment a subscription of `user` to plan `tier` asks for. The ledger does
/// not change: the payment ledger is asked to make this transfer, and its answer goes to
/// `subscribe`.
pub fn transfer_request(
    ledger: &Ledger,
    user: Identity,
    user_usdc: TokenAccount,
    treasury_usdc: TokenAccount,
    usdc_mint: Identity,
    tier: u8,
) -> (r: Result<Transfer, ErrorCode>)
    ensures
        r == spec_transfer_request(ledger@, user, user_usdc, treasury_usdc, usdc_mint, tier),
{
    match Subscribe::resolve(ledger, user, user_usdc, treasury_usdc, usdc_mint) {
        Ok(ctx) => instructions::subscription::transfer_request(&ctx, tier),
        Err(e) => Err(e),
    }
}

/// The ledger after `user` subscribes to plan `tier` at `now`, given what the payment
/// ledger answered; or why the subscription is refused.
pub open spec fn spec_subscribe(
    l: LedgerView,
    user: Identity,
    user_usdc: TokenAccount,
    treasury_usdc: TokenAccount,
    usdc_mint: Identity,
    tier: u8,
    payment: TransferOutcome,
    now: i64,
) -> Result<LedgerView, ErrorCode> {
    match Subscribe::spec_resolve(l, user, user_usdc, treasury_usdc, usdc_mint) {
        Err(e) => Err(e),
        Ok(ctx) => match ctx.outcome(tier, payment, now) {
            Err(e) => Err(e),
            Ok(after) => Ok(
                LedgerView { subscriptions: l.subscriptions.insert(user, after.subscription), ..l },
            ),
        },
    }
}

/// Subscribes `user` to plan `tier` at `now`, paying from `user_usdc` to `treasury_usdc`,
/// after the payment ledger has answered `payment` to the transfer of the plan's price.
/// The first subscription of a user creates the entitlement; later ones renew it.
pub fn subscribe(
    ledger: &mut Ledger,
    user: Identity,
    user_usdc: TokenAccount,
    treasury_usdc: TokenAccount,
    usdc_mint: Identity,
    tier: u8,
    payment: TransferOutcome,
    now: i64,
) -> (r: Result<(), ErrorCode>)
    requires
        payment is Completed ==> subscription_fits(old(ledger)@, user, tier, now),
    ensures
        follows(
            old(ledger)@,
            final(ledger)@,
            r,
            spec_subscribe(
                old(ledger)@,
                user,
                user_usdc,
                treasury_usdc,
                usdc_mint,
                tier,
                payment,
                now,
            ),
        ),
        old(ledger)@.counters_consistent() ==> final(ledger)@.counters_consistent(),
        old(ledger)@.records_wf() && old(ledger)@.durations_not_negative()
            ==> final(ledger)@.records_wf(),
{
    let mut ctx = match Subscribe::resolve(ledger, user, user_usdc, treasury_usdc, usdc_mint) {
        Ok(ctx) => ctx,
        Err(e) => {
            return Err(e);
        },
    };
    match instructions::subscription::subscribe(&mut ctx, tier, payment, now) {
        Ok(()) => {
            ledger.put_subscription(ctx.subscription);
            Ok(())
        },
        Err(e) => Err(e),
    }
}

/// The ledger after the registry is created at `now`, or why it is not.
pub open spec fn spec_initialize_registry(l: LedgerView, admin: Identity, now: i64) -> Result<
    LedgerView,
    ErrorCode,
> {
    match InitializeRegistry::spec_resolve(l, admin) {
        Err(e) => Err(e),
        Ok(ctx) => match ctx.outcome(now) {
            Err(e) => Err(e),
            Ok(after) => Ok(LedgerView { registry: Some(after.registry), ..l }),
        },
    }
}

/// Creates the registry at `now`, with both counters at zero. Only the administrator may,
/// and once: a second call is refused.
pub fn initialize_registry(ledger: &mut Ledger, admin: Identity, now: i64) -> (r: Result<
    (),
    ErrorCode,
>)
    ensures
        follows(
            old(ledger)@,
            final(ledger)@,
            r,
            spec_initialize_registry(old(ledger)@, admin, now),
        ),
        old(ledger)@.counters_consistent() ==> final(ledger)@.counters_consistent(),
        old(ledger)@.records_wf() ==> final(ledger)@.records_wf(),
{
    proof {
        ledger.lemma_view_wf();
        if ledger@.counters_consistent() {
            lemma_initialize_registry_keeps_counters(ledger@, admin, now);
        }
    }
    let mut ctx = match InitializeRegistry::resolve(ledger, admin) {
        Ok(ctx) => ctx,
        Err(e) => {
            return Err(e);
        },
    };
    match instructions::registry::initialize_registry(&mut ctx, now) {
        Ok(()) => {
            ledger.set_registry(ctx.registry);
            Ok(())
        },
        Err(e) => Err(e),
    }
}

/// The ledger after the trader at `polygon_address` is added at `now`, or why it is not.
pub open spec fn spec_add_trader(
    l: LedgerView,
    admin: Identity,
    polygon_address: [u8; 20],
    tier: u8,
    total_pnl: i64,
    win_rate: u16,
    trade_count: u32,
    total_volume: u64,
    roi: i32,
    now: i64,
) -> Result<LedgerView, ErrorCode> {
    match AddTrader::spec_resolve(l, admin, polygon_address) {
        Err(e) => Err(e),
        Ok(ctx) => match ctx.outcome(
            polygon_address,
            tier,
            total_pnl,
            win_rate,
            trade_count,
            total_volume,
            roi,
            now,
        ) {
            Err(e) => Err(e),
            Ok(after) => Ok(
                LedgerView {
                    registry: Some(after.registry),
                    traders: l.traders.insert(polygon_address, after.trader),
                    ..l
                },
            ),
        },
    }
}

/// Adds the trader at `polygon_address` at `now` and counts it in the registry, in one
/// step. Only the administrator may; an address that is already tracked and a tier above 4
/// are refused.
pub fn add_trader(
    ledger: &mut Ledger,
    admin: Identity,
    polygon_address: [u8; 20],
    tier: u8,
    total_pnl: i64,
    win_rate: u16,
    trade_count: u32,
    total_volume: u64,
    roi: i32,
    now: i64,
) -> (r: Result<(), ErrorCode>)
    ensures
        follows(
            old(ledger)@,
            final(ledger)@,
            r,
            spec_add_trader(
                old(ledger)@,
                admin,
                polygon_address,
                tier,
                total_pnl,
                win_rate,
                trade_count,
                total_volume,
                roi,
                now,
            ),
        ),
        tier > 4 ==> r is Err && final(ledger)@ == old(ledger)@,
        tier > 4 && AddTrader::spec_resolve(old(ledger)@, admin, polygon_address) is Ok ==> r
            == Err::<(), ErrorCode>(ErrorCode::InvalidTraderTier),
        old(ledger)@.counters_consistent() && old(ledger)@.traders.dom().len() < u32::MAX
            ==> final(ledger)@.counters_consistent(),
        old(ledger)@.records_wf() ==> final(ledger)@.records_wf(),
{
    proof {
        ledger.lemma_view_wf();
        if ledger@.counters_consistent() && ledger@.traders.dom().len() < u32::MAX {
            lemma_add_trader_keeps_counters(
                ledger@,
                admin,
                polygon_address,
                tier,
                total_pnl,
                win_rate,
                trade_count,
                total_volume,
                roi,
                now,
            );
        }
    }
    let mut ctx = match AddTrader::resolve(ledger, admin, &polygon_address) {
        Ok(ctx) => ctx,
        Err(e) => {
            return Err(e);
        },
    };
    match instructions::registry::add_trader(
        &mut ctx,
        polygon_address,
        tier,
        total_pnl,
        win_rate,
        trade_count,
        total_volume,
        roi,
        now,
    ) {
        Ok(()) => {
            ledger.set_registry(ctx.registry);
            ledger.put_trader(ctx.trader);
            Ok(())
        },
        Err(e) => Err(e),
    }
}

/// The ledger after the trader at `polygon_address` is updated at `now`, or why it is not.
pub open spec fn spec_update_trader(
    l: LedgerView,
    admin: Identity,
    polygon_address: [u8; 20],
    tier: u8,
    total_pnl: i64,
    win_rate: u16,
    trade_count: u32,
    total_volume: u64,
    roi: i32,
    last_trade_at: i64,
    now: i64,
) -> Result<LedgerView, ErrorCode> {
    match UpdateTrader::spec_resolve(l, admin, polygon_address) {
        Err(e) => Err(e),
        Ok(ctx) => match ctx.outcome(
            tier,
            total_pnl,
            win_rate,
            trade_count,
            total_volume,
            roi,
            last_trade_at,
            now,
        ) {
            Err(e) => Err(e),
            Ok(after) => Ok(
                LedgerView {
                    registry: Some(after.registry),
                    traders: l.traders.insert(polygon_address, after.trader),
                    ..l
                },
            ),
        },
    }
}

/// Updates the trader at `polygon_address` at `now` and moves it between the registry's
/// buckets where its tier changes, in one step. Only the administrator may; an address
/// that is not tracked and a tier above 4 are refused.
pub fn update_trader(
    ledger: &mut Ledger,
    admin: Identity,
    polygon_address: [u8; 20],
    tier: u8,
    total_pnl: i64,
    win_rate: u16,
    trade_count: u32,
    total_volume: u64,
    roi: i32,
    last_trade_at: i64,
    now: i64,
) -> (r: Result<(), ErrorCode>)
    ensures
        follows(
            old(ledger)@,
            final(ledger)@,
            r,
            spec_update_trader(
                old(ledger)@,
                admin,
                polygon_address,
                tier,
                total_pnl,
                win_rate,
                trade_count,
                total_volume,
                roi,
                last_trade_at,
                now,
            ),
        ),
        old(ledger)@.counters_consistent() && old(ledger)@.traders.dom().len() <= u32::MAX
            ==> final(ledger)@.counters_consistent(),
        old(ledger)@.records_wf() ==> final(ledger)@.records_wf(),
{
    proof {
        ledger.lemma_view_wf();
        if ledger@.counters_consistent() && ledger@.traders.dom().len() <= u32::MAX {
            lemma_update_trader_keeps_counters(
                ledger@,
                admin,
                polygon_address,
                tier,
                total_pnl,
                win_rate,
                trade_count,
                total_volume,
                roi,
                last_trade_at,
                now,
            );
        }
    }
    let mut ctx = match UpdateTrader::resolve(ledger, admin, &polygon_address) {
        Ok(ctx) => ctx,
        Err(e) => {
            return Err(e);
        },
    };
    match instructions::registry::update_trader(
        &mut ctx,
        polygon_address,
        tier,
        total_pnl,
        win_rate,
        trade_count,
        total_volume,
        roi,
        last_trade_at,
        now,
    ) {
        Ok(()) => {
            ledger.set_registry(ctx.registry);
            ledger.put_trader(ctx.trader);
            Ok(())
        },
        Err(e) => Err(e),
    }
}

/// The ledger after the trader at `polygon_address` is removed at `now`, or why it is not.
pub open spec fn spec_remove_trader(
    l: LedgerView,
    admin: Identity,
    polygon_address: [u8; 20],
    now: i64,
) -> Result<LedgerView, ErrorCode> {
    match RemoveTrader::spec_resolve(l, admin, polygon_address) {
        Err(e) => Err(e),
        Ok(ctx) => match ctx.outcome(now) {
            Err(e) => Err(e),
            Ok(after) => Ok(
                LedgerView {
                    registry: Some(after.registry),
                    traders: l.traders.remove(polygon_address),
                    ..l
                },
            ),
        },
    }
}

/// Removes the trader at `polygon_address` at `now`: counts it out of the registry and
/// frees its slot, in one step. Only the administrator may; an address that is not tracked
/// is refused.
pub fn remove_trader(ledger: &mut Ledger, admin: Identity, polygon_address: [u8; 20], now: i64) -> (r:
    Result<(), ErrorCode>)
    ensures
        follows(
            old(ledger)@,
            final(ledger)@,
            r,
            spec_remove_trader(old(ledger)@, admin, polygon_address, now),
        ),
        old(ledger)@.counters_consistent() ==> final(ledger)@.counters_consistent(),
        old(ledger)@.records_wf() ==> final(ledger)@.records_wf(),
{
    proof {
        ledger.lemma_view_wf();
        if ledger@.counters_consistent() {
            lemma_remove_trader_keeps_counters(ledger@, admin, polygon_address, now);
        }
    }
    let mut ctx = match RemoveTrader::resolve(ledger, admin, &polygon_address) {
        Ok(ctx) => ctx,
        Err(e) => {
            return Err(e);
        },
    };
    match instructions::registry::remove_trader(&mut ctx, polygon_address, now) {
        Ok(()) => {
            ledger.set_registry(ctx.registry);
            ledger.remove_trader(&polygon_address);
            Ok(())
        },
        Err(e) => Err(e),
    }
}

/// The ledger after the signal on `asset` detected at `detected_at` is published, or why
/// it is not.
pub open spec fn spec_publish_signal(
    l: LedgerView,
    publisher: Identity,
    pyth_feed: Identity,
    asset: [u8; 16],
    detected_at: i64,
    price: i64,
    confidence: u64,
    baseline_confidence: u64,
    multiplier: u16,
    severity: u8,
) -> Result<LedgerView, ErrorCode> {
    match PublishSignal::spec_resolve(l, publisher, pyth_feed, asset, detected_at) {
        Err(e) => Err(e),
        Ok(ctx) => match ctx.outcome(
            asset,
            detected_at,
            price,
            confidence,
            baseline_confidence,
            multiplier,
            severity,
        ) {
            Err(e) => Err(e),
            Ok(after) => Ok(
                LedgerView { signals: l.signals.insert((asset, detected_at), after.signal), ..l },
            ),
        },
    }
}

/// Publishes the signal on `asset` detected at `detected_at`. Only the administrator may.
/// A signal is published once: a second one on the same asset at the same time is refused,
/// and so is a severity above 2.
pub fn publish_signal(
    ledger: &mut Ledger,
    publisher: Identity,
    pyth_feed: Identity,
    asset: [u8; 16],
    detected_at: i64,
    price: i64,
    confidence: u64,
    baseline_confidence: u64,
    multiplier: u16,
    severity: u8,
) -> (r: Result<(), ErrorCode>)
    ensures
        follows(
            old(ledger)@,
            final(ledger)@,
            r,
            spec_publish_signal(
                old(ledger)@,
                publisher,
                pyth_feed,
                asset,
                detected_at,
                price,
                confidence,
                baseline_confidence,
                multiplier,
                severity,
            ),
        ),
        old(ledger)@.counters_consistent() ==> final(ledger)@.counters_consistent(),
        old(ledger)@.records_wf() ==> final(ledger)@.records_wf(),
{
    let mut ctx = match PublishSignal::resolve(ledger, publisher, pyth_feed, &asset, detected_at) {
        Ok(ctx) => ctx,
        Err(e) => {
            return Err(e);
        },
    };
    match instructions::signal::publish_signal(
        &mut ctx,
        asset,
        detected_at,
        price,
        confidence,
        baseline_confidence,
        multiplier,
        severity,
    ) {
        Ok(()) => {
            ledger.put_signal(ctx.signal);
            Ok(())
        },
        Err(e) => Err(e),
    }
}

/// Why no movement of the trader at `polygon_address` can be reported, if none can.
pub open spec fn movement_refusal(l: LedgerView, admin: Identity, polygon_address: [u8; 20]) -> Option<
    ErrorCode,
> {
    match RecordWhaleMovement::spec_resolve(l, admin, polygon_address) {
        Err(e) => Some(e),
        Ok(ctx) => ctx.refusal(),
    }
}

/// Reports at `now` that the trader at `polygon_address` has moved `amount` of `token` in
/// `direction`, and hands back the notice to emit. Only the administrator may; a trader
/// that is not tracked, or that has no identity linked, gets no notice. The ledger is only
/// read.
pub fn record_whale_movement(
    ledger: &Ledger,
    admin: Identity,
    polygon_address: [u8; 20],
    amount: u64,
    token: String,
    direction: String,
    now: i64,
) -> (r: Result<WhaleMovementEvent, ErrorCode>)
    ensures
        match movement_refusal(ledger@, admin, polygon_address) {
            Some(e) => r == Err::<WhaleMovementEvent, ErrorCode>(e),
            None => r == Ok::<WhaleMovementEvent, ErrorCode>(
                WhaleMovementEvent {
                    polygon_address,
                    solana_address: ledger@.traders[polygon_address].solana_address->0,
                    amount,
                    token,
                    direction,
                    timestamp: now,
                },
            ),
        },
{
    match RecordWhaleMovement::resolve(ledger, admin, &polygon_address) {
        Ok(ctx) => instructions::movement::record_whale_movement(
            &ctx,
            polygon_address,
            amount,
            token,
            direction,
            now,
        ),
        Err(e) => Err(e),
    }
}

} // verus!

