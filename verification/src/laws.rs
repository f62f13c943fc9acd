//! What holds of the ledger whatever operations are made on it: the registry's counters
//! follow the traders, records stay well formed, renewals extend and restart as they
//! should, payments add up, and a signal is written once.

use crate::errors::ErrorCode;
use crate::identity::Identity;
use crate::instructions::subscription::{renewal_fits, renewed, Subscribe, TransferOutcome};
use crate::ledger::LedgerView;
use crate::state::{is_degen, Subscription};
use crate::instructions::subscription::TokenAccount;
use crate::{
    current_subscription, follows, spec_add_trader, spec_initialize_config,
    spec_initialize_registry, spec_publish_signal, spec_remove_trader, spec_subscribe,
    spec_update_trader, subscription_fits,
};
use vstd::prelude::*;

verus! {

/// The degen bucket holds some of the traders, so no more than there are.
pub proof fn lemma_degens_are_traders(l: LedgerView)
    requires
        l.traders.dom().finite(),
    ensures
        l.degens().subset_of(l.traders.dom()),
        l.degens().finite(),
        l.degens().len() <= l.traders.dom().len(),
{
    assert(l.degens().subset_of(l.traders.dom()));
    vstd::set_lib::lemma_set_subset_finite(l.traders.dom(), l.degens());
    vstd::set_lib::lemma_len_subset(l.degens(), l.traders.dom());
}

/// A ledger without records is well formed and its counters are consistent.
pub proof fn lemma_empty_ledger_is_consistent(program_id: Identity)
    ensures
        LedgerView::empty(program_id).wf(),
        LedgerView::empty(program_id).counters_consistent(),
{
}

/// Creating the registry keeps the counters consistent: it starts at zero, and no trader
/// can have been added before it.
pub proof fn lemma_initialize_registry_keeps_counters(l: LedgerView, admin: Identity, now: i64)
    requires
        l.wf(),
        l.counters_consistent(),
    ensures
        spec_initialize_registry(l, admin, now) matches Ok(after) ==> after.wf()
            && after.counters_consistent(),
{
    if let Ok(after) = spec_initialize_registry(l, admin, now) {
        lemma_degens_are_traders(after);
    }
}

/// Adding a trader keeps the counters consistent, as long as the number of traders can
/// still be counted: there is one trader more, counted in the bucket of its tier.
pub proof fn lemma_add_trader_keeps_counters(
    l: LedgerView,
    admin: Identity,
    polygon_address: [u8; 20],
    tier: u8,
    total_pnl: i64,
    win_rate: u16,
    trade_count: u32,
    total_volume: u64,
    roi: i32,
    now: i64,
)
    requires
        l.wf(),
        l.counters_consistent(),
        l.traders.dom().len() < u32::MAX,
    ensures
        spec_add_trader(
            l,
            admin,
            polygon_address,
            tier,
            total_pnl,
            win_rate,
            trade_count,
            total_volume,
            roi,
            now,
        ) matches Ok(after) ==> after.wf() && after.counters_consistent()
            && after.traders.dom().len() == l.traders.dom().len() + 1,
{
    if let Ok(after) = spec_add_trader(
        l,
        admin,
        polygon_address,
        tier,
        total_pnl,
        win_rate,
        trade_count,
        total_volume,
        roi,
        now,
    ) {
        lemma_degens_are_traders(l);
        assert(after.traders.dom() =~= l.traders.dom().insert(polygon_address));
        if is_degen(tier) {
            assert(after.degens() =~= l.degens().insert(polygon_address));
        } else {
            assert(after.degens() =~= l.degens());
        }
    }
}

/// Updating a trader keeps the counters consistent, as long as the number of traders can
/// be counted: there are as many traders as before, and the updated one is counted in the
/// bucket of its new tier only.
pub proof fn lemma_update_trader_keeps_counters(
    l: LedgerView,
    admin: Identity,
    polygon_address: [u8; 20],
    tier: u8,
    total_pnl: i64,
    win_rate: u16,
    trade_count: u32,
    total_volume: u64,
    roi: i32,
    last_trade_at: i64,
    now: i64,
)
    requires
        l.wf(),
        l.counters_consistent(),
        l.traders.dom().len() <= u32::MAX,
    ensures
        spec_update_trader(
            l,
            admin,
            polygon_address,
            tier,
            total_pnl,
            win_rate,
            trade_count,
            total_volume,
            roi,
            last_trade_at,
            now,
        ) matches Ok(after) ==> after.wf() && after.counters_consistent()
            && after.traders.dom().len() == l.traders.dom().len(),
{
    if let Ok(after) = spec_update_trader(
        l,
        admin,
        polygon_address,
        tier,
        total_pnl,
        win_rate,
        trade_count,
        total_volume,
        roi,
        last_trade_at,
        now,
    ) {
        lemma_degens_are_traders(l);
        let old_tier = l.traders[polygon_address].tier;
        assert(after.traders.dom() =~= l.traders.dom());
        if is_degen(tier) {
            assert(after.degens() =~= l.degens().insert(polygon_address));
        } else {
            assert(after.degens() =~= l.degens().remove(polygon_address));
        }
        if !is_degen(old_tier) {
            // The trader is one of those that the whale counter counts.
            let others = l.traders.dom().remove(polygon_address);
            assert(l.degens().subset_of(others));
            vstd::set_lib::lemma_len_subset(l.degens(), others);
        }
    }
}

/// Removing a trader keeps the counters consistent: there is one trader fewer, counted
/// out of the bucket of its tier.
pub proof fn lemma_remove_trader_keeps_counters(
    l: LedgerView,
    admin: Identity,
    polygon_address: [u8; 20],
    now: i64,
)
    requires
        l.wf(),
        l.counters_consistent(),
    ensures
        spec_remove_trader(l, admin, polygon_address, now) matches Ok(after) ==> after.wf()
            && after.counters_consistent() && after.traders.dom().len() + 1
            == l.traders.dom().len(),
{
    if let Ok(after) = spec_remove_trader(l, admin, polygon_address, now) {
        lemma_degens_are_traders(l);
        let old_tier = l.traders[polygon_address].tier;
        assert(after.traders.dom() =~= l.traders.dom().remove(polygon_address));
        assert(after.degens() =~= l.degens().remove(polygon_address));
        if !is_degen(old_tier) {
            let others = l.traders.dom().remove(polygon_address);
            assert(l.degens().subset_of(others));
            vstd::set_lib::lemma_len_subset(l.degens(), others);
        }
    }
}

/// One call that may change the ledger.
pub enum Call {
    InitializeConfig {
        admin: Identity,
        treasury: Identity,
        basic_price: u64,
        pro_price: u64,
        basic_duration: i64,
        pro_duration: i64,
    },
    Subscribe {
        user: Identity,
        user_usdc: TokenAccount,
        treasury_usdc: TokenAccount,
        usdc_mint: Identity,
        tier: u8,
        payment: TransferOutcome,
        now: i64,
    },
    InitializeRegistry { admin: Identity, now: i64 },
    AddTrader {
        admin: Identity,
        polygon_address: [u8; 20],
        tier: u8,
        total_pnl: i64,
        win_rate: u16,
        trade_count: u32,
        total_volume: u64,
        roi: i32,
        now: i64,
    },
    UpdateTrader {
        admin: Identity,
        polygon_address: [u8; 20],
        tier: u8,
        total_pnl: i64,
        win_rate: u16,
        trade_count: u32,
        total_volume: u64,
        roi: i32,
        last_trade_at: i64,
        now: i64,
    },
    RemoveTrader { admin: Identity, polygon_address: [u8; 20], now: i64 },
    PublishSignal {
        publisher: Identity,
        pyth_feed: Identity,
        asset: [u8; 16],
        detected_at: i64,
        price: i64,
        confidence: u64,
        baseline_confidence: u64,
        multiplier: u16,
        severity: u8,
    },
}

/// What the call makes of the ledger, or why it is refused.
pub open spec fn call_outcome(l: LedgerView, call: Call) -> Result<LedgerView, ErrorCode> {
    match call {
        Call::InitializeConfig {
            admin,
            treasury,
            basic_price,
            pro_price,
            basic_duration,
            pro_duration,
        } => spec_initialize_config(
            l,
            admin,
            treasury,
            basic_price,
            pro_price,
            basic_duration,
            pro_duration,
        ),
        Call::Subscribe { user, user_usdc, treasury_usdc, usdc_mint, tier, payment, now } => {
            spec_subscribe(l, user, user_usdc, treasury_usdc, usdc_mint, tier, payment, now)
        },
        Call::InitializeRegistry { admin, now } => spec_initialize_registry(l, admin, now),
        Call::AddTrader {
            admin,
            polygon_address,
            tier,
            total_pnl,
            win_rate,
            trade_count,
            total_volume,
            roi,
            now,
        } => spec_add_trader(
            l,
            admin,
            polygon_address,
            tier,
            total_pnl,
            win_rate,
            trade_count,
            total_volume,
            roi,
            now,
        ),
        Call::UpdateTrader {
            admin,
            polygon_address,
            tier,
            total_pnl,
            win_rate,
            trade_count,
            total_volume,
            roi,
            last_trade_at,
            now,
        } => spec_update_trader(
            l,
            admin,
            polygon_address,
            tier,
            total_pnl,
            win_rate,
            trade_count,
            total_volume,
            roi,
            last_trade_at,
            now,
        ),
        Call::RemoveTrader { admin, polygon_address, now } => spec_remove_trader(
            l,
            admin,
            polygon_address,
            now,
        ),
        Call::PublishSignal {
            publisher,
            pyth_feed,
            asset,
            detected_at,
            price,
            confidence,
            baseline_confidence,
            multiplier,
            severity,
        } => spec_publish_signal(
            l,
            publisher,
            pyth_feed,
            asset,
            detected_at,
            price,
            confidence,
            baseline_confidence,
            multiplier,
            severity,
        ),
    }
}

/// The ledger after the call: the new one, or the same one where the call is refused.
pub open spec fn after_call(l: LedgerView, call: Call) -> LedgerView {
    match call_outcome(l, call) {
        Ok(after) => after,
        Err(_) => l,
    }
}

/// The ledger after the calls, made one after another.
pub open spec fn after_calls(l: LedgerView, calls: Seq<Call>) -> LedgerView
    decreases calls.len(),
{
    if calls.len() == 0 {
        l
    } else {
        after_call(after_calls(l, calls.drop_last()), calls.last())
    }
}

/// One call keeps the ledger well formed and the counters consistent, as long as the
/// number of traders can still be counted, and adds one trader at most.
pub proof fn lemma_call_keeps_counters(l: LedgerView, call: Call)
    requires
        l.wf(),
        l.counters_consistent(),
        l.traders.dom().len() < u32::MAX,
    ensures
        after_call(l, call).wf(),
        after_call(l, call).counters_consistent(),
        after_call(l, call).traders.dom().len() <= l.traders.dom().len() + 1,
{
    match call {
        Call::InitializeConfig { .. } => {},
        Call::Subscribe { .. } => {},
        Call::InitializeRegistry { admin, now } => {
            lemma_initialize_registry_keeps_counters(l, admin, now);
        },
        Call::AddTrader {
            admin,
            polygon_address,
            tier,
            total_pnl,
            win_rate,
            trade_count,
            total_volume,
            roi,
            now,
        } => {
            lemma_add_trader_keeps_counters(
                l,
                admin,
                polygon_address,
                tier,
                total_pnl,
                win_rate,
                trade_count,
                total_volume,
                roi,
                now,
            );
        },
        Call::UpdateTrader {
            admin,
            polygon_address,
            tier,
            total_pnl,
            win_rate,
            trade_count,
            total_volume,
            roi,
            last_trade_at,
            now,
        } => {
            lemma_update_trader_keeps_counters(
                l,
                admin,
                polygon_address,
                tier,
                total_pnl,
                win_rate,
                trade_count,
                total_volume,
                roi,
                last_trade_at,
                now,
            );
        },
        Call::RemoveTrader { admin, polygon_address, now } => {
            lemma_remove_trader_keeps_counters(l, admin, polygon_address, now);
        },
        Call::PublishSignal { .. } => {},
    }
}

/// Whatever traders are added, updated and removed, in whatever order and with whatever
/// other calls between them, the registry's counters keep saying how many traders there
/// are: the two together count every trader, and the degen counter counts those of tier 4.
/// This holds as long as the number of traders can be counted, which it can while the
/// traders at the start and the calls together are no more than the largest count.
pub proof fn lemma_counters_track_membership(l: LedgerView, calls: Seq<Call>)
    requires
        l.wf(),
        l.counters_consistent(),
        l.traders.dom().len() + calls.len() <= u32::MAX,
    ensures
        after_calls(l, calls).wf(),
        after_calls(l, calls).counters_consistent(),
        after_calls(l, calls).traders.dom().len() <= l.traders.dom().len() + calls.len(),
        after_calls(l, calls).registry matches Some(registry) ==> {
            &&& registry.whale_count + registry.degen_count == after_calls(
                l,
                calls,
            ).traders.dom().len()
            &&& registry.degen_count == after_calls(l, calls).degens().len()
        },
    decreases calls.len(),
{
    if calls.len() > 0 {
        lemma_counters_track_membership(l, calls.drop_last());
        lemma_call_keeps_counters(after_calls(l, calls.drop_last()), calls.last());
    }
}

/// From its creation on, a ledger's counters say how many traders there are, whatever
/// calls are made on it, as long as the calls are no more than the largest count.
pub proof fn lemma_counters_consistent_from_the_start(program_id: Identity, calls: Seq<Call>)
    requires
        calls.len() <= u32::MAX,
    ensures
        after_calls(LedgerView::empty(program_id), calls).wf(),
        after_calls(LedgerView::empty(program_id), calls).counters_consistent(),
{
    lemma_empty_ledger_is_consistent(program_id);
    lemma_counters_track_membership(LedgerView::empty(program_id), calls);
}

/// What the law below asks of a call made on the ledger `l`: a configuration is created
/// with durations that are not negative, and a subscription that is paid leaves an end and
/// a total that can be stored.
pub open spec fn keeps_records_storable(l: LedgerView, call: Call) -> bool {
    match call {
        Call::InitializeConfig { basic_duration, pro_duration, .. } => basic_duration >= 0
            && pro_duration >= 0,
        Call::Subscribe { user, tier, payment, now, .. } => payment is Completed
            ==> subscription_fits(l, user, tier, now),
        _ => true,
    }
}

/// Each call, when it is made, meets what `keeps_records_storable` asks.
pub open spec fn keep_records_storable(l: LedgerView, calls: Seq<Call>) -> bool
    decreases calls.len(),
{
    calls.len() > 0 ==> {
        &&& keep_records_storable(l, calls.drop_last())
        &&& keeps_records_storable(after_calls(l, calls.drop_last()), calls.last())
    }
}

/// Whatever calls are made, every record stays well formed: no trader has a tier above 4,
/// no signal a severity above 2, no entitlement a plan number above 2, and no entitlement
/// ends before it starts. The last holds where no plan lasts a negative time.
pub proof fn lemma_records_stay_well_formed(l: LedgerView, calls: Seq<Call>)
    requires
        l.records_wf(),
        l.durations_not_negative(),
        keep_records_storable(l, calls),
    ensures
        after_calls(l, calls).records_wf(),
        after_calls(l, calls).durations_not_negative(),
    decreases calls.len(),
{
    if calls.len() > 0 {
        lemma_records_stay_well_formed(l, calls.drop_last());
    }
}

/// A signal is published once. After a signal on an asset at a time is published, a second
/// call by the administrator on the same asset at the same time is refused because the
/// record exists, whatever else it says, and the first record stays as it was written.
pub proof fn lemma_signal_published_once(
    l: LedgerView,
    publisher: Identity,
    asset: [u8; 16],
    detected_at: i64,
    pyth_feed: Identity,
    price: i64,
    confidence: u64,
    baseline_confidence: u64,
    multiplier: u16,
    severity: u8,
    pyth_feed_2: Identity,
    price_2: i64,
    confidence_2: u64,
    baseline_confidence_2: u64,
    multiplier_2: u16,
    severity_2: u8,
    after_2: LedgerView,
    told_2: Result<(), ErrorCode>,
)
    requires
        spec_publish_signal(
            l,
            publisher,
            pyth_feed,
            asset,
            detected_at,
            price,
            confidence,
            baseline_confidence,
            multiplier,
            severity,
        ) matches Ok(after) && follows(
            after,
            after_2,
            told_2,
            spec_publish_signal(
                after,
                publisher,
                pyth_feed_2,
                asset,
                detected_at,
                price_2,
                confidence_2,
                baseline_confidence_2,
                multiplier_2,
                severity_2,
            ),
        ),
    ensures
        told_2 == Err::<(), ErrorCode>(ErrorCode::AccountAlreadyExists),
        told_2->Err_0.spec_kind() == crate::errors::ErrorKind::State,
        spec_publish_signal(
            l,
            publisher,
            pyth_feed,
            asset,
            detected_at,
            price,
            confidence,
            baseline_confidence,
            multiplier,
            severity,
        ) matches Ok(after) && after_2 == after && after_2.signal(asset, detected_at) == Some(
            crate::state::PythSignal {
                asset,
                pyth_feed,
                price,
                confidence,
                baseline_confidence,
                multiplier,
                severity,
                detected_at,
                publisher,
                bump: crate::keys::bump_of(
                    crate::keys::RecordKey::Signal { asset, detected_at },
                    l.program_id,
                )->0,
            },
        ),
{
}

/// A renewal keeps an entitlement well formed where the plan's number is a known one and
/// its duration is not negative: the entitlement still does not end before it starts.
pub proof fn lemma_renewal_keeps_window(
    sub: Subscription,
    user: Identity,
    tier: u8,
    price: u64,
    duration: i64,
    now: i64,
    bump: u8,
)
    requires
        sub.wf(),
        tier <= 2,
        duration >= 0,
        renewal_fits(sub, price, duration, now),
    ensures
        renewed(sub, user, tier, price, duration, now, bump).wf(),
        renewed(sub, user, tier, price, duration, now, bump).total_paid >= sub.total_paid,
{
}

/// Renewing early extends from the end, not from the time of renewal: a second
/// subscription to the same plan, made while the first still runs, ends one duration of
/// the plan after the first one's end. The start stays where the first one put it.
pub proof fn lemma_early_renewal_extends_from_expiry(
    ctx: Subscribe,
    tier: u8,
    first_at: i64,
    second_at: i64,
)
    requires
        ctx.outcome(tier, TransferOutcome::Completed, first_at) matches Ok(first)
            && first.subscription.expires_at > second_at && first.fits(tier, second_at),
    ensures
        ctx.outcome(tier, TransferOutcome::Completed, first_at) matches Ok(first) && first.outcome(
            tier,
            TransferOutcome::Completed,
            second_at,
        ) matches Ok(second) && ctx.config.spec_plan(tier) matches Some((_, duration)) && {
            &&& second.subscription.expires_at == first.subscription.expires_at + duration
            &&& first.subscription.started_at != 0 ==> second.subscription.started_at
                == first.subscription.started_at
        },
{
}

/// Subscribing after the entitlement has lapsed starts it anew: it starts at the time of
/// the renewal and ends one duration of the plan later.
pub proof fn lemma_renewal_after_expiry_restarts(ctx: Subscribe, tier: u8, now: i64)
    requires
        ctx.subscription.expires_at < now,
        ctx.fits(tier, now),
        ctx.outcome(tier, TransferOutcome::Completed, now) is Ok,
    ensures
        ctx.outcome(tier, TransferOutcome::Completed, now) matches Ok(after)
            && ctx.config.spec_plan(tier) matches Some((_, duration)) && {
            &&& after.subscription.started_at == now
            &&& after.subscription.expires_at == now + duration
        },
{
}

/// A subscription that goes through adds the price of the plan to what the subscriber has
/// paid in total, and leaves the other subscribers' entitlements as they were.
pub proof fn lemma_subscribe_charges_price(
    l: LedgerView,
    user: Identity,
    user_usdc: TokenAccount,
    treasury_usdc: TokenAccount,
    usdc_mint: Identity,
    tier: u8,
    payment: TransferOutcome,
    now: i64,
)
    requires
        subscription_fits(l, user, tier, now),
        spec_subscribe(l, user, user_usdc, treasury_usdc, usdc_mint, tier, payment, now) is Ok,
    ensures
        spec_subscribe(
            l,
            user,
            user_usdc,
            treasury_usdc,
            usdc_mint,
            tier,
            payment,
            now,
        ) matches Ok(after) && l.config matches Some(config) && config.spec_plan(tier) matches Some(
            (price, _),
        ) && {
            &&& after.subscription(user) matches Some(subscription) && subscription.total_paid
                == current_subscription(l, user).total_paid + price
            &&& forall|other: Identity|
                other != user ==> after.subscription(other) == l.subscription(other)
        },
{
}

/// One call to subscribe: the plan asked for, what the payment ledger answered, and when.
pub struct Purchase {
    pub tier: u8,
    pub payment: TransferOutcome,
    pub now: i64,
}

/// What the call charges: the price of the plan where the subscription goes through,
/// nothing where it is refused.
pub open spec fn charged(ctx: Subscribe, purchase: Purchase) -> int {
    match (
        ctx.outcome(purchase.tier, purchase.payment, purchase.now),
        ctx.config.spec_plan(purchase.tier),
    ) {
        (Ok(_), Some((price, _))) => price as int,
        _ => 0,
    }
}

/// The records after the call: the new ones, or the same ones where the call is refused.
pub open spec fn after_purchase(ctx: Subscribe, purchase: Purchase) -> Subscribe {
    match ctx.outcome(purchase.tier, purchase.payment, purchase.now) {
        Ok(after) => after,
        Err(_) => ctx,
    }
}

/// The records after the calls, made one after another.
pub open spec fn after_purchases(ctx: Subscribe, purchases: Seq<Purchase>) -> Subscribe
    decreases purchases.len(),
{
    if purchases.len() == 0 {
        ctx
    } else {
        after_purchase(after_purchases(ctx, purchases.drop_last()), purchases.last())
    }
}

/// What the calls charge together.
pub open spec fn total_charged(ctx: Subscribe, purchases: Seq<Purchase>) -> int
    decreases purchases.len(),
{
    if purchases.len() == 0 {
        0
    } else {
        total_charged(ctx, purchases.drop_last()) + charged(
            after_purchases(ctx, purchases.drop_last()),
            purchases.last(),
        )
    }
}

/// Each call, when it is made, leaves an end and a total that can be stored.
pub open spec fn purchases_fit(ctx: Subscribe, purchases: Seq<Purchase>) -> bool
    decreases purchases.len(),
{
    purchases.len() > 0 ==> {
        &&& purchases_fit(ctx, purchases.drop_last())
        &&& after_purchases(ctx, purchases.drop_last()).fits(
            purchases.last().tier,
            purchases.last().now,
        )
    }
}

/// After any number of calls to subscribe, the total paid has grown by the sum of the
/// prices that the calls charged, and the prices stand as they were.
pub proof fn lemma_total_paid_is_sum_of_prices(ctx: Subscribe, purchases: Seq<Purchase>)
    requires
        purchases_fit(ctx, purchases),
    ensures
        after_purchases(ctx, purchases).subscription.total_paid == ctx.subscription.total_paid
            + total_charged(ctx, purchases),
        after_purchases(ctx, purchases).config == ctx.config,
    decreases purchases.len(),
{
    if purchases.len() > 0 {
        lemma_total_paid_is_sum_of_prices(ctx, purchases.drop_last());
    }
}

} // verus!
