//! The records that the ledger keeps, with what makes each well formed, and the tiers
//! and severities that some of their fields stand for.

use crate::identity::Identity;
use vstd::prelude::*;

verus! {

/// The one configuration record: who may administer, where payments go, what each plan
/// costs and how long it lasts.
#[derive(Clone, Copy, Debug, PartialEq, Eq)]
pub struct ProgramConfig {
    pub admin: Identity,
    pub treasury: Identity,
    pub basic_price: u64,
    pub pro_price: u64,
    pub basic_duration: i64,
    pub pro_duration: i64,
    pub paused: bool,
    pub bump: u8,
}

impl ProgramConfig {
    /// Bytes that the stored record takes.
    pub const LEN: usize = 8 + 32 + 32 + 8 + 8 + 8 + 8 + 1 + 1;

    /// Price and duration of the plan with the given number, if there is such a plan.
    pub open spec fn spec_plan(self, tier: u8) -> Option<(u64, i64)> {
        if tier == 1 {
            Some((self.basic_price, self.basic_duration))
        } else if tier == 2 {
            Some((self.pro_price, self.pro_duration))
        } else {
            None
        }
    }

    /// Price and duration of the plan with the given number: 1 is the basic plan, 2 the pro
    /// plan, and there is no other.
    pub fn plan(&self, tier: u8) -> (r: Option<(u64, i64)>)
        ensures
            r == self.spec_plan(tier),
    {
        if tier == 1 {
            Some((self.basic_price, self.basic_duration))
        } else if tier == 2 {
            Some((self.pro_price, self.pro_duration))
        } else {
            None
        }
    }

    /// The record with every field at zero.
    pub open spec fn spec_zeroed() -> ProgramConfig {
        ProgramConfig {
            admin: Identity::spec_zero(),
            treasury: Identity::spec_zero(),
            basic_price: 0,
            pro_price: 0,
            basic_duration: 0,
            pro_duration: 0,
            paused: false,
            bump: 0,
        }
    }

    /// The record as it stands in a slot that was just allotted.
    pub fn zeroed() -> (r: ProgramConfig)
        ensures
            r == Self::spec_zeroed(),
    {
        ProgramConfig {
            admin: Identity::zero(),
            treasury: Identity::zero(),
            basic_price: 0,
            pro_price: 0,
            basic_duration: 0,
            pro_duration: 0,
            paused: false,
            bump: 0,
        }
    }
}

/// One subscriber's entitlement.
#[derive(Clone, Copy, Debug, PartialEq, Eq)]
pub struct Subscription {
    pub user: Identity,
    pub tier: u8,
    pub started_at: i64,
    pub expires_at: i64,
    pub total_paid: u64,
    pub bump: u8,
}

impl Subscription {
    /// Bytes that the stored record takes.
    pub const LEN: usize = 8 + 32 + 1 + 8 + 8 + 8 + 1;

    /// The plan number is one of the three known ones, and a subscription that has started
    /// does not end before it starts.
    pub open spec fn wf(self) -> bool {
        &&& self.tier <= 2
        &&& (self.started_at != 0 ==> self.expires_at >= self.started_at)
    }

    /// The record with every field at zero.
    pub open spec fn spec_zeroed() -> Subscription {
        Subscription {
            user: Identity::spec_zero(),
            tier: 0,
            started_at: 0,
            expires_at: 0,
            total_paid: 0,
            bump: 0,
        }
    }

    /// The record as it stands in a slot that was just allotted: nothing bought yet.
    pub fn zeroed() -> (r: Subscription)
        ensures
            r == Self::spec_zeroed(),
            r.wf(),
    {
        Subscription {
            user: Identity::zero(),
            tier: 0,
            started_at: 0,
            expires_at: 0,
            total_paid: 0,
            bump: 0,
        }
    }

    /// Whether the entitlement still runs at `now`.
    pub open spec fn spec_is_active(self, now: i64) -> bool {
        self.expires_at > now
    }

    /// Whether the entitlement still runs at `now`; it has lapsed once `now` reaches its end.
    pub fn is_active(&self, now: i64) -> (r: bool)
        ensures
            r == self.spec_is_active(now),
    {
        self.expires_at > now
    }
}

/// The plans a subscriber can hold.
#[derive(Clone, Copy, Debug, PartialEq, Eq, Structural)]
pub enum SubscriptionTier {
    Unsubscribed,
    Basic,
    Pro,
}

impl SubscriptionTier {
    pub open spec fn spec_to_u8(self) -> u8 {
        match self {
            SubscriptionTier::Unsubscribed => 0,
            SubscriptionTier::Basic => 1,
            SubscriptionTier::Pro => 2,
        }
    }

    /// The number under which the plan is stored.
    pub fn to_u8(self) -> (r: u8)
        ensures
            r == self.spec_to_u8(),
    {
        match self {
            SubscriptionTier::Unsubscribed => 0,
            SubscriptionTier::Basic => 1,
            SubscriptionTier::Pro => 2,
        }
    }

    pub open spec fn spec_from_u8(code: u8) -> Option<SubscriptionTier> {
        if code == 0 {
            Some(SubscriptionTier::Unsubscribed)
        } else if code == 1 {
            Some(SubscriptionTier::Basic)
        } else if code == 2 {
            Some(SubscriptionTier::Pro)
        } else {
            None
        }
    }

    /// The plan stored under `code`, if `code` is at most 2.
    pub fn from_u8(code: u8) -> (r: Option<SubscriptionTier>)
        ensures
            r == Self::spec_from_u8(code),
            r matches Some(t) ==> t.spec_to_u8() == code,
            r is None <==> code > 2,
    {
        if code == 0 {
            Some(SubscriptionTier::Unsubscribed)
        } else if code == 1 {
            Some(SubscriptionTier::Basic)
        } else if code == 2 {
            Some(SubscriptionTier::Pro)
        } else {
            None
        }
    }
}

/// Whether a trader of the given tier is counted under the degen counter: one of tier 4
/// is, and one of any other tier is counted under the whale counter.
pub open spec fn is_degen(tier: u8) -> bool {
    tier == 4
}

/// The registry: how many traders are tracked, in two buckets.
#[derive(Clone, Copy, Debug, PartialEq, Eq)]
pub struct WhaleRegistry {
    pub admin: Identity,
    pub whale_count: u32,
    pub degen_count: u32,
    pub last_updated: i64,
    pub bump: u8,
}

impl WhaleRegistry {
    /// Bytes that the stored record takes.
    pub const LEN: usize = 8 + 32 + 4 + 4 + 8 + 1;

    /// The record with every field at zero.
    pub open spec fn spec_zeroed() -> WhaleRegistry {
        WhaleRegistry {
            admin: Identity::spec_zero(),
            whale_count: 0,
            degen_count: 0,
            last_updated: 0,
            bump: 0,
        }
    }

    /// The record as it stands in a slot that was just allotted.
    pub fn zeroed() -> (r: WhaleRegistry)
        ensures
            r == Self::spec_zeroed(),
    {
        WhaleRegistry {
            admin: Identity::zero(),
            whale_count: 0,
            degen_count: 0,
            last_updated: 0,
            bump: 0,
        }
    }

    /// The registry after one more trader of `tier` is counted. A counter that stands at
    /// its maximum stays there.
    pub open spec fn counted_in(self, tier: u8) -> WhaleRegistry {
        if is_degen(tier) {
            WhaleRegistry {
                degen_count: if self.degen_count < u32::MAX {
                    (self.degen_count + 1) as u32
                } else {
                    u32::MAX
                },
                ..self
            }
        } else {
            WhaleRegistry {
                whale_count: if self.whale_count < u32::MAX {
                    (self.whale_count + 1) as u32
                } else {
                    u32::MAX
                },
                ..self
            }
        }
    }

    /// The registry after one trader of `tier` is no longer counted. A counter that stands
    /// at zero stays there.
    pub open spec fn counted_out(self, tier: u8) -> WhaleRegistry {
        if is_degen(tier) {
            WhaleRegistry {
                degen_count: if self.degen_count > 0 {
                    (self.degen_count - 1) as u32
                } else {
                    0
                },
                ..self
            }
        } else {
            WhaleRegistry {
                whale_count: if self.whale_count > 0 {
                    (self.whale_count - 1) as u32
                } else {
                    0
                },
                ..self
            }
        }
    }

    /// The registry after a trader counted under `old_tier` moves to `new_tier`: untouched
    /// where the tier stays the same, else counted out of the old bucket and into the new.
    pub open spec fn recounted(self, old_tier: u8, new_tier: u8) -> WhaleRegistry {
        if old_tier == new_tier {
            self
        } else {
            self.counted_out(old_tier).counted_in(new_tier)
        }
    }

    /// Counts one more trader of `tier`.
    pub fn count_in(&mut self, tier: u8)
        ensures
            *final(self) == old(self).counted_in(tier),
    {
        if tier == TraderTier::Degen.to_u8() {
            self.degen_count = self.degen_count.saturating_add(1);
        } else {
            self.whale_count = self.whale_count.saturating_add(1);
        }
    }

    /// Stops counting one trader of `tier`.
    pub fn count_out(&mut self, tier: u8)
        ensures
            *final(self) == old(self).counted_out(tier),
    {
        if tier == TraderTier::Degen.to_u8() {
            self.degen_count = self.degen_count.saturating_sub(1);
        } else {
            self.whale_count = self.whale_count.saturating_sub(1);
        }
    }

    /// Moves one trader from the bucket of `old_tier` to that of `new_tier`.
    pub fn recount(&mut self, old_tier: u8, new_tier: u8)
        ensures
            *final(self) == old(self).recounted(old_tier, new_tier),
    {
        if old_tier != new_tier {
            self.count_out(old_tier);
            self.count_in(new_tier);
        }
    }
}

/// One tracked trader, known by an address on another chain.
#[derive(Clone, Copy, Debug, PartialEq, Eq)]
pub struct TrackedTrader {
    pub polygon_address: [u8; 20],
    pub solana_address: Option<Identity>,
    pub tier: u8,
    pub total_pnl: i64,
    pub win_rate: u16,
    pub trade_count: u32,
    pub total_volume: u64,
    pub roi: i32,
    pub last_trade_at: i64,
    pub added_at: i64,
    pub updated_at: i64,
    pub bump: u8,
}

impl TrackedTrader {
    /// Bytes that the stored record takes.
    pub const LEN: usize = 8 + 20 + (1 + 32) + 1 + 8 + 2 + 4 + 8 + 4 + 8 + 8 + 8 + 1;

    /// The tier is one of the five known ones.
    pub open spec fn wf(self) -> bool {
        self.tier <= 4
    }

    /// The record with every field at zero and no identity linked.
    pub open spec fn spec_zeroed() -> TrackedTrader {
        TrackedTrader {
            polygon_address: [0u8; 20usize],
            solana_address: None,
            tier: 0,
            total_pnl: 0,
            win_rate: 0,
            trade_count: 0,
            total_volume: 0,
            roi: 0,
            last_trade_at: 0,
            added_at: 0,
            updated_at: 0,
            bump: 0,
        }
    }

    /// The record as it stands in a slot that was just allotted: no identity linked.
    pub fn zeroed() -> (r: TrackedTrader)
        ensures
            r == Self::spec_zeroed(),
    {
        TrackedTrader {
            polygon_address: [0u8; 20],
            solana_address: None,
            tier: 0,
            total_pnl: 0,
            win_rate: 0,
            trade_count: 0,
            total_volume: 0,
            roi: 0,
            last_trade_at: 0,
            added_at: 0,
            updated_at: 0,
            bump: 0,
        }
    }
}

/// The tiers a tracked trader can be in, best first.
#[derive(Clone, Copy, Debug, PartialEq, Eq, Structural)]
pub enum TraderTier {
    Whale,
    Shark,
    Fish,
    Shrimp,
    Degen,
}

impl TraderTier {
    pub open spec fn spec_to_u8(self) -> u8 {
        match self {
            TraderTier::Whale => 0,
            TraderTier::Shark => 1,
            TraderTier::Fish => 2,
            TraderTier::Shrimp => 3,
            TraderTier::Degen => 4,
        }
    }

    /// The number under which the tier is stored.
    pub fn to_u8(self) -> (r: u8)
        ensures
            r == self.spec_to_u8(),
    {
        match self {
            TraderTier::Whale => 0,
            TraderTier::Shark => 1,
            TraderTier::Fish => 2,
            TraderTier::Shrimp => 3,
            TraderTier::Degen => 4,
        }
    }

    pub open spec fn spec_from_u8(code: u8) -> Option<TraderTier> {
        if code == 0 {
            Some(TraderTier::Whale)
        } else if code == 1 {
            Some(TraderTier::Shark)
        } else if code == 2 {
            Some(TraderTier::Fish)
        } else if code == 3 {
            Some(TraderTier::Shrimp)
        } else if code == 4 {
            Some(TraderTier::Degen)
        } else {
            None
        }
    }

    /// The tier stored under `code`, if `code` is at most 4.
    pub fn from_u8(code: u8) -> (r: Option<TraderTier>)
        ensures
            r == Self::spec_from_u8(code),
            r matches Some(t) ==> t.spec_to_u8() == code,
            r is None <==> code > 4,
    {
        if code == 0 {
            Some(TraderTier::Whale)
        } else if code == 1 {
            Some(TraderTier::Shark)
        } else if code == 2 {
            Some(TraderTier::Fish)
        } else if code == 3 {
            Some(TraderTier::Shrimp)
        } else if code == 4 {
            Some(TraderTier::Degen)
        } else {
            None
        }
    }
}

/// One published anomaly signal. It is written once and never changed.
#[derive(Clone, Copy, Debug, PartialEq, Eq)]
pub struct PythSignal {
    pub asset: [u8; 16],
    pub pyth_feed: Identity,
    pub price: i64,
    pub confidence: u64,
    pub baseline_confidence: u64,
    pub multiplier: u16,
    pub severity: u8,
    pub detected_at: i64,
    pub publisher: Identity,
    pub bump: u8,
}

impl PythSignal {
    /// Bytes that the stored record takes.
    pub const LEN: usize = 8 + 16 + 32 + 8 + 8 + 8 + 2 + 1 + 8 + 32 + 1;

    /// The severity is one of the three known ones.
    pub open spec fn wf(self) -> bool {
        self.severity <= 2
    }

    /// The record with every field at zero.
    pub open spec fn spec_zeroed() -> PythSignal {
        PythSignal {
            asset: [0u8; 16usize],
            pyth_feed: Identity::spec_zero(),
            price: 0,
            confidence: 0,
            baseline_confidence: 0,
            multiplier: 0,
            severity: 0,
            detected_at: 0,
            publisher: Identity::spec_zero(),
            bump: 0,
        }
    }

    /// The record as it stands in a slot that was just allotted.
    pub fn zeroed() -> (r: PythSignal)
        ensures
            r == Self::spec_zeroed(),
    {
        PythSignal {
            asset: [0u8; 16],
            pyth_feed: Identity::zero(),
            price: 0,
            confidence: 0,
            baseline_confidence: 0,
            multiplier: 0,
            severity: 0,
            detected_at: 0,
            publisher: Identity::zero(),
            bump: 0,
        }
    }
}

/// How grave a signal is.
#[derive(Clone, Copy, Debug, PartialEq, Eq, Structural)]
pub enum SignalSeverity {
    Low,
    Medium,
    High,
}

impl SignalSeverity {
    pub open spec fn spec_to_u8(self) -> u8 {
        match self {
            SignalSeverity::Low => 0,
            SignalSeverity::Medium => 1,
            SignalSeverity::High => 2,
        }
    }

    /// The number under which the severity is stored.
    pub fn to_u8(self) -> (r: u8)
        ensures
            r == self.spec_to_u8(),
    {
        match self {
            SignalSeverity::Low => 0,
            SignalSeverity::Medium => 1,
            SignalSeverity::High => 2,
        }
    }

    pub open spec fn spec_from_u8(code: u8) -> Option<SignalSeverity> {
        if code == 0 {
            Some(SignalSeverity::Low)
        } else if code == 1 {
            Some(SignalSeverity::Medium)
        } else if code == 2 {
            Some(SignalSeverity::High)
        } else {
            None
        }
    }

    /// The severity stored under `code`, if `code` is at most 2.
    pub fn from_u8(code: u8) -> (r: Option<SignalSeverity>)
        ensures
            r == Self::spec_from_u8(code),
            r matches Some(s) ==> s.spec_to_u8() == code,
            r is None <==> code > 2,
    {
        if code == 0 {
            Some(SignalSeverity::Low)
        } else if code == 1 {
            Some(SignalSeverity::Medium)
        } else if code == 2 {
            Some(SignalSeverity::High)
        } else {
            None
        }
    }
}

} // verus!
