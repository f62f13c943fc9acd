//! Publishing a signal.

use crate::errors::ErrorCode;
use crate::identity::Identity;
use crate::state::{ProgramConfig, PythSignal, SignalSeverity};
use vstd::prelude::*;

verus! {

/// The records that publishing a signal works on.
#[derive(Clone, Copy, Debug, PartialEq, Eq)]
pub struct PublishSignal {
    /// The caller, who signs.
    pub publisher: Identity,
    pub config: ProgramConfig,
    /// The signal's slot, just allotted.
    pub signal: PythSignal,
    /// The price feed that the signal refers to. It is recorded, not read.
    pub pyth_feed: Identity,
    /// The bump of the signal's slot.
    pub bump: u8,
}

impl PublishSignal {
    /// The records after the signal is published, or why they stay as they are.
    pub open spec fn outcome(
        self,
        asset: [u8; 16],
        detected_at: i64,
        price: i64,
        confidence: u64,
        baseline_confidence: u64,
        multiplier: u16,
        severity: u8,
    ) -> Result<PublishSignal, ErrorCode> {
        if self.config.admin != self.publisher {
            Err(ErrorCode::Unauthorized)
        } else if severity > 2 {
            Err(ErrorCode::InvalidSeverity)
        } else {
            Ok(
                PublishSignal {
                    signal: PythSignal {
                        asset,
                        pyth_feed: self.pyth_feed,
                        price,
                        confidence,
                        baseline_confidence,
                        multiplier,
                        severity,
                        detected_at,
                        publisher: self.publisher,
                        bump: self.bump,
                    },
                    ..self
                },
            )
        }
    }
}

/// Publishes a signal: fills the signal's record with what the publisher claims. Nothing
/// is checked against the price feed. Only the administrator may, and `severity` is at
/// most 2. Where the operation is refused, nothing changes.
pub fn publish_signal(
    ctx: &mut PublishSignal,
    asset: [u8; 16],
    detected_at: i64,
    price: i64,
    confidence: u64,
    baseline_confidence: u64,
    multiplier: u16,
    severity: u8,
) -> (r: Result<(), ErrorCode>)
    ensures
        match old(ctx).outcome(
            asset,
            detected_at,
            price,
            confidence,
            baseline_confidence,
            multiplier,
            severity,
        ) {
            Ok(after) => r is Ok && *final(ctx) == after,
            Err(e) => r == Err::<(), ErrorCode>(e) && *final(ctx) == *old(ctx),
        },
        r is Ok ==> final(ctx).signal.wf(),
{
    if !ctx.config.admin.same(&ctx.publisher) {
        return Err(ErrorCode::Unauthorized);
    }
    if SignalSeverity::from_u8(severity).is_none() {
        return Err(ErrorCode::InvalidSeverity);
    }
    ctx.signal.asset = asset;
    ctx.signal.pyth_feed = ctx.pyth_feed;
    ctx.signal.price = price;
    ctx.signal.confidence = confidence;
    ctx.signal.baseline_confidence = baseline_confidence;
    ctx.signal.multiplier = multiplier;
    ctx.signal.severity = severity;
    ctx.signal.detected_at = detected_at;
    ctx.signal.publisher = ctx.publisher;
    ctx.signal.bump = ctx.bump;
    Ok(())
}

} // verus!
