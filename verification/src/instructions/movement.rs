//! Reporting that a tracked trader has moved funds.

use crate::errors::ErrorCode;
use crate::identity::Identity;
use crate::state::{ProgramConfig, TrackedTrader};
use vstd::prelude::*;

verus! {

/// The records that reporting a movement reads.
#[derive(Clone, Copy, Debug, PartialEq, Eq)]
pub struct RecordWhaleMovement {
    /// The caller, who signs.
    pub admin: Identity,
    pub config: ProgramConfig,
    /// The trader's record as it is stored.
    pub trader: TrackedTrader,
}

/// The notice that a tracked trader has moved funds.
#[derive(Debug, PartialEq, Eq)]
pub struct WhaleMovementEvent {
    pub polygon_address: [u8; 20],
    pub solana_address: Identity,
    pub amount: u64,
    /// The kind of token moved.
    pub token: String,
    /// Whether the funds came in or went out.
    pub direction: String,
    pub timestamp: i64,
}

impl RecordWhaleMovement {
    /// Why no movement can be reported on these records, if none can: the caller is not
    /// the administrator, or else the trader has no identity linked.
    pub open spec fn refusal(self) -> Option<ErrorCode> {
        if self.config.admin != self.admin {
            Some(ErrorCode::Unauthorized)
        } else if self.trader.solana_address is None {
            Some(ErrorCode::TraderNotFound)
        } else {
            None
        }
    }
}

/// Reports at `now` that the trader in `ctx` has moved `amount` of `token` in `direction`.
/// The notice is handed back for the caller to emit; no record changes. Only the
/// administrator may, and the trader must have an identity linked: where the operation is
/// refused there is no notice.
pub fn record_whale_movement(
    ctx: &RecordWhaleMovement,
    polygon_address: [u8; 20],
    amount: u64,
    token: String,
    direction: String,
    now: i64,
) -> (r: Result<WhaleMovementEvent, ErrorCode>)
    ensures
        match ctx.refusal() {
            Some(e) => r == Err::<WhaleMovementEvent, ErrorCode>(e),
            None => r == Ok::<WhaleMovementEvent, ErrorCode>(
                WhaleMovementEvent {
                    polygon_address,
                    solana_address: ctx.trader.solana_address->0,
                    amount,
                    token,
                    direction,
                    timestamp: now,
                },
            ),
        },
{
    if !ctx.config.admin.same(&ctx.admin) {
        return Err(ErrorCode::Unauthorized);
    }
    match ctx.trader.solana_address {
        None => Err(ErrorCode::TraderNotFound),
        Some(solana_address) => Ok(
            WhaleMovementEvent {
                polygon_address,
                solana_address,
                amount,
                token,
                direction,
                timestamp: now,
            },
        ),
    }
}

} // verus!
