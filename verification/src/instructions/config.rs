//! Creating the configuration.

use crate::errors::ErrorCode;
use crate::identity::Identity;
use crate::state::ProgramConfig;
use vstd::prelude::*;

verus! {

/// The records that creating the configuration works on.
#[derive(Clone, Copy, Debug, PartialEq, Eq)]
pub struct InitializeConfig {
    /// The caller, who signs and becomes the administrator.
    pub admin: Identity,
    /// The configuration's slot, just allotted.
    pub config: ProgramConfig,
    /// Who receives the payments.
    pub treasury: Identity,
    /// The bump of the configuration's slot.
    pub bump: u8,
}

impl InitializeConfig {
    /// The records after the configuration is created.
    pub open spec fn outcome(
        self,
        basic_price: u64,
        pro_price: u64,
        basic_duration: i64,
        pro_duration: i64,
    ) -> InitializeConfig {
        InitializeConfig {
            config: ProgramConfig {
                admin: self.admin,
                treasury: self.treasury,
                basic_price,
                pro_price,
                basic_duration,
                pro_duration,
                paused: false,
                bump: self.bump,
            },
            ..self
        }
    }
}

/// Creates the configuration: the caller becomes the administrator, prices and durations
/// are as given, and the program is not paused. Anyone may, once; this never fails.
pub fn initialize_config(
    ctx: &mut InitializeConfig,
    basic_price: u64,
    pro_price: u64,
    basic_duration: i64,
    pro_duration: i64,
) -> (r: Result<(), ErrorCode>)
    ensures
        r is Ok,
        *final(ctx) == old(ctx).outcome(basic_price, pro_price, basic_duration, pro_duration),
{
    ctx.config.admin = ctx.admin;
    ctx.config.treasury = ctx.treasury;
    ctx.config.basic_price = basic_price;
    ctx.config.pro_price = pro_price;
    ctx.config.basic_duration = basic_duration;
    ctx.config.pro_duration = pro_duration;
    ctx.config.paused = false;
    ctx.config.bump = ctx.bump;
    Ok(())
}

} // verus!
