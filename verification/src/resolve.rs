//! How each operation finds its records in the ledger, and why it may find them missing,
//! present or out of the caller's reach.

use crate::errors::ErrorCode;
use crate::identity::Identity;
use crate::instructions::config::InitializeConfig;
use crate::instructions::movement::RecordWhaleMovement;
use crate::instructions::registry::{AddTrader, InitializeRegistry, RemoveTrader, UpdateTrader};
use crate::instructions::signal::PublishSignal;
use crate::instructions::subscription::{Subscribe, TokenAccount};
use crate::keys::{bump_of, derive_address, RecordKey};
use crate::ledger::{Ledger, LedgerView};
use crate::state::{ProgramConfig, PythSignal, Subscription, TrackedTrader, WhaleRegistry};
use vstd::prelude::*;

verus! {

/// The bump of the slot that the ledger's program keeps the record `key` in.
fn derive_bump(ledger: &Ledger, key: RecordKey) -> (r: Option<u8>)
    ensures
        r == bump_of(key, ledger@.program_id),
{
    let program_id = ledger.program_id();
    match derive_address(&key, &program_id) {
        Some((_, bump)) => Some(bump),
        None => None,
    }
}

impl InitializeConfig {
    /// The records that creating the configuration finds in the ledger, or why it cannot
    /// go on: no slot can be derived, or else the configuration is already there.
    pub open spec fn spec_resolve(l: LedgerView, admin: Identity, treasury: Identity) -> Result<
        InitializeConfig,
        ErrorCode,
    > {
        match bump_of(RecordKey::Config, l.program_id) {
            None => Err(ErrorCode::AddressNotDerivable),
            Some(bump) => if l.config is Some {
                Err(ErrorCode::AccountAlreadyExists)
            } else {
                Ok(InitializeConfig { admin, config: ProgramConfig::spec_zeroed(), treasury, bump })
            },
        }
    }

    /// Finds in the ledger the records that creating the configuration works on.
    pub fn resolve(ledger: &Ledger, admin: Identity, treasury: Identity) -> (r: Result<
        InitializeConfig,
        ErrorCode,
    >)
        ensures
            r == Self::spec_resolve(ledger@, admin, treasury),
    {
        let bump: u8 = match derive_bump(ledger, RecordKey::Config) {
            Some(bump) => bump,
            None => {
                return Err(ErrorCode::AddressNotDerivable);
            },
        };
        if ledger.config().is_some() {
            return Err(ErrorCode::AccountAlreadyExists);
        }
        Ok(InitializeConfig { admin, config: ProgramConfig::zeroed(), treasury, bump })
    }
}

impl Subscribe {
    /// The records that a subscription of `user` finds in the ledger, or why it cannot go
    /// on: there is no configuration, or else the records admit no subscription, or else
    /// no slot can be derived. A subscriber without an entitlement gets a zeroed one.
    pub open spec fn spec_resolve(
        l: LedgerView,
        user: Identity,
        user_usdc: TokenAccount,
        treasury_usdc: TokenAccount,
        usdc_mint: Identity,
    ) -> Result<Subscribe, ErrorCode> {
        match l.config {
            None => Err(ErrorCode::AccountNotFound),
            Some(config) => {
                let found = Subscribe {
                    user,
                    subscription: match l.subscription(user) {
                        Some(subscription) => subscription,
                        None => Subscription::spec_zeroed(),
                    },
                    config,
                    user_usdc,
                    treasury_usdc,
                    usdc_mint,
                    bump: 0,
                };
                match (found.refusal(), bump_of(RecordKey::Subscription { user }, l.program_id)) {
                    (Some(e), _) => Err(e),
                    (None, None) => Err(ErrorCode::AddressNotDerivable),
                    (None, Some(bump)) => Ok(Subscribe { bump, ..found }),
                }
            },
        }
    }

    /// Finds in the ledger the records that a subscription of `user` works on.
    pub fn resolve(
        ledger: &Ledger,
        user: Identity,
        user_usdc: TokenAccount,
        treasury_usdc: TokenAccount,
        usdc_mint: Identity,
    ) -> (r: Result<Subscribe, ErrorCode>)
        ensures
            r == Self::spec_resolve(ledger@, user, user_usdc, treasury_usdc, usdc_mint),
    {
        let config = match ledger.config() {
            Some(config) => config,
            None => {
                return Err(ErrorCode::AccountNotFound);
            },
        };
        let subscription = match ledger.subscription(&user) {
            Some(subscription) => subscription,
            None => Subscription::zeroed(),
        };
        let mut found = Subscribe {
            user,
            subscription,
            config,
            user_usdc,
            treasury_usdc,
            usdc_mint,
            bump: 0,
        };
        match found.check() {
            Err(e) => {
                return Err(e);
            },
            Ok(()) => {},
        }
        match derive_bump(ledger, RecordKey::Subscription { user }) {
            Some(bump) => {
                found.bump = bump;
                Ok(found)
            },
            None => Err(ErrorCode::AddressNotDerivable),
        }
    }
}

impl InitializeRegistry {
    /// The records that creating the registry finds in the ledger, or why it cannot go
    /// on: there is no configuration, or else the caller is not its administrator, or else
    /// no slot can be derived, or else the registry is already there.
    pub open spec fn spec_resolve(l: LedgerView, admin: Identity) -> Result<
        InitializeRegistry,
        ErrorCode,
    > {
        match (l.config, bump_of(RecordKey::Registry, l.program_id)) {
            (None, _) => Err(ErrorCode::AccountNotFound),
            (Some(config), derived) => if config.admin != admin {
                Err(ErrorCode::Unauthorized)
            } else if derived is None {
                Err(ErrorCode::AddressNotDerivable)
            } else if l.registry is Some {
                Err(ErrorCode::AccountAlreadyExists)
            } else {
                Ok(
                    InitializeRegistry {
                        admin,
                        config,
                        registry: WhaleRegistry::spec_zeroed(),
                        bump: derived->0,
                    },
                )
            },
        }
    }

    /// Finds in the ledger the records that creating the registry works on.
    pub fn resolve(ledger: &Ledger, admin: Identity) -> (r: Result<InitializeRegistry, ErrorCode>)
        ensures
            r == Self::spec_resolve(ledger@, admin),
    {
        let config = match ledger.config() {
            Some(config) => config,
            None => {
                return Err(ErrorCode::AccountNotFound);
            },
        };
        if !config.admin.same(&admin) {
            return Err(ErrorCode::Unauthorized);
        }
        let bump: u8 = match derive_bump(ledger, RecordKey::Registry) {
            Some(bump) => bump,
            None => {
                return Err(ErrorCode::AddressNotDerivable);
            },
        };
        if ledger.registry().is_some() {
            return Err(ErrorCode::AccountAlreadyExists);
        }
        Ok(InitializeRegistry { admin, config, registry: WhaleRegistry::zeroed(), bump })
    }
}

impl AddTrader {
    /// The records that adding the trader at `polygon_address` finds in the ledger, or why
    /// it cannot go on: there is no configuration, or else the caller is not its
    /// administrator, or else there is no registry, or else no slot can be derived, or
    /// else the trader is already there.
    pub open spec fn spec_resolve(l: LedgerView, admin: Identity, polygon_address: [u8; 20]) -> Result<
        AddTrader,
        ErrorCode,
    > {
        match (l.config, l.registry, bump_of(RecordKey::Trader { polygon_address }, l.program_id)) {
            (None, _, _) => Err(ErrorCode::AccountNotFound),
            (Some(config), found, derived) => if config.admin != admin {
                Err(ErrorCode::Unauthorized)
            } else if found is None {
                Err(ErrorCode::AccountNotFound)
            } else if derived is None {
                Err(ErrorCode::AddressNotDerivable)
            } else if l.traders.contains_key(polygon_address) {
                Err(ErrorCode::TraderAlreadyExists)
            } else {
                Ok(
                    AddTrader {
                        admin,
                        config,
                        registry: found->0,
                        trader: TrackedTrader::spec_zeroed(),
                        bump: derived->0,
                    },
                )
            },
        }
    }

    /// Finds in the ledger the records that adding the trader at `polygon_address` works on.
    pub fn resolve(ledger: &Ledger, admin: Identity, polygon_address: &[u8; 20]) -> (r: Result<
        AddTrader,
        ErrorCode,
    >)
        ensures
            r == Self::spec_resolve(ledger@, admin, *polygon_address),
    {
        let config = match ledger.config() {
            Some(config) => config,
            None => {
                return Err(ErrorCode::AccountNotFound);
            },
        };
        if !config.admin.same(&admin) {
            return Err(ErrorCode::Unauthorized);
        }
        let registry = match ledger.registry() {
            Some(registry) => registry,
            None => {
                return Err(ErrorCode::AccountNotFound);
            },
        };
        let key = RecordKey::Trader { polygon_address: *polygon_address };
        let bump: u8 = match derive_bump(ledger, key) {
            Some(bump) => bump,
            None => {
                return Err(ErrorCode::AddressNotDerivable);
            },
        };
        if ledger.trader(polygon_address).is_some() {
            return Err(ErrorCode::TraderAlreadyExists);
        }
        Ok(AddTrader { admin, config, registry, trader: TrackedTrader::zeroed(), bump })
    }
}

impl UpdateTrader {
    /// The records that updating the trader at `polygon_address` finds in the ledger, or
    /// why it cannot go on: there is no configuration, or else the caller is not its
    /// administrator, or else there is no such trader, or else there is no registry.
    pub open spec fn spec_resolve(l: LedgerView, admin: Identity, polygon_address: [u8; 20]) -> Result<
        UpdateTrader,
        ErrorCode,
    > {
        match (l.config, l.trader(polygon_address), l.registry) {
            (None, _, _) => Err(ErrorCode::AccountNotFound),
            (Some(config), trader, registry) => if config.admin != admin {
                Err(ErrorCode::Unauthorized)
            } else if trader is None {
                Err(ErrorCode::TraderNotFound)
            } else if registry is None {
                Err(ErrorCode::AccountNotFound)
            } else {
                Ok(UpdateTrader { admin, config, trader: trader->0, registry: registry->0 })
            },
        }
    }

    /// Finds in the ledger the records that updating the trader at `polygon_address` works
    /// on.
    pub fn resolve(ledger: &Ledger, admin: Identity, polygon_address: &[u8; 20]) -> (r: Result<
        UpdateTrader,
        ErrorCode,
    >)
        ensures
            r == Self::spec_resolve(ledger@, admin, *polygon_address),
    {
        let config = match ledger.config() {
            Some(config) => config,
            None => {
                return Err(ErrorCode::AccountNotFound);
            },
        };
        if !config.admin.same(&admin) {
            return Err(ErrorCode::Unauthorized);
        }
        let trader = match ledger.trader(polygon_address) {
            Some(trader) => trader,
            None => {
                return Err(ErrorCode::TraderNotFound);
            },
        };
        match ledger.registry() {
            Some(registry) => Ok(UpdateTrader { admin, config, trader, registry }),
            None => Err(ErrorCode::AccountNotFound),
        }
    }
}

impl RemoveTrader {
    /// The records that removing the trader at `polygon_address` finds in the ledger, or
    /// why it cannot go on: there is no configuration, or else the caller is not its
    /// administrator, or else there is no registry, or else there is no such trader.
    pub open spec fn spec_resolve(l: LedgerView, admin: Identity, polygon_address: [u8; 20]) -> Result<
        RemoveTrader,
        ErrorCode,
    > {
        match (l.config, l.registry, l.trader(polygon_address)) {
            (None, _, _) => Err(ErrorCode::AccountNotFound),
            (Some(config), registry, trader) => if config.admin != admin {
                Err(ErrorCode::Unauthorized)
            } else if registry is None {
                Err(ErrorCode::AccountNotFound)
            } else if trader is None {
                Err(ErrorCode::TraderNotFound)
            } else {
                Ok(RemoveTrader { admin, config, registry: registry->0, trader: trader->0 })
            },
        }
    }

    /// Finds in the ledger the records that removing the trader at `polygon_address` works
    /// on.
    pub fn resolve(ledger: &Ledger, admin: Identity, polygon_address: &[u8; 20]) -> (r: Result<
        RemoveTrader,
        ErrorCode,
    >)
        ensures
            r == Self::spec_resolve(ledger@, admin, *polygon_address),
    {
        let config = match ledger.config() {
            Some(config) => config,
            None => {
                return Err(ErrorCode::AccountNotFound);
            },
        };
        if !config.admin.same(&admin) {
            return Err(ErrorCode::Unauthorized);
        }
        let registry = match ledger.registry() {
            Some(registry) => registry,
            None => {
                return Err(ErrorCode::AccountNotFound);
            },
        };
        match ledger.trader(polygon_address) {
            Some(trader) => Ok(RemoveTrader { admin, config, registry, trader }),
            None => Err(ErrorCode::TraderNotFound),
        }
    }
}

impl PublishSignal {
    /// The records that publishing a signal on `asset` detected at `detected_at` finds in
    /// the ledger, or why it cannot go on: there is no configuration, or else the caller
    /// is not its administrator, or else no slot can be derived, or else that signal is
    /// already there.
    pub open spec fn spec_resolve(
        l: LedgerView,
        publisher: Identity,
        pyth_feed: Identity,
        asset: [u8; 16],
        detected_at: i64,
    ) -> Result<PublishSignal, ErrorCode> {
        match (l.config, bump_of(RecordKey::Signal { asset, detected_at }, l.program_id)) {
            (None, _) => Err(ErrorCode::AccountNotFound),
            (Some(config), derived) => if config.admin != publisher {
                Err(ErrorCode::Unauthorized)
            } else if derived is None {
                Err(ErrorCode::AddressNotDerivable)
            } else if l.signals.contains_key((asset, detected_at)) {
                Err(ErrorCode::AccountAlreadyExists)
            } else {
                Ok(
                    PublishSignal {
                        publisher,
                        config,
                        signal: PythSignal::spec_zeroed(),
                        pyth_feed,
                        bump: derived->0,
                    },
                )
            },
        }
    }

    /// Finds in the ledger the records that publishing a signal on `asset` detected at
    /// `detected_at` works on.
    pub fn resolve(
        ledger: &Ledger,
        publisher: Identity,
        pyth_feed: Identity,
        asset: &[u8; 16],
        detected_at: i64,
    ) -> (r: Result<PublishSignal, ErrorCode>)
        ensures
            r == Self::spec_resolve(ledger@, publisher, pyth_feed, *asset, detected_at),
    {
        let config = match ledger.config() {
            Some(config) => config,
            None => {
                return Err(ErrorCode::AccountNotFound);
            },
        };
        if !config.admin.same(&publisher) {
            return Err(ErrorCode::Unauthorized);
        }
        let key = RecordKey::Signal { asset: *asset, detected_at };
        let bump: u8 = match derive_bump(ledger, key) {
            Some(bump) => bump,
            None => {
                return Err(ErrorCode::AddressNotDerivable);
            },
        };
        if ledger.signal(asset, detected_at).is_some() {
            return Err(ErrorCode::AccountAlreadyExists);
        }
        Ok(PublishSignal { publisher, config, signal: PythSignal::zeroed(), pyth_feed, bump })
    }
}

impl RecordWhaleMovement {
    /// The records that reporting a movement of the trader at `polygon_address` finds in
    /// the ledger, or why it cannot go on: there is no configuration, or else the caller
    /// is not its administrator, or else there is no such trader.
    pub open spec fn spec_resolve(l: LedgerView, admin: Identity, polygon_address: [u8; 20]) -> Result<
        RecordWhaleMovement,
        ErrorCode,
    > {
        match (l.config, l.trader(polygon_address)) {
            (None, _) => Err(ErrorCode::AccountNotFound),
            (Some(config), trader) => if config.admin != admin {
                Err(ErrorCode::Unauthorized)
            } else if trader is None {
                Err(ErrorCode::TraderNotFound)
            } else {
                Ok(RecordWhaleMovement { admin, config, trader: trader->0 })
            },
        }
    }

    /// Finds in the ledger the records that reporting a movement of the trader at
    /// `polygon_address` reads.
    pub fn resolve(ledger: &Ledger, admin: Identity, polygon_address: &[u8; 20]) -> (r: Result<
        RecordWhaleMovement,
        ErrorCode,
    >)
        ensures
            r == Self::spec_resolve(ledger@, admin, *polygon_address),
    {
        let config = match ledger.config() {
            Some(config) => config,
            None => {
                return Err(ErrorCode::AccountNotFound);
            },
        };
        if !config.admin.same(&admin) {
            return Err(ErrorCode::Unauthorized);
        }
        match ledger.trader(polygon_address) {
            Some(trader) => Ok(RecordWhaleMovement { admin, config, trader }),
            None => Err(ErrorCode::TraderNotFound),
        }
    }
}

} // verus!
