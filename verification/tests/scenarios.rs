use prediction_copilot::errors::{ErrorCode, ErrorKind};
use prediction_copilot::identity::Identity;
use prediction_copilot::instructions::subscription::{TokenAccount, TransferOutcome};
use prediction_copilot::ledger::Ledger;
use prediction_copilot::state::Subscription;
use prediction_copilot::{
    add_trader, can_store_subscription, initialize_config, initialize_registry, publish_signal,
    record_whale_movement, remove_trader, subscribe, transfer_request, update_trader,
};

fn id(n: u8) -> Identity {
    Identity::new([n; 32])
}

fn wallet(owner: Identity, mint: Identity, n: u8) -> TokenAccount {
    TokenAccount { key: id(n), owner, mint }
}

/// A ledger with a configuration (administrator 1, treasury 2) and a registry.
fn ledger_with_registry() -> Ledger {
    let mut ledger = Ledger::new(id(9));
    initialize_config(&mut ledger, id(1), id(2), 5_000_000, 20_000_000, 2_592_000, 7_776_000)
        .unwrap();
    initialize_registry(&mut ledger, id(1), 10).unwrap();
    ledger
}

fn degens_among(ledger: &Ledger, addresses: &[[u8; 20]]) -> usize {
    let mut n = 0;
    for address in addresses {
        if let Some(trader) = ledger.trader(address) {
            if trader.tier == 4 {
                n += 1;
            }
        }
    }
    n
}

#[test]
fn new_ledger_holds_nothing() {
    let ledger = Ledger::new(id(9));
    assert_eq!(ledger.program_id(), id(9));
    assert_eq!(ledger.config(), None);
    assert_eq!(ledger.registry(), None);
    assert_eq!(ledger.subscription(&id(1)), None);
    assert_eq!(ledger.trader(&[1; 20]), None);
    assert_eq!(ledger.signal(&[1; 16], 5), None);
    assert_eq!(ledger.subscription_count(), 0);
    assert_eq!(ledger.trader_count(), 0);
    assert_eq!(ledger.signal_count(), 0);
}

#[test]
fn first_and_second_subscription_to_the_basic_plan() {
    let mut ledger = Ledger::new(id(9));
    let (admin, treasury, user, mint) = (id(1), id(2), id(3), id(4));
    initialize_config(&mut ledger, admin, treasury, 5_000_000, 20_000_000, 2_592_000, 7_776_000)
        .unwrap();
    let config = ledger.config().unwrap();
    assert_eq!(config.admin, admin);
    assert_eq!(config.treasury, treasury);
    assert_eq!((config.basic_price, config.pro_price), (5_000_000, 20_000_000));
    assert_eq!((config.basic_duration, config.pro_duration), (2_592_000, 7_776_000));
    assert!(!config.paused);

    let from = wallet(user, mint, 30);
    let to = wallet(treasury, mint, 31);
    let balance: u64 = 12_000_000;

    let request = transfer_request(&ledger, user, from, to, mint, 1).unwrap();
    assert_eq!(request.amount, 5_000_000);
    assert_eq!(request.from, from.key);
    assert_eq!(request.to, to.key);
    assert_eq!(request.authority, user);
    assert!(balance >= request.amount);
    assert!(can_store_subscription(&ledger, &user, 1, 1000));
    subscribe(&mut ledger, user, from, to, mint, 1, TransferOutcome::Completed, 1000).unwrap();
    let first = ledger.subscription(&user).unwrap();
    assert_eq!(first.user, user);
    assert_eq!(first.tier, 1);
    assert_eq!(first.started_at, 1000);
    assert_eq!(first.expires_at, 2_593_000);
    assert_eq!(first.total_paid, 5_000_000);

    subscribe(&mut ledger, user, from, to, mint, 1, TransferOutcome::Completed, 2000).unwrap();
    let second = ledger.subscription(&user).unwrap();
    assert_eq!(second.tier, 1);
    assert_eq!(second.started_at, 1000);
    // The second purchase extends from the first one's end, not from 2000.
    assert_eq!(second.expires_at, first.expires_at + 2_592_000);
    assert_eq!(second.expires_at, 5_185_000);
    assert_ne!(second.expires_at, 2000 + 2_592_000);
    assert_eq!(second.total_paid, 10_000_000);
    assert_eq!(ledger.subscription_count(), 1);
}

#[test]
fn add_then_update_moves_trader_between_buckets() {
    let admin = id(1);
    let mut ledger = ledger_with_registry();
    let a = [0xAA; 20];
    add_trader(&mut ledger, admin, a, 4, 0, 0, 0, 0, 0, 11).unwrap();
    let before = ledger.registry().unwrap();
    assert_eq!((before.whale_count, before.degen_count), (0, 1));
    update_trader(&mut ledger, admin, a, 0, 0, 0, 0, 0, 0, 12, 13).unwrap();
    let after = ledger.registry().unwrap();
    assert_eq!(after.degen_count, before.degen_count - 1);
    assert_eq!(after.whale_count, before.whale_count + 1);
    assert_eq!(after.last_updated, 13);
    assert_eq!(ledger.trader(&a).unwrap().tier, 0);
}

#[test]
fn counters_follow_every_add_update_and_remove() {
    let admin = id(1);
    let mut ledger = ledger_with_registry();
    let addresses: Vec<[u8; 20]> = (0u8..12).map(|n| [n; 20]).collect();
    let check = |ledger: &Ledger| {
        let registry = ledger.registry().unwrap();
        assert_eq!((registry.whale_count + registry.degen_count) as usize, ledger.trader_count());
        assert_eq!(registry.degen_count as usize, degens_among(ledger, &addresses));
    };
    check(&ledger);
    for (i, address) in addresses.iter().enumerate() {
        add_trader(&mut ledger, admin, *address, (i % 5) as u8, 0, 0, 0, 0, 0, 20).unwrap();
        check(&ledger);
    }
    assert_eq!(ledger.trader_count(), 12);
    for (i, address) in addresses.iter().enumerate() {
        update_trader(&mut ledger, admin, *address, ((i * 3 + 1) % 5) as u8, 1, 2, 3, 4, 5, 6, 30)
            .unwrap();
        check(&ledger);
    }
    // Refused calls change nothing.
    assert!(add_trader(&mut ledger, admin, addresses[0], 4, 0, 0, 0, 0, 0, 40).is_err());
    assert!(update_trader(&mut ledger, admin, [99; 20], 4, 0, 0, 0, 0, 0, 0, 40).is_err());
    assert!(remove_trader(&mut ledger, id(7), addresses[0], 40).is_err());
    check(&ledger);
    for address in addresses.iter().step_by(2) {
        remove_trader(&mut ledger, admin, *address, 50).unwrap();
        check(&ledger);
    }
    assert_eq!(ledger.trader_count(), 6);
    for address in addresses.iter() {
        let _ = remove_trader(&mut ledger, admin, *address, 60);
        check(&ledger);
    }
    assert_eq!(ledger.trader_count(), 0);
    let registry = ledger.registry().unwrap();
    assert_eq!((registry.whale_count, registry.degen_count), (0, 0));
}

#[test]
fn add_trader_with_tier_five_is_refused_and_counts_stay() {
    let admin = id(1);
    let mut ledger = ledger_with_registry();
    add_trader(&mut ledger, admin, [1; 20], 4, 0, 0, 0, 0, 0, 11).unwrap();
    add_trader(&mut ledger, admin, [2; 20], 2, 0, 0, 0, 0, 0, 12).unwrap();
    let before = ledger.registry().unwrap();
    let refused = add_trader(&mut ledger, admin, [3; 20], 5, 1, 2, 3, 4, 5, 13);
    assert_eq!(refused, Err(ErrorCode::InvalidTraderTier));
    assert_eq!(refused.unwrap_err().kind(), ErrorKind::Validation);
    assert_eq!(ledger.registry().unwrap(), before);
    assert_eq!(ledger.trader(&[3; 20]), None);
    assert_eq!(ledger.trader_count(), 2);
    assert_eq!(add_trader(&mut ledger, admin, [3; 20], 255, 0, 0, 0, 0, 0, 13), Err(ErrorCode::InvalidTraderTier));
}

#[test]
fn add_trader_fills_the_record() {
    let admin = id(1);
    let mut ledger = ledger_with_registry();
    let a = [7; 20];
    add_trader(&mut ledger, admin, a, 1, -5_000_000, 7500, 42, 9_000_000, -500, 77).unwrap();
    let trader = ledger.trader(&a).unwrap();
    assert_eq!(trader.polygon_address, a);
    assert_eq!(trader.solana_address, None);
    assert_eq!(trader.tier, 1);
    assert_eq!(trader.total_pnl, -5_000_000);
    assert_eq!(trader.win_rate, 7500);
    assert_eq!(trader.trade_count, 42);
    assert_eq!(trader.total_volume, 9_000_000);
    assert_eq!(trader.roi, -500);
    assert_eq!(trader.last_trade_at, 77);
    assert_eq!(trader.added_at, 77);
    assert_eq!(trader.updated_at, 77);
    let registry = ledger.registry().unwrap();
    assert_eq!((registry.whale_count, registry.degen_count, registry.last_updated), (1, 0, 77));
}

#[test]
fn update_trader_overwrites_figures_and_keeps_the_rest() {
    let admin = id(1);
    let mut ledger = ledger_with_registry();
    let a = [7; 20];
    add_trader(&mut ledger, admin, a, 1, 1, 2, 3, 4, 5, 77).unwrap();
    let added = ledger.trader(&a).unwrap();
    update_trader(&mut ledger, admin, a, 3, -10, 20, 30, 40, -50, 60, 88).unwrap();
    let trader = ledger.trader(&a).unwrap();
    assert_eq!(trader.tier, 3);
    assert_eq!(trader.total_pnl, -10);
    assert_eq!(trader.win_rate, 20);
    assert_eq!(trader.trade_count, 30);
    assert_eq!(trader.total_volume, 40);
    assert_eq!(trader.roi, -50);
    assert_eq!(trader.last_trade_at, 60);
    assert_eq!(trader.updated_at, 88);
    assert_eq!(trader.added_at, 77);
    assert_eq!(trader.polygon_address, a);
    assert_eq!(trader.bump, added.bump);
    assert_eq!(trader.solana_address, None);
    assert_eq!(ledger.trader_count(), 1);
}

#[test]
fn update_trader_with_the_same_tier_leaves_the_counts() {
    let admin = id(1);
    let mut ledger = ledger_with_registry();
    add_trader(&mut ledger, admin, [1; 20], 4, 0, 0, 0, 0, 0, 11).unwrap();
    add_trader(&mut ledger, admin, [2; 20], 2, 0, 0, 0, 0, 0, 11).unwrap();
    for round in 0..3 {
        update_trader(&mut ledger, admin, [1; 20], 4, round, 0, 0, 0, 0, 0, 20 + round).unwrap();
        update_trader(&mut ledger, admin, [2; 20], 2, round, 0, 0, 0, 0, 0, 20 + round).unwrap();
        let registry = ledger.registry().unwrap();
        assert_eq!((registry.whale_count, registry.degen_count), (1, 1));
        assert_eq!(registry.last_updated, 20 + round);
    }
    // Between two tiers of the whale bucket the counts stay too.
    update_trader(&mut ledger, admin, [2; 20], 0, 0, 0, 0, 0, 0, 0, 30).unwrap();
    let registry = ledger.registry().unwrap();
    assert_eq!((registry.whale_count, registry.degen_count), (1, 1));
}

#[test]
fn remove_trader_frees_the_slot() {
    let admin = id(1);
    let mut ledger = ledger_with_registry();
    add_trader(&mut ledger, admin, [1; 20], 4, 0, 0, 0, 0, 0, 11).unwrap();
    add_trader(&mut ledger, admin, [2; 20], 0, 0, 0, 0, 0, 0, 12).unwrap();
    remove_trader(&mut ledger, admin, [1; 20], 13).unwrap();
    assert_eq!(ledger.trader(&[1; 20]), None);
    assert!(ledger.trader(&[2; 20]).is_some());
    let registry = ledger.registry().unwrap();
    assert_eq!((registry.whale_count, registry.degen_count, registry.last_updated), (1, 0, 13));
    assert_eq!(remove_trader(&mut ledger, admin, [1; 20], 14), Err(ErrorCode::TraderNotFound));
    // The address can be added again.
    add_trader(&mut ledger, admin, [1; 20], 3, 0, 0, 0, 0, 0, 15).unwrap();
    let registry = ledger.registry().unwrap();
    assert_eq!((registry.whale_count, registry.degen_count), (2, 0));
}

#[test]
fn configuration_is_created_once() {
    let mut ledger = Ledger::new(id(9));
    initialize_config(&mut ledger, id(1), id(2), 1, 2, 3, 4).unwrap();
    let first = ledger.config().unwrap();
    let again = initialize_config(&mut ledger, id(5), id(6), 7, 8, 9, 10);
    assert_eq!(again, Err(ErrorCode::AccountAlreadyExists));
    assert_eq!(again.unwrap_err().kind(), ErrorKind::State);
    assert_eq!(ledger.config().unwrap(), first);
}

#[test]
fn registry_is_created_once_by_the_administrator() {
    let mut ledger = Ledger::new(id(9));
    assert_eq!(initialize_registry(&mut ledger, id(1), 5), Err(ErrorCode::AccountNotFound));
    initialize_config(&mut ledger, id(1), id(2), 1, 2, 3, 4).unwrap();
    assert_eq!(initialize_registry(&mut ledger, id(3), 5), Err(ErrorCode::Unauthorized));
    assert_eq!(ledger.registry(), None);
    initialize_registry(&mut ledger, id(1), 5).unwrap();
    let registry = ledger.registry().unwrap();
    assert_eq!(registry.admin, id(1));
    assert_eq!((registry.whale_count, registry.degen_count, registry.last_updated), (0, 0, 5));
    assert_eq!(initialize_registry(&mut ledger, id(1), 6), Err(ErrorCode::AccountAlreadyExists));
    assert_eq!(ledger.registry().unwrap(), registry);
}

#[test]
fn trader_calls_need_configuration_registry_and_authority() {
    let admin = id(1);
    let a = [1; 20];
    let mut ledger = Ledger::new(id(9));
    assert_eq!(add_trader(&mut ledger, admin, a, 0, 0, 0, 0, 0, 0, 1), Err(ErrorCode::AccountNotFound));
    assert_eq!(update_trader(&mut ledger, admin, a, 0, 0, 0, 0, 0, 0, 0, 1), Err(ErrorCode::AccountNotFound));
    assert_eq!(remove_trader(&mut ledger, admin, a, 1), Err(ErrorCode::AccountNotFound));
    initialize_config(&mut ledger, admin, id(2), 1, 2, 3, 4).unwrap();
    assert_eq!(add_trader(&mut ledger, admin, a, 0, 0, 0, 0, 0, 0, 1), Err(ErrorCode::AccountNotFound));
    assert_eq!(update_trader(&mut ledger, admin, a, 0, 0, 0, 0, 0, 0, 0, 1), Err(ErrorCode::TraderNotFound));
    assert_eq!(remove_trader(&mut ledger, admin, a, 1), Err(ErrorCode::AccountNotFound));
    initialize_registry(&mut ledger, admin, 2).unwrap();
    let stranger = id(8);
    // The caller is checked before anything else is looked at.
    assert_eq!(add_trader(&mut ledger, stranger, a, 9, 0, 0, 0, 0, 0, 3), Err(ErrorCode::Unauthorized));
    assert_eq!(update_trader(&mut ledger, stranger, a, 9, 0, 0, 0, 0, 0, 0, 3), Err(ErrorCode::Unauthorized));
    assert_eq!(remove_trader(&mut ledger, stranger, a, 3), Err(ErrorCode::Unauthorized));
    assert_eq!(ErrorCode::Unauthorized.kind(), ErrorKind::Authorization);
    assert_eq!(update_trader(&mut ledger, admin, a, 9, 0, 0, 0, 0, 0, 0, 3), Err(ErrorCode::TraderNotFound));
    add_trader(&mut ledger, admin, a, 0, 0, 0, 0, 0, 0, 4).unwrap();
    // An address that is tracked is refused before the tier is looked at.
    assert_eq!(add_trader(&mut ledger, admin, a, 9, 0, 0, 0, 0, 0, 5), Err(ErrorCode::TraderAlreadyExists));
    assert_eq!(update_trader(&mut ledger, admin, a, 5, 0, 0, 0, 0, 0, 0, 5), Err(ErrorCode::InvalidTraderTier));
    assert_eq!(ledger.trader(&a).unwrap().tier, 0);
    assert_eq!(ledger.registry().unwrap().last_updated, 4);
}

#[test]
fn signal_is_published_once() {
    let admin = id(1);
    let mut ledger = ledger_with_registry();
    let asset = *b"BTC/USD\0\0\0\0\0\0\0\0\0";
    publish_signal(&mut ledger, admin, id(40), asset, 1_700_000_000, 64_000, 900, 300, 300, 1).unwrap();
    let first = ledger.signal(&asset, 1_700_000_000).unwrap();
    assert_eq!(first.asset, asset);
    assert_eq!(first.pyth_feed, id(40));
    assert_eq!(first.price, 64_000);
    assert_eq!(first.confidence, 900);
    assert_eq!(first.baseline_confidence, 300);
    assert_eq!(first.multiplier, 300);
    assert_eq!(first.severity, 1);
    assert_eq!(first.detected_at, 1_700_000_000);
    assert_eq!(first.publisher, admin);

    let again = publish_signal(&mut ledger, admin, id(41), asset, 1_700_000_000, 1, 2, 3, 4, 2);
    assert_eq!(again, Err(ErrorCode::AccountAlreadyExists));
    assert_eq!(again.unwrap_err().kind(), ErrorKind::State);
    assert_eq!(ledger.signal(&asset, 1_700_000_000), Some(first));
    assert_eq!(ledger.signal_count(), 1);

    // Another time, or another asset, is another signal.
    publish_signal(&mut ledger, admin, id(40), asset, 1_700_000_001, 1, 2, 3, 4, 0).unwrap();
    publish_signal(&mut ledger, admin, id(40), [5; 16], 1_700_000_000, 1, 2, 3, 4, 2).unwrap();
    publish_signal(&mut ledger, admin, id(40), asset, -1_700_000_000, 1, 2, 3, 4, 2).unwrap();
    assert_eq!(ledger.signal_count(), 4);
    assert_eq!(ledger.signal(&asset, 1_700_000_000), Some(first));
}

#[test]
fn signal_needs_authority_and_a_known_severity() {
    let mut ledger = Ledger::new(id(9));
    let asset = [3; 16];
    assert_eq!(publish_signal(&mut ledger, id(1), id(40), asset, 5, 1, 2, 3, 4, 0), Err(ErrorCode::AccountNotFound));
    initialize_config(&mut ledger, id(1), id(2), 1, 2, 3, 4).unwrap();
    assert_eq!(publish_signal(&mut ledger, id(8), id(40), asset, 5, 1, 2, 3, 4, 9), Err(ErrorCode::Unauthorized));
    let refused = publish_signal(&mut ledger, id(1), id(40), asset, 5, 1, 2, 3, 4, 3);
    assert_eq!(refused, Err(ErrorCode::InvalidSeverity));
    assert_eq!(refused.unwrap_err().kind(), ErrorKind::Validation);
    assert_eq!(ledger.signal(&asset, 5), None);
    assert_eq!(ledger.signal_count(), 0);
    publish_signal(&mut ledger, id(1), id(40), asset, 5, 1, 2, 3, 4, 2).unwrap();
    assert_eq!(ledger.signal(&asset, 5).unwrap().severity, 2);
}

#[test]
fn movement_of_a_trader_without_linked_identity_is_refused() {
    let admin = id(1);
    let mut ledger = ledger_with_registry();
    let a = [1; 20];
    let report = |ledger: &Ledger, caller: Identity, address: [u8; 20]| {
        record_whale_movement(ledger, caller, address, 500, "USDC".to_string(), "Deposit".to_string(), 99)
    };
    assert_eq!(report(&ledger, admin, a), Err(ErrorCode::TraderNotFound));
    add_trader(&mut ledger, admin, a, 0, 0, 0, 0, 0, 0, 11).unwrap();
    let trader = ledger.trader(&a).unwrap();
    let registry = ledger.registry().unwrap();
    let refused = report(&ledger, admin, a);
    assert_eq!(refused, Err(ErrorCode::TraderNotFound));
    assert_eq!(refused.unwrap_err().kind(), ErrorKind::State);
    assert_eq!(report(&ledger, id(8), a), Err(ErrorCode::Unauthorized));
    assert_eq!(ledger.trader(&a), Some(trader));
    assert_eq!(ledger.registry(), Some(registry));
    assert_eq!(report(&Ledger::new(id(9)), admin, a), Err(ErrorCode::AccountNotFound));
}

#[test]
fn refused_subscription_changes_nothing() {
    let mut ledger = Ledger::new(id(9));
    let (admin, treasury, user, mint) = (id(1), id(2), id(3), id(4));
    let from = wallet(user, mint, 30);
    let to = wallet(treasury, mint, 31);
    assert_eq!(
        subscribe(&mut ledger, user, from, to, mint, 1, TransferOutcome::Completed, 5),
        Err(ErrorCode::AccountNotFound)
    );
    assert_eq!(transfer_request(&ledger, user, from, to, mint, 1), Err(ErrorCode::AccountNotFound));
    initialize_config(&mut ledger, admin, treasury, 5, 20, 100, 300).unwrap();

    let rejected = subscribe(&mut ledger, user, from, to, mint, 1, TransferOutcome::Rejected, 5);
    assert_eq!(rejected, Err(ErrorCode::TransferFailed));
    assert_eq!(rejected.unwrap_err().kind(), ErrorKind::Dependency);
    assert_eq!(ledger.subscription(&user), None);

    for tier in [0u8, 3, 4, 255] {
        assert_eq!(transfer_request(&ledger, user, from, to, mint, tier), Err(ErrorCode::InvalidTier));
        assert_eq!(
            subscribe(&mut ledger, user, from, to, mint, tier, TransferOutcome::Completed, 5),
            Err(ErrorCode::InvalidTier)
        );
    }
    assert_eq!(ErrorCode::InvalidTier.kind(), ErrorKind::Validation);
    assert_eq!(ledger.subscription_count(), 0);

    let not_users = wallet(id(8), mint, 30);
    assert_eq!(
        subscribe(&mut ledger, user, not_users, to, mint, 1, TransferOutcome::Completed, 5),
        Err(ErrorCode::Unauthorized)
    );
    let other_token = wallet(user, id(5), 30);
    assert_eq!(
        subscribe(&mut ledger, user, other_token, to, mint, 1, TransferOutcome::Completed, 5),
        Err(ErrorCode::InsufficientBalance)
    );
    let not_treasurys = wallet(id(8), mint, 31);
    assert_eq!(
        subscribe(&mut ledger, user, from, not_treasurys, mint, 1, TransferOutcome::Completed, 5),
        Err(ErrorCode::Unauthorized)
    );
    let treasury_other_token = wallet(treasury, id(5), 31);
    assert_eq!(
        subscribe(&mut ledger, user, from, treasury_other_token, mint, 1, TransferOutcome::Completed, 5),
        Err(ErrorCode::Unauthorized)
    );
    assert_eq!(ledger.subscription_count(), 0);

    subscribe(&mut ledger, user, from, to, mint, 2, TransferOutcome::Completed, 5).unwrap();
    let stored = ledger.subscription(&user).unwrap();
    assert_eq!(
        subscribe(&mut ledger, user, from, to, mint, 2, TransferOutcome::Rejected, 6),
        Err(ErrorCode::TransferFailed)
    );
    assert_eq!(
        subscribe(&mut ledger, user, from, to, mint, 7, TransferOutcome::Completed, 6),
        Err(ErrorCode::InvalidTier)
    );
    assert_eq!(ledger.subscription(&user), Some(stored));
}

#[test]
fn subscribers_are_kept_apart() {
    let mut ledger = Ledger::new(id(9));
    let (admin, treasury, mint) = (id(1), id(2), id(4));
    initialize_config(&mut ledger, admin, treasury, 5, 20, 100, 300).unwrap();
    let to = wallet(treasury, mint, 31);
    let (ann, bob) = (id(50), id(51));
    subscribe(&mut ledger, ann, wallet(ann, mint, 60), to, mint, 1, TransferOutcome::Completed, 10).unwrap();
    subscribe(&mut ledger, bob, wallet(bob, mint, 61), to, mint, 2, TransferOutcome::Completed, 20).unwrap();
    subscribe(&mut ledger, ann, wallet(ann, mint, 60), to, mint, 2, TransferOutcome::Completed, 30).unwrap();
    let a = ledger.subscription(&ann).unwrap();
    let b = ledger.subscription(&bob).unwrap();
    assert_eq!(a, Subscription { user: ann, tier: 2, started_at: 10, expires_at: 410, total_paid: 25, bump: a.bump });
    assert_eq!(b, Subscription { user: bob, tier: 2, started_at: 20, expires_at: 320, total_paid: 20, bump: b.bump });
    assert_eq!(ledger.subscription_count(), 2);
}

#[test]
fn total_paid_is_the_sum_of_the_prices_charged() {
    let mut ledger = Ledger::new(id(9));
    let (admin, treasury, user, mint) = (id(1), id(2), id(3), id(4));
    initialize_config(&mut ledger, admin, treasury, 5_000_000, 20_000_000, 2_592_000, 7_776_000)
        .unwrap();
    let from = wallet(user, mint, 30);
    let to = wallet(treasury, mint, 31);
    let calls: [(u8, TransferOutcome, i64); 7] = [
        (1, TransferOutcome::Completed, 100),
        (2, TransferOutcome::Completed, 200),
        (3, TransferOutcome::Completed, 300),
        (2, TransferOutcome::Rejected, 400),
        (1, TransferOutcome::Completed, 500),
        (1, TransferOutcome::Completed, 90_000_000),
        (2, TransferOutcome::Completed, 90_000_001),
    ];
    let mut sum: u64 = 0;
    for (tier, payment, now) in calls {
        let price = transfer_request(&ledger, user, from, to, mint, tier).map(|t| t.amount);
        assert!(can_store_subscription(&ledger, &user, tier, now));
        if subscribe(&mut ledger, user, from, to, mint, tier, payment, now).is_ok() {
            sum += price.unwrap();
        }
        let paid = ledger.subscription(&user).map(|s| s.total_paid).unwrap_or(0);
        assert_eq!(paid, sum);
    }
    assert_eq!(sum, 3 * 5_000_000 + 2 * 20_000_000);
}

#[test]
fn subscription_that_cannot_be_stored_is_told_apart() {
    let mut ledger = Ledger::new(id(9));
    let (admin, treasury, user, mint) = (id(1), id(2), id(3), id(4));
    assert!(can_store_subscription(&ledger, &user, 1, i64::MAX));
    initialize_config(&mut ledger, admin, treasury, u64::MAX, 1, 10, i64::MAX).unwrap();
    let from = wallet(user, mint, 30);
    let to = wallet(treasury, mint, 31);
    assert!(can_store_subscription(&ledger, &user, 1, i64::MAX - 10));
    assert!(!can_store_subscription(&ledger, &user, 1, i64::MAX - 9));
    assert!(can_store_subscription(&ledger, &user, 2, 0));
    assert!(!can_store_subscription(&ledger, &user, 2, 1));
    assert!(can_store_subscription(&ledger, &user, 2, -5));
    assert!(can_store_subscription(&ledger, &user, 3, i64::MAX));
    subscribe(&mut ledger, user, from, to, mint, 2, TransferOutcome::Completed, -5).unwrap();
    let stored = ledger.subscription(&user).unwrap();
    // Before time zero a new entitlement, which ends at zero, counts as running.
    assert_eq!((stored.started_at, stored.expires_at, stored.total_paid), (-5, i64::MAX, 1));
    // The end cannot move further, and the total cannot take the basic price.
    assert!(!can_store_subscription(&ledger, &user, 2, 0));
    assert!(!can_store_subscription(&ledger, &user, 1, 0));
}
