use anchor_lang::prelude::Pubkey;
use prediction_copilot::identity::Identity;
use prediction_copilot::instructions::subscription::{TokenAccount, TransferOutcome};
use prediction_copilot::keys::{derive_address, time_to_bytes, RecordKey};
use prediction_copilot::ledger::Ledger;

fn program() -> Identity {
    let mut bytes = [0u8; 32];
    for (i, byte) in bytes.iter_mut().enumerate() {
        *byte = (i as u8).wrapping_mul(37).wrapping_add(11);
    }
    Identity::new(bytes)
}

fn expected(seeds: &[&[u8]], program_id: &Identity) -> (Identity, u8) {
    let (address, bump) =
        Pubkey::find_program_address(seeds, &Pubkey::new_from_array(program_id.bytes));
    (Identity::new(address.to_bytes()), bump)
}

#[test]
fn seeds_of_each_kind_of_record() {
    let user = Identity::new([3; 32]);
    assert_eq!(RecordKey::Config.to_seeds(), vec![b"config".to_vec()]);
    assert_eq!(RecordKey::Registry.to_seeds(), vec![b"registry".to_vec()]);
    assert_eq!(
        RecordKey::Subscription { user }.to_seeds(),
        vec![b"subscription".to_vec(), vec![3u8; 32]]
    );
    assert_eq!(
        RecordKey::Trader { polygon_address: [0xAB; 20] }.to_seeds(),
        vec![b"trader".to_vec(), vec![0xABu8; 20]]
    );
    assert_eq!(
        RecordKey::Signal { asset: *b"ETH/USD\0\0\0\0\0\0\0\0\0", detected_at: 0x0102_0304_0506_0708 }
            .to_seeds(),
        vec![
            b"signal".to_vec(),
            b"ETH/USD\0\0\0\0\0\0\0\0\0".to_vec(),
            vec![8u8, 7, 6, 5, 4, 3, 2, 1],
        ]
    );
}

#[test]
fn time_bytes_are_little_endian() {
    let times = [0i64, 1, -1, 255, 256, -256, 1_700_000_000, -1_700_000_000, i64::MAX, i64::MIN, i64::MIN + 1];
    for time in times {
        assert_eq!(time_to_bytes(time), time.to_le_bytes().to_vec());
    }
    assert_eq!(time_to_bytes(-2), vec![0xFE, 0xFF, 0xFF, 0xFF, 0xFF, 0xFF, 0xFF, 0xFF]);
    assert_eq!(time_to_bytes(258), vec![2, 1, 0, 0, 0, 0, 0, 0]);
}

#[test]
fn slots_are_the_program_derived_addresses() {
    let program_id = program();
    let user = Identity::new([3; 32]);
    let asset = *b"BTC/USD\0\0\0\0\0\0\0\0\0";
    let detected_at: i64 = -1_700_000_123;
    let cases: Vec<(RecordKey, (Identity, u8))> = vec![
        (RecordKey::Config, expected(&[b"config"], &program_id)),
        (RecordKey::Registry, expected(&[b"registry"], &program_id)),
        (RecordKey::Subscription { user }, expected(&[b"subscription", &user.bytes], &program_id)),
        (
            RecordKey::Trader { polygon_address: [0xAB; 20] },
            expected(&[b"trader", &[0xAB; 20]], &program_id),
        ),
        (
            RecordKey::Signal { asset, detected_at },
            expected(&[b"signal", &asset, &detected_at.to_le_bytes()], &program_id),
        ),
    ];
    for (key, slot) in &cases {
        assert_eq!(derive_address(key, &program_id), Some(*slot));
        // The same key gives the same slot, and the slot is not the program itself.
        assert_eq!(derive_address(key, &program_id), Some(*slot));
        assert_ne!(slot.0, program_id);
    }
    for (i, (_, a)) in cases.iter().enumerate() {
        for (_, b) in cases.iter().skip(i + 1) {
            assert_ne!(a.0, b.0);
        }
    }
    // Another program keeps its records elsewhere.
    let other = Identity::new([1; 32]);
    assert_ne!(
        derive_address(&RecordKey::Config, &other).unwrap().0,
        derive_address(&RecordKey::Config, &program_id).unwrap().0
    );
}

#[test]
fn records_carry_the_bump_of_their_slot() {
    let program_id = program();
    let (admin, treasury, user, mint) =
        (Identity::new([1; 32]), Identity::new([2; 32]), Identity::new([3; 32]), Identity::new([4; 32]));
    let mut ledger = Ledger::new(program_id);
    prediction_copilot::initialize_config(&mut ledger, admin, treasury, 5, 20, 100, 300).unwrap();
    prediction_copilot::initialize_registry(&mut ledger, admin, 1).unwrap();
    prediction_copilot::add_trader(&mut ledger, admin, [0xAB; 20], 2, 0, 0, 0, 0, 0, 2).unwrap();
    prediction_copilot::publish_signal(&mut ledger, admin, mint, [9; 16], -77, 1, 2, 3, 4, 0).unwrap();
    let from = TokenAccount { key: Identity::new([30; 32]), owner: user, mint };
    let to = TokenAccount { key: Identity::new([31; 32]), owner: treasury, mint };
    prediction_copilot::subscribe(&mut ledger, user, from, to, mint, 1, TransferOutcome::Completed, 3)
        .unwrap();

    assert_eq!(ledger.config().unwrap().bump, expected(&[b"config"], &program_id).1);
    assert_eq!(ledger.registry().unwrap().bump, expected(&[b"registry"], &program_id).1);
    assert_eq!(
        ledger.trader(&[0xAB; 20]).unwrap().bump,
        expected(&[b"trader", &[0xAB; 20]], &program_id).1
    );
    assert_eq!(
        ledger.signal(&[9; 16], -77).unwrap().bump,
        expected(&[b"signal", &[9; 16], &(-77i64).to_le_bytes()], &program_id).1
    );
    assert_eq!(
        ledger.subscription(&user).unwrap().bump,
        expected(&[b"subscription", &user.bytes], &program_id).1
    );
}
