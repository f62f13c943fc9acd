//! The ledger: what it holds, seen as maps from keys to records, and the store that
//! keeps it in memory.

use crate::identity::{bytes_equal, Identity};
use crate::state::{is_degen, ProgramConfig, PythSignal, Subscription, TrackedTrader, WhaleRegistry};
use crate::table::{Keyed, Table};
use vstd::prelude::*;

verus! {

impl Keyed for Subscription {
    type Key = Identity;

    /// A subscription is filed under its subscriber.
    open spec fn key(&self) -> Identity {
        self.user
    }

    fn get_key(&self) -> (k: Identity) {
        self.user
    }

    fn has_key(&self, key: &Identity) -> (r: bool) {
        self.user.same(key)
    }
}

impl Keyed for TrackedTrader {
    type Key = [u8; 20];

    /// A trader is filed under its address.
    open spec fn key(&self) -> [u8; 20] {
        self.polygon_address
    }

    fn get_key(&self) -> (k: [u8; 20]) {
        self.polygon_address
    }

    fn has_key(&self, key: &[u8; 20]) -> (r: bool) {
        let r = bytes_equal(self.polygon_address.as_slice(), key.as_slice());
        proof {
            if r {
                assert(self.polygon_address =~= *key);
            }
        }
        r
    }
}

impl Keyed for PythSignal {
    type Key = ([u8; 16], i64);

    /// A signal is filed under its asset and the time of detection.
    open spec fn key(&self) -> ([u8; 16], i64) {
        (self.asset, self.detected_at)
    }

    fn get_key(&self) -> (k: ([u8; 16], i64)) {
        (self.asset, self.detected_at)
    }

    fn has_key(&self, key: &([u8; 16], i64)) -> (r: bool) {
        let same_asset = bytes_equal(self.asset.as_slice(), key.0.as_slice());
        proof {
            if same_asset {
                assert(self.asset =~= key.0);
            }
        }
        same_asset && self.detected_at == key.1
    }
}

/// What a ledger holds: the two single records, if they were created, and the records of
/// each other kind by their keys.
pub struct LedgerView {
    pub program_id: Identity,
    pub config: Option<ProgramConfig>,
    pub registry: Option<WhaleRegistry>,
    pub subscriptions: Map<Identity, Subscription>,
    pub traders: Map<[u8; 20], TrackedTrader>,
    pub signals: Map<([u8; 16], i64), PythSignal>,
}

impl LedgerView {
    /// The ledger of `program_id` before anything was created.
    pub open spec fn empty(program_id: Identity) -> LedgerView {
        LedgerView {
            program_id,
            config: None,
            registry: None,
            subscriptions: Map::empty(),
            traders: Map::empty(),
            signals: Map::empty(),
        }
    }

    /// There are finitely many records, and each is filed under its own key.
    pub open spec fn wf(self) -> bool {
        &&& self.subscriptions.dom().finite()
        &&& self.traders.dom().finite()
        &&& self.signals.dom().finite()
        &&& forall|user: Identity| #[trigger]
            self.subscriptions.contains_key(user) ==> self.subscriptions[user].user == user
        &&& forall|address: [u8; 20]| #[trigger]
            self.traders.contains_key(address) ==> self.traders[address].polygon_address
                == address
        &&& forall|key: ([u8; 16], i64)| #[trigger]
            self.signals.contains_key(key) ==> (self.signals[key].asset, self.signals[key].detected_at)
                == key
    }

    /// Every record is well formed: no plan number, tier or severity is out of range, and
    /// no entitlement ends before it starts.
    pub open spec fn records_wf(self) -> bool {
        &&& forall|user: Identity| #[trigger]
            self.subscriptions.contains_key(user) ==> self.subscriptions[user].wf()
        &&& forall|address: [u8; 20]| #[trigger]
            self.traders.contains_key(address) ==> self.traders[address].wf()
        &&& forall|key: ([u8; 16], i64)| #[trigger]
            self.signals.contains_key(key) ==> self.signals[key].wf()
    }

    /// No plan lasts a negative time.
    pub open spec fn durations_not_negative(self) -> bool {
        self.config matches Some(config) ==> config.basic_duration >= 0 && config.pro_duration
            >= 0
    }

    /// The subscription of `user`, if there is one.
    pub open spec fn subscription(self, user: Identity) -> Option<Subscription> {
        if self.subscriptions.contains_key(user) {
            Some(self.subscriptions[user])
        } else {
            None
        }
    }

    /// The trader at `polygon_address`, if there is one.
    pub open spec fn trader(self, polygon_address: [u8; 20]) -> Option<TrackedTrader> {
        if self.traders.contains_key(polygon_address) {
            Some(self.traders[polygon_address])
        } else {
            None
        }
    }

    /// The signal on `asset` detected at `detected_at`, if there is one.
    pub open spec fn signal(self, asset: [u8; 16], detected_at: i64) -> Option<PythSignal> {
        if self.signals.contains_key((asset, detected_at)) {
            Some(self.signals[(asset, detected_at)])
        } else {
            None
        }
    }

    /// The addresses of the traders in the degen bucket.
    pub open spec fn degens(self) -> Set<[u8; 20]> {
        Set::new(
            |address: [u8; 20]|
                self.traders.contains_key(address) && is_degen(self.traders[address].tier),
        )
    }

    /// The registry's counters say how many traders there are: together they count every
    /// trader, and the degen counter counts those of tier 4. Before the registry is
    /// created there are no traders.
    pub open spec fn counters_consistent(self) -> bool {
        match self.registry {
            Some(registry) => {
                &&& registry.whale_count + registry.degen_count == self.traders.dom().len()
                &&& registry.degen_count == self.degens().len()
            },
            None => self.traders.dom().len() == 0,
        }
    }
}

/// The records of one program, kept in memory: one configuration and one registry at most,
/// and the subscriptions, traders and signals by their keys.
pub struct Ledger {
    program_id: Identity,
    config: Option<ProgramConfig>,
    registry: Option<WhaleRegistry>,
    subscriptions: Table<Subscription>,
    traders: Table<TrackedTrader>,
    signals: Table<PythSignal>,
}

impl View for Ledger {
    type V = LedgerView;

    closed spec fn view(&self) -> LedgerView {
        LedgerView {
            program_id: self.program_id,
            config: self.config,
            registry: self.registry,
            subscriptions: self.subscriptions@,
            traders: self.traders@,
            signals: self.signals@,
        }
    }
}

impl Ledger {
    /// A ledger for the program `program_id`, with no records.
    pub fn new(program_id: Identity) -> (r: Ledger)
        ensures
            r@ == LedgerView::empty(program_id),
    {
        Ledger {
            program_id,
            config: None,
            registry: None,
            subscriptions: Table::new(),
            traders: Table::new(),
            signals: Table::new(),
        }
    }

    /// What a ledger holds is always well formed.
    pub proof fn lemma_view_wf(&self)
        ensures
            self@.wf(),
    {
        self.subscriptions.lemma_view();
        self.traders.lemma_view();
        self.signals.lemma_view();
    }

    /// The program that the records belong to.
    pub fn program_id(&self) -> (r: Identity)
        ensures
            r == self@.program_id,
    {
        self.program_id
    }

    /// The configuration, if it was created.
    pub fn config(&self) -> (r: Option<ProgramConfig>)
        ensures
            r == self@.config,
    {
        self.config
    }

    /// The registry, if it was created.
    pub fn registry(&self) -> (r: Option<WhaleRegistry>)
        ensures
            r == self@.registry,
    {
        self.registry
    }

    /// The subscription of `user`, if there is one.
    pub fn subscription(&self, user: &Identity) -> (r: Option<Subscription>)
        ensures
            r == self@.subscription(*user),
    {
        self.subscriptions.get(user)
    }

    /// The trader at `polygon_address`, if there is one.
    pub fn trader(&self, polygon_address: &[u8; 20]) -> (r: Option<TrackedTrader>)
        ensures
            r == self@.trader(*polygon_address),
    {
        self.traders.get(polygon_address)
    }

    /// The signal on `asset` detected at `detected_at`, if there is one.
    pub fn signal(&self, asset: &[u8; 16], detected_at: i64) -> (r: Option<PythSignal>)
        ensures
            r == self@.signal(*asset, detected_at),
    {
        self.signals.get(&(*asset, detected_at))
    }

    /// The number of subscriptions.
    pub fn subscription_count(&self) -> (r: usize)
        ensures
            r == self@.subscriptions.dom().len(),
    {
        self.subscriptions.len()
    }

    /// The number of traders.
    pub fn trader_count(&self) -> (r: usize)
        ensures
            r == self@.traders.dom().len(),
    {
        self.traders.len()
    }

    /// The number of signals.
    pub fn signal_count(&self) -> (r: usize)
        ensures
            r == self@.signals.dom().len(),
    {
        self.signals.len()
    }

    /// Stores the configuration.
    pub(crate) fn set_config(&mut self, config: ProgramConfig)
        ensures
            final(self)@ == (LedgerView { config: Some(config), ..old(self)@ }),
    {
        self.config = Some(config);
    }

    /// Stores the registry.
    pub(crate) fn set_registry(&mut self, registry: WhaleRegistry)
        ensures
            final(self)@ == (LedgerView { registry: Some(registry), ..old(self)@ }),
    {
        self.registry = Some(registry);
    }

    /// Stores a subscription under its subscriber.
    pub(crate) fn put_subscription(&mut self, subscription: Subscription)
        ensures
            final(self)@ == (LedgerView {
                subscriptions: old(self)@.subscriptions.insert(subscription.user, subscription),
                ..old(self)@
            }),
    {
        self.subscriptions.put(subscription);
    }

    /// Stores a trader under its address.
    pub(crate) fn put_trader(&mut self, trader: TrackedTrader)
        ensures
            final(self)@ == (LedgerView {
                traders: old(self)@.traders.insert(trader.polygon_address, trader),
                ..old(self)@
            }),
    {
        self.traders.put(trader);
    }

    /// Frees the slot of the trader at `polygon_address`.
    pub(crate) fn remove_trader(&mut self, polygon_address: &[u8; 20])
        ensures
            final(self)@ == (LedgerView {
                traders: old(self)@.traders.remove(*polygon_address),
                ..old(self)@
            }),
    {
        let _ = self.traders.remove(polygon_address);
    }

    /// Stores a signal under its asset and time of detection.
    pub(crate) fn put_signal(&mut self, signal: PythSignal)
        ensures
            final(self)@ == (LedgerView {
                signals: old(self)@.signals.insert((signal.asset, signal.detected_at), signal),
                ..old(self)@
            }),
    {
        self.signals.put(signal);
    }
}

} // verus!
