//! The keys that records are known by, the seeds made of them, and the slot that a
//! program derives from the seeds.

use crate::identity::Identity;
use anchor_lang::prelude::Pubkey;
use vstd::prelude::*;

verus! {

/// What a record is known by: its kind, and for the kinds that have many records, what
/// tells one from another.
#[derive(Clone, Copy, Debug, PartialEq, Eq)]
pub enum RecordKey {
    Config,
    Registry,
    Subscription { user: Identity },
    Trader { polygon_address: [u8; 20] },
    Signal { asset: [u8; 16], detected_at: i64 },
}

/// The bytes of the word `config`.
pub open spec fn config_tag() -> Seq<u8> {
    seq![99u8, 111u8, 110u8, 102u8, 105u8, 103u8]
}

/// The bytes of the word `registry`.
pub open spec fn registry_tag() -> Seq<u8> {
    seq![114u8, 101u8, 103u8, 105u8, 115u8, 116u8, 114u8, 121u8]
}

/// The bytes of the word `subscription`.
pub open spec fn subscription_tag() -> Seq<u8> {
    seq![115u8, 117u8, 98u8, 115u8, 99u8, 114u8, 105u8, 112u8, 116u8, 105u8, 111u8, 110u8]
}

/// The bytes of the word `trader`.
pub open spec fn trader_tag() -> Seq<u8> {
    seq![116u8, 114u8, 97u8, 100u8, 101u8, 114u8]
}

/// The bytes of the word `signal`.
pub open spec fn signal_tag() -> Seq<u8> {
    seq![115u8, 105u8, 103u8, 110u8, 97u8, 108u8]
}

/// The unsigned number with the same 64 bits as `x`.
pub open spec fn same_bits(x: i64) -> u64 {
    if x >= 0 {
        x as u64
    } else {
        (x + 0x1_0000_0000_0000_0000) as u64
    }
}

/// The eight bytes of a time, lowest first.
pub open spec fn time_bytes(x: i64) -> Seq<u8> {
    vstd::bytes::spec_u64_to_le_bytes(same_bits(x))
}

/// All the parts one after another.
pub open spec fn joined(parts: Seq<Seq<u8>>) -> Seq<u8>
    decreases parts.len(),
{
    if parts.len() == 0 {
        Seq::empty()
    } else {
        joined(parts.drop_last()) + parts.last()
    }
}

/// What a list of byte strings holds.
pub open spec fn seed_bytes(seeds: Vec<Vec<u8>>) -> Seq<Seq<u8>> {
    Seq::new(seeds@.len(), |i: int| seeds@[i]@)
}

impl RecordKey {
    /// The seeds that the record's slot is derived from: a word for the kind, then what
    /// tells the record from others of its kind.
    pub open spec fn seeds(self) -> Seq<Seq<u8>> {
        match self {
            RecordKey::Config => seq![config_tag()],
            RecordKey::Registry => seq![registry_tag()],
            RecordKey::Subscription { user } => seq![subscription_tag(), user.bytes@],
            RecordKey::Trader { polygon_address } => seq![trader_tag(), polygon_address@],
            RecordKey::Signal { asset, detected_at } => seq![
                signal_tag(),
                asset@,
                time_bytes(detected_at),
            ],
        }
    }

    /// The seeds one after another, which is all that a slot's address depends on.
    pub open spec fn material(self) -> Seq<u8> {
        match self {
            RecordKey::Config => config_tag(),
            RecordKey::Registry => registry_tag(),
            RecordKey::Subscription { user } => subscription_tag() + user.bytes@,
            RecordKey::Trader { polygon_address } => trader_tag() + polygon_address@,
            RecordKey::Signal { asset, detected_at } => signal_tag() + asset@ + time_bytes(
                detected_at,
            ),
        }
    }

    /// The seeds of the record's slot.
    pub fn to_seeds(&self) -> (r: Vec<Vec<u8>>)
        ensures
            seed_bytes(r) == self.seeds(),
    {
        let mut seeds: Vec<Vec<u8>> = Vec::new();
        match self {
            RecordKey::Config => {
                seeds.push(vec![99u8, 111u8, 110u8, 102u8, 105u8, 103u8]);
            },
            RecordKey::Registry => {
                seeds.push(vec![114u8, 101u8, 103u8, 105u8, 115u8, 116u8, 114u8, 121u8]);
            },
            RecordKey::Subscription { user } => {
                seeds.push(
                    vec![
                        115u8,
                        117u8,
                        98u8,
                        115u8,
                        99u8,
                        114u8,
                        105u8,
                        112u8,
                        116u8,
                        105u8,
                        111u8,
                        110u8,
                    ],
                );
                seeds.push(vstd::slice::slice_to_vec(user.bytes.as_slice()));
            },
            RecordKey::Trader { polygon_address } => {
                seeds.push(vec![116u8, 114u8, 97u8, 100u8, 101u8, 114u8]);
                seeds.push(vstd::slice::slice_to_vec(polygon_address.as_slice()));
            },
            RecordKey::Signal { asset, detected_at } => {
                seeds.push(vec![115u8, 105u8, 103u8, 110u8, 97u8, 108u8]);
                seeds.push(vstd::slice::slice_to_vec(asset.as_slice()));
                seeds.push(time_to_bytes(*detected_at));
            },
        }
        proof {
            assert(seed_bytes(seeds) =~= self.seeds());
        }
        seeds
    }
}

/// The eight bytes of a time, lowest first.
pub fn time_to_bytes(x: i64) -> (r: Vec<u8>)
    ensures
        r@ == time_bytes(x),
        r@.len() == 8,
{
    let bits: u64 = if x >= 0 {
        x as u64
    } else {
        ((x + i64::MAX) + 1) as u64 + 0x8000_0000_0000_0000u64
    };
    vstd::bytes::u64_to_le_bytes(bits)
}

/// The seeds of a key, joined, are its material.
pub proof fn lemma_material_is_joined_seeds(key: RecordKey)
    ensures
        joined(key.seeds()) == key.material(),
{
    reveal_with_fuel(joined, 4);
    let parts = key.seeds();
    match key {
        RecordKey::Config => {
            assert(parts.drop_last() =~= Seq::<Seq<u8>>::empty());
            assert(joined(parts) =~= key.material());
        },
        RecordKey::Registry => {
            assert(parts.drop_last() =~= Seq::<Seq<u8>>::empty());
            assert(joined(parts) =~= key.material());
        },
        RecordKey::Subscription { user } => {
            assert(parts.drop_last() =~= seq![subscription_tag()]);
            assert(parts.drop_last().drop_last() =~= Seq::<Seq<u8>>::empty());
            assert(joined(parts) =~= key.material());
        },
        RecordKey::Trader { polygon_address } => {
            assert(parts.drop_last() =~= seq![trader_tag()]);
            assert(parts.drop_last().drop_last() =~= Seq::<Seq<u8>>::empty());
            assert(joined(parts) =~= key.material());
        },
        RecordKey::Signal { asset, detected_at } => {
            assert(parts.drop_last() =~= seq![signal_tag(), asset@]);
            assert(parts.drop_last().drop_last() =~= seq![signal_tag()]);
            assert(parts.drop_last().drop_last().drop_last() =~= Seq::<Seq<u8>>::empty());
            assert(joined(parts) =~= key.material());
        },
    }
}

/// Distinct keys never share a slot's material: two keys whose seeds, joined, are the same
/// bytes are the same key. So no two records are derived from the same input.
pub proof fn lemma_keys_do_not_collide(a: RecordKey, b: RecordKey)
    requires
        joined(a.seeds()) == joined(b.seeds()),
    ensures
        a == b,
{
    lemma_material_is_joined_seeds(a);
    lemma_material_is_joined_seeds(b);
    vstd::bytes::lemma_auto_spec_u64_to_from_le_bytes();
    let m = a.material();
    match (a, b) {
        (RecordKey::Subscription { user: ua }, RecordKey::Subscription { user: ub }) => {
            assert(ua.bytes@ =~= m.subrange(12, 44));
            assert(ub.bytes@ =~= m.subrange(12, 44));
            assert(ua.bytes =~= ub.bytes);
        },
        (
            RecordKey::Trader { polygon_address: pa },
            RecordKey::Trader { polygon_address: pb },
        ) => {
            assert(pa@ =~= m.subrange(6, 26));
            assert(pb@ =~= m.subrange(6, 26));
            assert(pa =~= pb);
        },
        (
            RecordKey::Signal { asset: aa, detected_at: ta },
            RecordKey::Signal { asset: ab, detected_at: tb },
        ) => {
            assert(aa@ =~= m.subrange(6, 22));
            assert(ab@ =~= m.subrange(6, 22));
            assert(aa =~= ab);
            assert(time_bytes(ta) =~= m.subrange(22, 30));
            assert(time_bytes(tb) =~= m.subrange(22, 30));
            assert(same_bits(ta) == same_bits(tb));
        },
        _ => {
            // Keys of two kinds differ in the length of their material, and there is one
            // key only of each of the two single kinds.
            assert(a.material().len() == b.material().len());
        },
    }
}

/// The address and bump that `Pubkey::try_find_program_address` finds for the given seeds
/// under the given program, or `None` where it finds none.
pub uninterp spec fn program_address(seeds: Seq<Seq<u8>>, program_id: Seq<u8>) -> Option<
    (Seq<u8>, u8),
>;

/// Calls `Pubkey::try_find_program_address`. The result depends on the seeds and the
/// program alone; it is known here only under the name `program_address`.
#[verifier::external_body]
fn try_find_program_address(seeds: &Vec<Vec<u8>>, program_id: &[u8; 32]) -> (r: Option<
    ([u8; 32], u8),
>)
    ensures
        match r {
            Some((address, bump)) => program_address(seed_bytes(*seeds), program_id@) == Some(
                (address@, bump),
            ),
            None => program_address(seed_bytes(*seeds), program_id@) is None,
        },
{
    let mut parts: Vec<&[u8]> = Vec::new();
    for seed in seeds.iter() {
        parts.push(seed.as_slice());
    }
    match Pubkey::try_find_program_address(&parts, &Pubkey::new_from_array(*program_id)) {
        Some((address, bump)) => Some((address.to_bytes(), bump)),
        None => None,
    }
}

/// The address of the slot that `program_id` keeps the record `key` in, if one is found.
pub open spec fn slot_of(key: RecordKey, program_id: Identity) -> Option<(Seq<u8>, u8)> {
    program_address(key.seeds(), program_id.bytes@)
}

/// The bump of the slot that `program_id` keeps the record `key` in, if one is found.
pub open spec fn bump_of(key: RecordKey, program_id: Identity) -> Option<u8> {
    match slot_of(key, program_id) {
        Some((_, bump)) => Some(bump),
        None => None,
    }
}

/// Derives the slot of the record `key` under `program_id`: its address and its bump. The
/// same key under the same program always gives the same slot.
pub fn derive_address(key: &RecordKey, program_id: &Identity) -> (r: Option<(Identity, u8)>)
    ensures
        match r {
            Some((address, bump)) => slot_of(*key, *program_id) == Some((address.bytes@, bump)),
            None => slot_of(*key, *program_id) is None,
        },
{
    let seeds = key.to_seeds();
    match try_find_program_address(&seeds, &program_id.bytes) {
        Some((address, bump)) => Some((Identity::new(address), bump)),
        None => None,
    }
}

} // verus!
