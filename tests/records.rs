use beacon_core::primitives::Hash256;
use beacon_core::records::{Crosslink, ShardReassignmentRecord};
use rand::{RngCore, SeedableRng};
use rand_xorshift::XorShiftRng;

fn random_hash(rng: &mut XorShiftRng) -> Hash256 {
    let mut bytes = [0u8; 32];
    rng.fill_bytes(&mut bytes);
    Hash256 { bytes }
}

fn random_crosslink(rng: &mut XorShiftRng) -> Crosslink {
    Crosslink { epoch: rng.next_u64(), shard_block_root: random_hash(rng) }
}

fn random_shard_reassignment_record(rng: &mut XorShiftRng) -> ShardReassignmentRecord {
    ShardReassignmentRecord { validator_index: rng.next_u64(), shard: rng.next_u64(), slot: rng.next_u64() }
}

fn hex(bytes: &[u8]) -> String {
    bytes.iter().map(|b| format!("{:02x}", b)).collect()
}

#[test]
fn crosslink_test_hash_tree_root_internal() {
    let mut rng = XorShiftRng::from_seed([42; 16]);
    let value = random_crosslink(&mut rng);

    let result = value.hash_tree_root_internal();

    assert_eq!(result.len(), 32);
}

#[test]
fn shard_reassignment_record_test_hash_tree_root_internal() {
    let mut rng = XorShiftRng::from_seed([42; 16]);
    let value = random_shard_reassignment_record(&mut rng);

    let result = value.hash_tree_root_internal();

    assert_eq!(result.len(), 32);
}

#[test]
fn zero_crosslink_root_is_hash_of_two_zero_leaves() {
    let zero = Crosslink::zero();
    assert_eq!(zero.epoch, 0);
    assert_eq!(zero.shard_block_root, Hash256 { bytes: [0; 32] });
    assert_eq!(
        hex(&zero.hash_tree_root_internal()),
        "f5a5fd42d16a20302798ef6ed309979b43003d2320d9f0e8ea9831a92759fb4b"
    );
}

#[test]
fn roots_differ_with_fields() {
    let a = ShardReassignmentRecord { validator_index: 1, shard: 2, slot: 3 };
    let b = ShardReassignmentRecord { validator_index: 1, shard: 2, slot: 4 };
    assert_ne!(a.hash_tree_root_internal(), b.hash_tree_root_internal());
    let c = Crosslink { epoch: 1, shard_block_root: Hash256 { bytes: [0; 32] } };
    assert_ne!(c.hash_tree_root_internal(), Crosslink::zero().hash_tree_root_internal());
}
