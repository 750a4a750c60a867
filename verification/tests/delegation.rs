use chain_impl_mockchain::key::{PublicKey, VrfPublicKey};
use chain_impl_mockchain::leadership::GenesisPraosLeader;
use chain_impl_mockchain::stake::delegation::{DelegationError, DelegationState};
use chain_impl_mockchain::stake::pool_table::{InsertError, PoolTable, RemoveError};
use chain_impl_mockchain::stake::role::{StakeKeyId, StakePoolId, StakePoolInfo};
use chain_impl_mockchain::transaction::AccountIdentifier;

fn pool_id(bytes: [u8; 32]) -> StakePoolId {
    StakePoolId(chain_impl_mockchain::key::Hash::from_bytes(bytes))
}

fn pool(bytes: [u8; 32], serial: u128) -> StakePoolInfo {
    StakePoolInfo {
        id: pool_id(bytes),
        serial,
        owners: vec![StakeKeyId(PublicKey::from_bytes([serial as u8; 32]))],
        initial_key: GenesisPraosLeader {
            kes_public_key: PublicKey::from_bytes([1; 32]),
            vrf_public_key: VrfPublicKey::from_bytes([2; 32]),
        },
    }
}

/// Identifiers that spread over the whole range and also share long prefixes.
fn many_ids() -> Vec<[u8; 32]> {
    let mut ids = Vec::new();
    for n in 0u32..300 {
        let mut id = [0u8; 32];
        let mut x = n.wrapping_mul(2_654_435_761).wrapping_add(12_345);
        for byte in id.iter_mut() {
            x = x.wrapping_mul(1_664_525).wrapping_add(1_013_904_223);
            *byte = (x >> 24) as u8;
        }
        ids.push(id);
    }
    for bit in 0..256usize {
        let mut id = [0x5au8; 32];
        id[bit / 8] ^= 0x80 >> (bit % 8);
        ids.push(id);
    }
    ids.push([0x5a; 32]);
    ids.push([0x00; 32]);
    ids.push([0xff; 32]);
    ids
}

#[test]
fn a_new_state_has_no_pool() {
    let state = DelegationState::new();
    assert!(!state.stake_pool_exists(&pool_id([0; 32])));
    assert!(!state.stake_pool_exists(&pool_id([7; 32])));
    assert_eq!(state.stake_pool(&pool_id([7; 32])), None);
}

#[test]
fn to_id_is_the_identifier_of_the_registration() {
    assert_eq!(pool([3; 32], 1).to_id(), pool_id([3; 32]));
}

#[test]
fn registering_a_new_pool_gives_a_state_that_has_it_and_leaves_the_old_one() {
    let state = DelegationState::new();
    let owner = pool([7; 32], 1);
    let next = state.register_stake_pool(owner.clone()).unwrap();
    assert!(next.stake_pool_exists(&pool_id([7; 32])));
    assert_eq!(next.stake_pool(&pool_id([7; 32])), Some(&owner));
    assert!(!state.stake_pool_exists(&pool_id([7; 32])));
}

#[test]
fn registering_the_same_pool_again_is_a_duplicate() {
    let state = DelegationState::new();
    let next = state.register_stake_pool(pool([7; 32], 1)).unwrap();
    match next.register_stake_pool(pool([7; 32], 1)) {
        Err(error) => assert_eq!(error, DelegationError::StakePoolAlreadyExists(pool_id([7; 32]))),
        Ok(_) => panic!("registered twice"),
    }
    assert!(next.stake_pool_exists(&pool_id([7; 32])));
}

#[test]
fn a_duplicate_identifier_does_not_overwrite_the_registration() {
    let state = DelegationState::new().register_stake_pool(pool([7; 32], 1)).unwrap();
    match state.register_stake_pool(pool([7; 32], 2)) {
        Err(error) => assert_eq!(error, DelegationError::StakePoolAlreadyExists(pool_id([7; 32]))),
        Ok(_) => panic!("registered twice"),
    }
    assert_eq!(state.stake_pool(&pool_id([7; 32])).unwrap().serial, 1);
}

#[test]
fn deregistering_an_unknown_pool_names_the_missing_identifier() {
    let state = DelegationState::new();
    match state.deregister_stake_pool(&pool_id([9; 32])) {
        Err(error) => assert_eq!(error, DelegationError::StakePoolDoesNotExist(pool_id([9; 32]))),
        Ok(_) => panic!("removed what was not there"),
    }
    let state = state.register_stake_pool(pool([7; 32], 1)).unwrap();
    match state.deregister_stake_pool(&pool_id([9; 32])) {
        Err(error) => assert_eq!(error, DelegationError::StakePoolDoesNotExist(pool_id([9; 32]))),
        Ok(_) => panic!("removed what was not there"),
    }
    assert!(state.stake_pool_exists(&pool_id([7; 32])));
}

#[test]
fn deregistering_removes_the_pool_and_no_other() {
    let state = DelegationState::new()
        .register_stake_pool(pool([7; 32], 1))
        .unwrap()
        .register_stake_pool(pool([8; 32], 2))
        .unwrap()
        .register_stake_pool(pool([9; 32], 3))
        .unwrap();
    let next = state.deregister_stake_pool(&pool_id([8; 32])).unwrap();
    assert!(next.stake_pool_exists(&pool_id([7; 32])));
    assert!(!next.stake_pool_exists(&pool_id([8; 32])));
    assert!(next.stake_pool_exists(&pool_id([9; 32])));
    assert_eq!(next.stake_pool(&pool_id([7; 32])), Some(&pool([7; 32], 1)));
    assert_eq!(next.stake_pool(&pool_id([9; 32])), Some(&pool([9; 32], 3)));
    assert!(state.stake_pool_exists(&pool_id([8; 32])));
    assert_eq!(state.stake_pool(&pool_id([8; 32])), Some(&pool([8; 32], 2)));
}

#[test]
fn a_removed_pool_can_be_registered_again() {
    let state = DelegationState::new().register_stake_pool(pool([7; 32], 1)).unwrap();
    let without = state.deregister_stake_pool(&pool_id([7; 32])).unwrap();
    assert!(without.deregister_stake_pool(&pool_id([7; 32])).is_err());
    let again = without.register_stake_pool(pool([7; 32], 5)).unwrap();
    assert_eq!(again.stake_pool(&pool_id([7; 32])).unwrap().serial, 5);
    assert_eq!(state.stake_pool(&pool_id([7; 32])).unwrap().serial, 1);
}

#[test]
fn snapshots_of_two_branches_stay_apart() {
    let base = DelegationState::new().register_stake_pool(pool([1; 32], 1)).unwrap();
    let left = base.register_stake_pool(pool([2; 32], 2)).unwrap();
    let right = base.register_stake_pool(pool([3; 32], 3)).unwrap();
    let right = right.deregister_stake_pool(&pool_id([1; 32])).unwrap();
    assert!(base.stake_pool_exists(&pool_id([1; 32])));
    assert!(!base.stake_pool_exists(&pool_id([2; 32])));
    assert!(!base.stake_pool_exists(&pool_id([3; 32])));
    assert!(left.stake_pool_exists(&pool_id([1; 32])));
    assert!(left.stake_pool_exists(&pool_id([2; 32])));
    assert!(!left.stake_pool_exists(&pool_id([3; 32])));
    assert!(!right.stake_pool_exists(&pool_id([1; 32])));
    assert!(!right.stake_pool_exists(&pool_id([2; 32])));
    assert!(right.stake_pool_exists(&pool_id([3; 32])));
}

#[test]
fn a_clone_is_the_same_state() {
    let state = DelegationState::new().register_stake_pool(pool([1; 32], 1)).unwrap();
    let copy = state.clone();
    let next = state.register_stake_pool(pool([2; 32], 2)).unwrap();
    assert!(copy.stake_pool_exists(&pool_id([1; 32])));
    assert!(!copy.stake_pool_exists(&pool_id([2; 32])));
    assert!(next.stake_pool_exists(&pool_id([2; 32])));
}

#[test]
fn many_pools_are_all_found_and_all_removed() {
    let ids = many_ids();
    let mut state = DelegationState::new();
    let mut snapshots = Vec::new();
    for (n, id) in ids.iter().enumerate() {
        assert!(!state.stake_pool_exists(&pool_id(*id)));
        let next = state.register_stake_pool(pool(*id, n as u128)).unwrap();
        snapshots.push(state);
        state = next;
    }
    for (n, id) in ids.iter().enumerate() {
        assert_eq!(state.stake_pool(&pool_id(*id)).unwrap().serial, n as u128);
        assert!(state.register_stake_pool(pool(*id, 0)).is_err());
    }
    for (n, snapshot) in snapshots.iter().enumerate() {
        for (m, id) in ids.iter().enumerate() {
            assert_eq!(snapshot.stake_pool_exists(&pool_id(*id)), m < n);
        }
    }
    let full = state.clone();
    for (n, id) in ids.iter().enumerate() {
        state = state.deregister_stake_pool(&pool_id(*id)).unwrap();
        assert!(!state.stake_pool_exists(&pool_id(*id)));
        for (m, other) in ids.iter().enumerate() {
            assert_eq!(state.stake_pool_exists(&pool_id(*other)), m > n);
        }
    }
    for id in ids.iter() {
        assert!(state.deregister_stake_pool(&pool_id(*id)).is_err());
        assert!(full.stake_pool_exists(&pool_id(*id)));
    }
}

#[test]
fn pool_table_insert_lookup_remove() {
    let table = PoolTable::new();
    assert_eq!(table.lookup(&pool_id([1; 32])), None);
    assert_eq!(table.remove(&pool_id([1; 32])).err(), Some(RemoveError::KeyNotFound));
    let one = table.insert(pool_id([1; 32]), pool([1; 32], 1)).unwrap();
    assert_eq!(one.lookup(&pool_id([1; 32])), Some(&pool([1; 32], 1)));
    assert_eq!(
        one.insert(pool_id([1; 32]), pool([1; 32], 2)).err(),
        Some(InsertError::EntryExists)
    );
    let mut near = [1u8; 32];
    near[31] = 0;
    let two = one.insert(pool_id(near), pool(near, 2)).unwrap();
    assert_eq!(two.lookup(&pool_id(near)), Some(&pool(near, 2)));
    assert_eq!(two.lookup(&pool_id([1; 32])), Some(&pool([1; 32], 1)));
    assert_eq!(one.lookup(&pool_id(near)), None);
    let back = two.remove(&pool_id([1; 32])).unwrap();
    assert_eq!(back.lookup(&pool_id([1; 32])), None);
    assert_eq!(back.lookup(&pool_id(near)), Some(&pool(near, 2)));
    let copy = two.clone();
    assert_eq!(copy.lookup(&pool_id(near)), Some(&pool(near, 2)));
}

#[test]
fn stake_pool_ids_compare_by_their_bytes() {
    assert!(pool_id([1; 32]).same(&pool_id([1; 32])));
    let mut near = [1u8; 32];
    near[17] = 2;
    assert!(!pool_id([1; 32]).same(&pool_id(near)));
}

#[test]
fn delegation_error_texts() {
    let id = {
        let mut bytes = [0u8; 32];
        for (i, byte) in bytes.iter_mut().enumerate() {
            *byte = (i as u8) * 8 + 1;
        }
        bytes
    };
    let hex = "0109111921293139414951596169717981899199a1a9b1b9c1c9d1d9e1e9f1f9";
    assert_eq!(
        DelegationError::StakeDelegationSigIsInvalid.to_string(),
        "Block has a stake delegation certificate with an invalid signature"
    );
    assert_eq!(
        DelegationError::StakeDelegationStakeKeyIsInvalid(StakeKeyId(PublicKey::from_bytes(id)))
            .to_string(),
        format!(
            "Block has a stake delegation certificate that delegates from a stake key '{} that does not exist",
            hex
        )
    );
    assert_eq!(
        DelegationError::StakeDelegationPoolKeyIsInvalid(pool_id(id)).to_string(),
        format!(
            "Block has a stake delegation certificate that delegates to a pool '{} that does not exist",
            hex
        )
    );
    assert_eq!(
        DelegationError::StakeDelegationAccountIsInvalid(AccountIdentifier { bytes: id })
            .to_string(),
        format!(
            "Block has a stake delegation certificate that delegates from an account '{} that does not exist",
            hex
        )
    );
    assert_eq!(
        DelegationError::StakePoolRegistrationPoolSigIsInvalid.to_string(),
        "Block has a pool registration certificate with an invalid pool signature"
    );
    assert_eq!(
        DelegationError::StakePoolAlreadyExists(pool_id(id)).to_string(),
        format!("Block attempts to register pool '{}' which already exists", hex)
    );
    assert_eq!(
        DelegationError::StakePoolRetirementSigIsInvalid.to_string(),
        "Block has a pool retirement certificate with an invalid pool signature"
    );
    assert_eq!(
        DelegationError::StakePoolDoesNotExist(pool_id(id)).to_string(),
        format!("Block references a pool '{}' which does not exist", hex)
    );
}

fn shared_between_threads<T: Send + Sync>(_: &T) {}

#[test]
fn states_can_be_shared_between_threads() {
    let state = DelegationState::new().register_stake_pool(pool([1; 32], 1)).unwrap();
    shared_between_threads(&state);
    shared_between_threads(&PoolTable::new());
}
