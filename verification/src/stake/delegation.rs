//! The registry of stake pools as it stands after a block, and the errors of
//! changing it.

use vstd::prelude::*;
use vstd::string::StringExecFns;
use crate::key::{append_hex, hex};
use crate::stake::pool_table::PoolTable;
use crate::stake::role::{StakeKeyId, StakePoolId, StakePoolInfo};
use crate::transaction::AccountIdentifier;

verus! {

/// Why a certificate on stake was refused. Identifiers are shown in
/// hexadecimal in the texts.
#[derive(Debug, Clone, Copy, PartialEq, Eq)]
pub enum DelegationError {
    StakeDelegationSigIsInvalid,
    StakeDelegationStakeKeyIsInvalid(StakeKeyId),
    StakeDelegationPoolKeyIsInvalid(StakePoolId),
    StakeDelegationAccountIsInvalid(AccountIdentifier),
    StakePoolRegistrationPoolSigIsInvalid,
    StakePoolAlreadyExists(StakePoolId),
    StakePoolRetirementSigIsInvalid,
    StakePoolDoesNotExist(StakePoolId),
}

impl DelegationError {
    /// The text that says what was wrong with the block.
    pub open spec fn spec_to_string(self) -> Seq<char> {
        match self {
            DelegationError::StakeDelegationSigIsInvalid => 
                "Block has a stake delegation certificate with an invalid signature"@,
            DelegationError::StakeDelegationStakeKeyIsInvalid(stake_key_id) => 
                "Block has a stake delegation certificate that delegates from a stake key '"@
                + hex(stake_key_id.0.bytes@) + " that does not exist"@,
            DelegationError::StakeDelegationPoolKeyIsInvalid(pool_id) => 
                "Block has a stake delegation certificate that delegates to a pool '"@ + hex(
                pool_id.0.bytes@,
            ) + " that does not exist"@,
            DelegationError::StakeDelegationAccountIsInvalid(account_id) => 
                "Block has a stake delegation certificate that delegates from an account '"@
                + hex(account_id.bytes@) + " that does not exist"@,
            DelegationError::StakePoolRegistrationPoolSigIsInvalid => 
                "Block has a pool registration certificate with an invalid pool signature"@,
            DelegationError::StakePoolAlreadyExists(pool_id) => "Block attempts to register pool '"@
                + hex(pool_id.0.bytes@) + "' which already exists"@,
            DelegationError::StakePoolRetirementSigIsInvalid => 
                "Block has a pool retirement certificate with an invalid pool signature"@,
            DelegationError::StakePoolDoesNotExist(pool_id) => "Block references a pool '"@ + hex(
                pool_id.0.bytes@,
            ) + "' which does not exist"@,
        }
    }

    /// The text that says what was wrong with the block.
    pub fn to_string(&self) -> (text: String)
        ensures
            text@ == self.spec_to_string(),
    {
        match self {
            DelegationError::StakeDelegationSigIsInvalid => {
                "Block has a stake delegation certificate with an invalid signature".to_owned()
            },
            DelegationError::StakeDelegationStakeKeyIsInvalid(stake_key_id) => {
                let mut text =
                    "Block has a stake delegation certificate that delegates from a stake key '".to_owned();
                append_hex(&mut text, stake_key_id.0.as_ref());
                text.append(" that does not exist");
                text
            },
            DelegationError::StakeDelegationPoolKeyIsInvalid(pool_id) => {
                let mut text =
                    "Block has a stake delegation certificate that delegates to a pool '".to_owned();
                append_hex(&mut text, pool_id.0.as_ref());
                text.append(" that does not exist");
                text
            },
            DelegationError::StakeDelegationAccountIsInvalid(account_id) => {
                let mut text =
                    "Block has a stake delegation certificate that delegates from an account '".to_owned();
                append_hex(&mut text, account_id.bytes.as_slice());
                text.append(" that does not exist");
                text
            },
            DelegationError::StakePoolRegistrationPoolSigIsInvalid => {
                "Block has a pool registration certificate with an invalid pool signature".to_owned()
            },
            DelegationError::StakePoolAlreadyExists(pool_id) => {
                let mut text = "Block attempts to register pool '".to_owned();
                append_hex(&mut text, pool_id.0.as_ref());
                text.append("' which already exists");
                text
            },
            DelegationError::StakePoolRetirementSigIsInvalid => {
                "Block has a pool retirement certificate with an invalid pool signature".to_owned()
            },
            DelegationError::StakePoolDoesNotExist(pool_id) => {
                let mut text = "Block references a pool '".to_owned();
                append_hex(&mut text, pool_id.0.as_ref());
                text.append("' which does not exist");
                text
            },
        }
    }
}

/// The pools after registering `owner` among `pools`: the pools with the
/// pool added under its identifier, or the error that a pool with that
/// identifier exists.
pub open spec fn spec_register(
    pools: Map<StakePoolId, StakePoolInfo>,
    owner: StakePoolInfo,
) -> Result<Map<StakePoolId, StakePoolInfo>, DelegationError> {
    if pools.contains_key(owner.id) {
        Err(DelegationError::StakePoolAlreadyExists(owner.id))
    } else {
        Ok(pools.insert(owner.id, owner))
    }
}

/// The pools after retiring the pool `pool_id` from `pools`: the pools
/// without it, or the error that there is no such pool.
pub open spec fn spec_deregister(
    pools: Map<StakePoolId, StakePoolInfo>,
    pool_id: StakePoolId,
) -> Result<Map<StakePoolId, StakePoolInfo>, DelegationError> {
    if pools.contains_key(pool_id) {
        Ok(pools.remove(pool_id))
    } else {
        Err(DelegationError::StakePoolDoesNotExist(pool_id))
    }
}

/// The stake pools that are registered. A state is a value: registering and
/// retiring give a new state and leave the one they started from as it was.
#[derive(Debug)]
pub struct DelegationState {
    stake_pools: PoolTable,
}

impl View for DelegationState {
    type V = Map<StakePoolId, StakePoolInfo>;

    closed spec fn view(&self) -> Map<StakePoolId, StakePoolInfo> {
        self.stake_pools@
    }
}

impl Clone for DelegationState {
    /// Another handle on the same state.
    fn clone(&self) -> (copy: Self)
        ensures
            copy@ == self@,
    {
        DelegationState { stake_pools: self.stake_pools.clone() }
    }
}

impl DelegationState {
    /// The state without stake pools.
    pub fn new() -> (state: DelegationState)
        ensures
            state@ == Map::<StakePoolId, StakePoolInfo>::empty(),
    {
        DelegationState { stake_pools: PoolTable::new() }
    }

    /// Whether the pool `pool_id` is registered.
    pub fn stake_pool_exists(&self, pool_id: &StakePoolId) -> (exists: bool)
        ensures
            exists == self@.contains_key(*pool_id),
    {
        self.stake_pools.lookup(pool_id).is_some()
    }

    /// The registration of the pool `pool_id`, if it is registered.
    pub fn stake_pool(&self, pool_id: &StakePoolId) -> (found: Option<&StakePoolInfo>)
        ensures
            match found {
                Some(info) => self@.contains_key(*pool_id) && *info == self@[*pool_id],
                None => !self@.contains_key(*pool_id),
            },
    {
        self.stake_pools.lookup(pool_id)
    }

    /// The state with the pool `owner` registered under its identifier. A
    /// pool whose identifier is registered already is refused with that
    /// identifier; nothing is overwritten.
    pub fn register_stake_pool(&self, owner: StakePoolInfo) -> (result: Result<
        DelegationState,
        DelegationError,
    >)
        ensures
            match spec_register(self@, owner) {
                Ok(pools) => result matches Ok(state) && state@ == pools,
                Err(error) => result matches Err(found) && found == error,
            },
    {
        let id = owner.to_id();
        match self.stake_pools.insert(id, owner) {
            Ok(stake_pools) => Ok(DelegationState { stake_pools }),
            Err(_) => Err(DelegationError::StakePoolAlreadyExists(id)),
        }
    }

    /// The state without the pool `pool_id`. An identifier that is not
    /// registered is refused with that identifier.
    pub fn deregister_stake_pool(&self, pool_id: &StakePoolId) -> (result: Result<
        DelegationState,
        DelegationError,
    >)
        ensures
            match spec_deregister(self@, *pool_id) {
                Ok(pools) => result matches Ok(state) && state@ == pools,
                Err(error) => result matches Err(found) && found == error,
            },
    {
        match self.stake_pools.remove(pool_id) {
            Ok(stake_pools) => Ok(DelegationState { stake_pools }),
            Err(_) => Err(DelegationError::StakePoolDoesNotExist(*pool_id)),
        }
    }
}

/// A pool that is not registered can be registered; it is registered in
/// the state that results, under its identifier and with its registration,
/// and every other pool is registered there exactly if it was before.
/// Registering it again in that state is refused as a duplicate.
pub proof fn lemma_register(pools: Map<StakePoolId, StakePoolInfo>, owner: StakePoolInfo)
    requires
        !pools.contains_key(owner.id),
    ensures
        spec_register(pools, owner) is Ok,
        spec_register(pools, owner)->Ok_0.contains_key(owner.id),
        spec_register(pools, owner)->Ok_0[owner.id] == owner,
        forall|other: StakePoolId|
            other != owner.id ==> (#[trigger] spec_register(pools, owner)->Ok_0.contains_key(other)
                <==> pools.contains_key(other)),
        forall|other: StakePoolId|
            other != owner.id && pools.contains_key(other) ==> #[trigger] spec_register(
                pools,
                owner,
            )->Ok_0[other] == pools[other],
        spec_register(spec_register(pools, owner)->Ok_0, owner) == Err::<
            Map<StakePoolId, StakePoolInfo>,
            DelegationError,
        >(DelegationError::StakePoolAlreadyExists(owner.id)),
{
}

/// Retiring a pool that is not registered is refused with its identifier.
/// Retiring a registered pool succeeds: the pool is not registered in the
/// state that results, and every other pool is registered there exactly if it
/// was before, with the same registration.
pub proof fn lemma_deregister(pools: Map<StakePoolId, StakePoolInfo>, pool_id: StakePoolId)
    ensures
        !pools.contains_key(pool_id) ==> spec_deregister(pools, pool_id) == Err::<
            Map<StakePoolId, StakePoolInfo>,
            DelegationError,
        >(DelegationError::StakePoolDoesNotExist(pool_id)),
        pools.contains_key(pool_id) ==> spec_deregister(pools, pool_id) is Ok && !spec_deregister(
            pools,
            pool_id,
        )->Ok_0.contains_key(pool_id),
        forall|other: StakePoolId|
            pools.contains_key(pool_id) && other != pool_id ==> (#[trigger] spec_deregister(
                pools,
                pool_id,
            )->Ok_0.contains_key(other) <==> pools.contains_key(other)),
        forall|other: StakePoolId|
            pools.contains_key(pool_id) && other != pool_id && pools.contains_key(other)
                ==> #[trigger] spec_deregister(pools, pool_id)->Ok_0[other] == pools[other],
{
}

} // verus!
