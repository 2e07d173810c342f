//! Engine configuration: the supported assets and user groups, and the
//! explicit store that replaces ambient per-process state.

use vstd::prelude::*;

use crate::model::{GroupId, Timestamp, UUID};

verus! {

/// An asset the wallet can hold and transfer.
#[derive(Clone, Debug)]
pub struct WalletAsset {
    pub symbol: String,
    pub decimals: u32,
}

/// A named group of users, referenced by access policies.
#[derive(Clone, Debug)]
pub struct UserGroup {
    pub id: GroupId,
    pub name: String,
}

/// Static configuration: the assets the wallet supports and the available
/// user groups.
#[derive(Clone, Debug)]
pub struct Configuration {
    pub supported_assets: Vec<WalletAsset>,
    pub user_groups: Vec<UserGroup>,
}

/// Mutable per-unit configuration, written once at initialization and on
/// upgrades.
#[derive(Clone, Debug)]
pub struct CanisterConfig {
    pub owners: Vec<UUID>,
    pub last_upgrade_timestamp: Timestamp,
}

/// The configuration cell: uninitialized at first start, then holding the
/// written configuration.
#[derive(Clone, Debug)]
pub enum CanisterState {
    Uninitialized,
    Initialized(CanisterConfig),
}

/// Reads the configuration out of an initialized state.
pub fn canister_config(state: &CanisterState) -> (r: &CanisterConfig)
    requires
        state is Initialized,
    ensures
        *r == state->Initialized_0,
{
    match state {
        CanisterState::Initialized(config) => config,
        CanisterState::Uninitialized => unreached(),
    }
}

/// Mutable access to the configuration of an initialized state.
pub fn canister_config_mut(state: &mut CanisterState) -> (r: &mut CanisterConfig)
    requires
        (*old(state)) is Initialized,
    ensures
        *r == (*old(state))->Initialized_0,
        *final(state) == CanisterState::Initialized(*final(r)),
{
    match state {
        CanisterState::Initialized(config) => config,
        CanisterState::Uninitialized => unreached(),
    }
}

/// Writes the configuration, initializing the state if it was not.
pub fn write_canister_config(state: &mut CanisterState, config: CanisterConfig)
    ensures
        *final(state) == CanisterState::Initialized(config),
{
    *state = CanisterState::Initialized(config);
}

} // verus!
