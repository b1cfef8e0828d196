//! Events of interest to the notification rules, as the relational store keeps them.
use crate::account::AccountId;
use vstd::prelude::*;

verus! {

/// A validator was reported offline.
#[derive(Clone, Debug)]
pub struct ValidatorOfflineEvent {
    pub id: u32,
    pub block_hash: String,
    pub event_index: Option<u32>,
    pub validator_account_id: AccountId,
}

/// A validator was chilled.
#[derive(Clone, Debug)]
pub struct ChilledEvent {
    pub id: u32,
    pub block_hash: String,
    pub extrinsic_index: Option<u32>,
    pub event_index: u32,
    pub stash_account_id: AccountId,
}

} // verus!
