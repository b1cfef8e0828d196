//! Decisions of the server that publishes the live network status to subscribers.
use crate::network_status::{LiveNetworkStatus, LiveNetworkStatusDiff};
use vstd::prelude::*;
use vstd::string::*;

verus! {

/// What the intake loop hands to the workers of the subscriptions.
#[derive(Clone, Debug)]
pub enum BusEvent {
    NewBlock(Box<LiveNetworkStatusDiff>),
    Error,
}

/// A message to a subscriber: the whole status, or what changed in it.
#[derive(Debug)]
pub struct LiveNetworkStatusUpdate {
    pub network: String,
    pub status: Option<LiveNetworkStatus>,
    pub diff_base_block_number: Option<u64>,
    pub diff: Option<LiveNetworkStatusDiff>,
}

/// The server that publishes the live network status.
#[derive(Default)]
pub struct LiveNetworkStatusPresenter;

impl LiveNetworkStatusPresenter {
    /// Whether a best block number that was published repeats the one already held,
    /// so that it is skipped.
    pub fn is_duplicate(current: &LiveNetworkStatus, best_block_number: u64) -> (duplicate: bool)
        ensures
            duplicate == (current.best_block_number == best_block_number),
    {
        current.best_block_number == best_block_number
    }

    /// Takes in the status read for a new best block: `current` becomes `new_status`,
    /// and the workers are handed what changed, unless no status was held before.
    pub fn accept_status(current: &mut LiveNetworkStatus, new_status: LiveNetworkStatus) -> (event:
        Option<BusEvent>)
        ensures
            *final(current) == new_status,
            old(current).best_block_number == 0 ==> event is None,
            old(current).best_block_number != 0 ==> event == Some(
                BusEvent::NewBlock(Box::new(old(current).spec_diff(new_status))),
            ),
    {
        let event = if current.best_block_number != 0 {
            Some(BusEvent::NewBlock(Box::new(current.get_diff(&new_status))))
        } else {
            None
        };
        *current = new_status;
        event
    }

    /// The first message to a new subscriber: the whole status, once one is held.
    pub fn first_update(network: &str, current: &LiveNetworkStatus) -> (update: Option<
        LiveNetworkStatusUpdate,
    >)
        ensures
            current.best_block_number == 0 ==> update is None,
            current.best_block_number != 0 ==> (update matches Some(message) && message.network@
                == network@ && message.status == Some(*current)
                && message.diff_base_block_number is None && message.diff is None),
    {
        if current.best_block_number != 0 {
            Some(
                LiveNetworkStatusUpdate {
                    network: String::from_str(network),
                    status: Some(*current),
                    diff_base_block_number: None,
                    diff: None,
                },
            )
        } else {
            None
        }
    }

    /// What a subscription's worker sends for an event: the changes of a new block,
    /// or nothing at all for an error, on which the worker ends.
    pub fn update_for(network: &str, event: &BusEvent) -> (update: Option<LiveNetworkStatusUpdate>)
        ensures
            match *event {
                BusEvent::NewBlock(diff) => update matches Some(message) && message.network@
                    == network@ && message.status is None
                    && message.diff_base_block_number is None && message.diff == Some(*diff),
                BusEvent::Error => update is None,
            },
    {
        match event {
            BusEvent::NewBlock(diff) => Some(
                LiveNetworkStatusUpdate {
                    network: String::from_str(network),
                    status: None,
                    diff_base_block_number: None,
                    diff: Some(**diff),
                },
            ),
            BusEvent::Error => None,
        }
    }
}

} // verus!
