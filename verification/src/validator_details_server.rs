//! Decisions of the server that publishes the details of one validator to each
//! of its subscribers.
use crate::account::AccountId;
use crate::fingerprint::{fingerprint_text, text_fingerprint};
use crate::hex_codec::{hex_bytes, is_hex_text, without_hex_prefix};
use crate::validator_details::{ValidatorDetails, ValidatorDetailsDiff};
use vstd::prelude::*;
use vstd::string::*;

verus! {

/// What the intake loop hands to the workers of the subscriptions.
#[derive(Clone, Copy, Debug, PartialEq, Eq, Structural)]
pub enum BusEvent {
    NewFinalizedBlock(u64),
    Error,
}

/// A message to a subscriber: the finalized block it is about, with the whole
/// details, with what changed in them, or with neither (a heartbeat).
#[derive(Debug)]
pub struct ValidatorDetailsUpdate {
    pub finalized_block_number: Option<u64>,
    pub validator_details: Option<ValidatorDetails>,
    pub validator_details_update: Option<ValidatorDetailsDiff>,
}

/// What a subscription's worker does once it has asked the store for the
/// fingerprint of the validator's details at a new finalized block.
#[derive(Clone, Copy, Debug, PartialEq, Eq, Structural)]
pub enum WorkerStep {
    /// The store holds the validator under neither key: say so in the log and wait
    /// for the next block.
    ReportMissing,
    /// The details are the ones held: send the block number alone.
    SendHeartbeat,
    /// The details differ: read them and send what changed.
    ReadDetails,
}

/// The server that publishes validator details.
#[derive(Default)]
pub struct ValidatorDetailsServer;

impl ValidatorDetailsServer {
    /// Takes a finalized block number off the channel: a number that repeats the
    /// last one is skipped; any other becomes the last one and goes to the workers.
    pub fn accept_finalized_block(last_finalized_block_number: &mut u64, finalized_block_number: u64) -> (event:
        Option<BusEvent>)
        ensures
            *final(last_finalized_block_number) == finalized_block_number,
            *old(last_finalized_block_number) == finalized_block_number ==> event is None,
            *old(last_finalized_block_number) != finalized_block_number ==> event == Some(
                BusEvent::NewFinalizedBlock(finalized_block_number),
            ),
    {
        if *last_finalized_block_number == finalized_block_number {
            None
        } else {
            *last_finalized_block_number = finalized_block_number;
            Some(BusEvent::NewFinalizedBlock(finalized_block_number))
        }
    }

    /// Reads the account that a subscription asks for: 64 hexadecimal digits after
    /// an optional `0x`. Anything else ends the subscription with a text.
    pub fn parse_account(parameter: &str) -> (account: Result<AccountId, String>)
        ensures
            match account {
                Ok(id) => is_hex_text(without_hex_prefix(parameter@)) && without_hex_prefix(
                    parameter@,
                ).len() == 64 && id@ == hex_bytes(without_hex_prefix(parameter@)),
                Err(message) => (!is_hex_text(without_hex_prefix(parameter@))
                    || without_hex_prefix(parameter@).len() != 64) && message@
                    == "Invalid account id."@,
            },
    {
        match AccountId::from_hex(parameter) {
            Some(id) => Ok(id),
            None => Err(String::from_str("Invalid account id.")),
        }
    }

    /// The first message of a subscription: the whole details at the last
    /// finalized block.
    pub fn first_update(finalized_block_number: u64, details: &ValidatorDetails) -> (update:
        ValidatorDetailsUpdate)
        ensures
            update.finalized_block_number == Some(finalized_block_number),
            update.validator_details matches Some(sent) && sent.same(*details),
            update.validator_details_update is None,
    {
        ValidatorDetailsUpdate {
            finalized_block_number: Some(finalized_block_number),
            validator_details: Some(details.duplicate()),
            validator_details_update: None,
        }
    }

    /// Decides the worker's step from the fingerprint of the JSON it holds and the
    /// one that the store holds, if it holds any.
    pub fn next_step(held_json: &str, stored_hash: Option<u64>) -> (step: WorkerStep)
        ensures
            step == match stored_hash {
                None => WorkerStep::ReportMissing,
                Some(hash) => if hash == text_fingerprint(held_json@) {
                    WorkerStep::SendHeartbeat
                } else {
                    WorkerStep::ReadDetails
                },
            },
    {
        match stored_hash {
            None => WorkerStep::ReportMissing,
            Some(hash) => if hash == fingerprint_text(held_json) {
                WorkerStep::SendHeartbeat
            } else {
                WorkerStep::ReadDetails
            },
        }
    }

    /// The message that carries the block number alone.
    pub fn heartbeat(finalized_block_number: u64) -> (update: ValidatorDetailsUpdate)
        ensures
            update.finalized_block_number == Some(finalized_block_number),
            update.validator_details is None,
            update.validator_details_update is None,
    {
        ValidatorDetailsUpdate {
            finalized_block_number: Some(finalized_block_number),
            validator_details: None,
            validator_details_update: None,
        }
    }

    /// Takes in the details read from the store: the worker holds them from now
    /// on, and the subscriber is sent what they change in the ones held before.
    pub fn refresh(held: &mut ValidatorDetails, stored: ValidatorDetails, finalized_block_number: u64) -> (update:
        ValidatorDetailsUpdate)
        ensures
            *final(held) == stored,
            update.finalized_block_number == Some(finalized_block_number),
            update.validator_details is None,
            update.validator_details_update matches Some(diff) && diff.describes(*old(held), stored),
    {
        let diff = held.get_diff(&stored);
        *held = stored;
        ValidatorDetailsUpdate {
            finalized_block_number: Some(finalized_block_number),
            validator_details: None,
            validator_details_update: Some(diff),
        }
    }

    /// Whether a worker goes on after an event: it ends on an error.
    pub fn goes_on(event: BusEvent) -> (on: bool)
        ensures
            on == (event is NewFinalizedBlock),
    {
        match event {
            BusEvent::NewFinalizedBlock(_) => true,
            BusEvent::Error => false,
        }
    }
}

} // verus!
