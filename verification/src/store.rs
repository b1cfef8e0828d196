//! The derived-state store: its keys and channels, and the batch of commands
//! that publishes the validator list of a finalized block.
use crate::account::AccountId;
use crate::decimal::{append_decimal, decimal_string, decimal_text};
use crate::fingerprint::{fingerprint_text, text_fingerprint};
use crate::hex_codec::hex_text;
use vstd::prelude::*;
use vstd::string::*;

verus! {

/// `subvt:<chain>:validators`
pub open spec fn validators_prefix(chain: Seq<char>) -> Seq<char> {
    "subvt:"@ + chain + ":validators"@
}

/// `subvt:<chain>:validators:finalized_block_number`
pub open spec fn finalized_block_number_key(chain: Seq<char>) -> Seq<char> {
    validators_prefix(chain) + ":finalized_block_number"@
}

/// `subvt:<chain>:validators:finalized_block_hash`
pub open spec fn finalized_block_hash_key(chain: Seq<char>) -> Seq<char> {
    validators_prefix(chain) + ":finalized_block_hash"@
}

/// `subvt:<chain>:validators:active:addresses`, or `inactive` in place of `active`.
pub open spec fn addresses_key(chain: Seq<char>, active: bool) -> Seq<char> {
    validators_prefix(chain) + (if active {
        ":active:addresses"@
    } else {
        ":inactive:addresses"@
    })
}

/// The text of an account in keys: `0x` and 64 upper-case hexadecimal digits.
pub open spec fn account_text(id: Seq<u8>) -> Seq<char> {
    seq!['0', 'x'] + hex_text(id, true)
}

/// `subvt:<chain>:validators:<N>:active:validator:<id>`, or `inactive` in place of `active`.
pub open spec fn validator_key(chain: Seq<char>, block_number: u64, active: bool, id: Seq<u8>) -> Seq<
    char,
> {
    validators_prefix(chain) + ":"@ + decimal_text(block_number as nat) + (if active {
        ":active:validator:"@
    } else {
        ":inactive:validator:"@
    }) + account_text(id)
}

/// The key of the fingerprint of a validator's JSON.
pub open spec fn validator_hash_key(
    chain: Seq<char>,
    block_number: u64,
    active: bool,
    id: Seq<u8>,
) -> Seq<char> {
    validator_key(chain, block_number, active, id) + ":hash"@
}

/// The key of the fingerprint of a validator's summary JSON.
pub open spec fn validator_summary_hash_key(
    chain: Seq<char>,
    block_number: u64,
    active: bool,
    id: Seq<u8>,
) -> Seq<char> {
    validator_key(chain, block_number, active, id) + ":summary_hash"@
}

/// The pattern that matches every validator key of one kind, whatever the block.
pub open spec fn validator_key_pattern(chain: Seq<char>, active: bool) -> Seq<char> {
    validators_prefix(chain) + (if active {
        ":*:active:validator:*"@
    } else {
        ":*:inactive:validator:*"@
    })
}

/// `subvt:<chain>:validators:publish:finalized_block_number`
pub open spec fn finalized_block_channel(chain: Seq<char>) -> Seq<char> {
    validators_prefix(chain) + ":publish:finalized_block_number"@
}

/// `subvt:<chain>:live_network_status`
pub open spec fn live_network_status_key(chain: Seq<char>) -> Seq<char> {
    "subvt:"@ + chain + ":live_network_status"@
}

/// `subvt:<chain>:live_network_status:publish:best_block_number`
pub open spec fn best_block_channel(chain: Seq<char>) -> Seq<char> {
    live_network_status_key(chain) + ":publish:best_block_number"@
}

/// Builds [`validators_prefix`].
pub fn get_validators_prefix(chain: &str) -> (key: String)
    ensures
        key@ == validators_prefix(chain@),
{
    let mut key = String::from_str("subvt:");
    key.append(chain);
    key.append(":validators");
    key
}

/// Builds [`finalized_block_number_key`].
pub fn get_finalized_block_number_key(chain: &str) -> (key: String)
    ensures
        key@ == finalized_block_number_key(chain@),
{
    let mut key = get_validators_prefix(chain);
    key.append(":finalized_block_number");
    key
}

/// Builds [`finalized_block_hash_key`].
pub fn get_finalized_block_hash_key(chain: &str) -> (key: String)
    ensures
        key@ == finalized_block_hash_key(chain@),
{
    let mut key = get_validators_prefix(chain);
    key.append(":finalized_block_hash");
    key
}

/// Builds [`addresses_key`].
pub fn get_addresses_key(chain: &str, active: bool) -> (key: String)
    ensures
        key@ == addresses_key(chain@, active),
{
    let mut key = get_validators_prefix(chain);
    if active {
        key.append(":active:addresses");
    } else {
        key.append(":inactive:addresses");
    }
    key
}

/// Builds [`validator_key`].
pub fn get_validator_key(chain: &str, block_number: u64, active: bool, id: &AccountId) -> (key:
    String)
    ensures
        key@ == validator_key(chain@, block_number, active, id@),
{
    let mut key = get_validators_prefix(chain);
    key.append(":");
    append_decimal(&mut key, block_number as u128);
    if active {
        key.append(":active:validator:");
    } else {
        key.append(":inactive:validator:");
    }
    let account = id.to_string();
    key.append(account.as_str());
    key
}

/// Builds [`validator_hash_key`].
pub fn get_validator_hash_key(chain: &str, block_number: u64, active: bool, id: &AccountId) -> (key:
    String)
    ensures
        key@ == validator_hash_key(chain@, block_number, active, id@),
{
    let mut key = get_validator_key(chain, block_number, active, id);
    key.append(":hash");
    key
}

/// Builds [`validator_summary_hash_key`].
pub fn get_validator_summary_hash_key(
    chain: &str,
    block_number: u64,
    active: bool,
    id: &AccountId,
) -> (key: String)
    ensures
        key@ == validator_summary_hash_key(chain@, block_number, active, id@),
{
    let mut key = get_validator_key(chain, block_number, active, id);
    key.append(":summary_hash");
    key
}

/// Builds [`validator_key_pattern`].
pub fn get_validator_key_pattern(chain: &str, active: bool) -> (key: String)
    ensures
        key@ == validator_key_pattern(chain@, active),
{
    let mut key = get_validators_prefix(chain);
    if active {
        key.append(":*:active:validator:*");
    } else {
        key.append(":*:inactive:validator:*");
    }
    key
}

/// Builds [`finalized_block_channel`].
pub fn get_finalized_block_channel(chain: &str) -> (key: String)
    ensures
        key@ == finalized_block_channel(chain@),
{
    let mut key = get_validators_prefix(chain);
    key.append(":publish:finalized_block_number");
    key
}

/// Builds [`live_network_status_key`].
pub fn get_live_network_status_key(chain: &str) -> (key: String)
    ensures
        key@ == live_network_status_key(chain@),
{
    let mut key = String::from_str("subvt:");
    key.append(chain);
    key.append(":live_network_status");
    key
}

/// Builds [`best_block_channel`].
pub fn get_best_block_channel(chain: &str) -> (key: String)
    ensures
        key@ == best_block_channel(chain@),
{
    let mut key = get_live_network_status_key(chain);
    key.append(":publish:best_block_number");
    key
}

/// One command for the store: its name and its arguments, in order.
#[derive(Debug)]
pub struct StoreCommand {
    pub name: String,
    pub arguments: Vec<String>,
}

/// Mathematical model of a [`StoreCommand`].
pub struct StoreCommandView {
    pub name: Seq<char>,
    pub arguments: Seq<Seq<char>>,
}

/// The texts of a list of strings.
pub open spec fn texts_of(strings: Seq<String>) -> Seq<Seq<char>> {
    Seq::new(strings.len(), |i: int| strings[i]@)
}

impl View for StoreCommand {
    type V = StoreCommandView;

    open spec fn view(&self) -> StoreCommandView {
        StoreCommandView { name: self.name@, arguments: texts_of(self.arguments@) }
    }
}

/// The models of a list of commands.
pub open spec fn commands_of(commands: Seq<StoreCommand>) -> Seq<StoreCommandView> {
    Seq::new(commands.len(), |i: int| commands[i]@)
}

/// What the store is told of one validator: who it is, whether it is active, and
/// its details and its summary as JSON.
#[derive(Debug)]
pub struct ValidatorRecord {
    pub account_id: AccountId,
    pub is_active: bool,
    pub details_json: String,
    pub summary_json: String,
}

/// The texts of the accounts among `records[..upto]` that are active, or that are
/// not, in their order.
pub open spec fn addresses_of(records: Seq<ValidatorRecord>, active: bool, upto: int) -> Seq<
    Seq<char>,
>
    decreases upto,
{
    if upto <= 0 || upto > records.len() {
        Seq::empty()
    } else if records[upto - 1].is_active == active {
        addresses_of(records, active, upto - 1).push(account_text(records[upto - 1].account_id@))
    } else {
        addresses_of(records, active, upto - 1)
    }
}

/// The six arguments that write one validator: the key of the fingerprint of its
/// JSON and that fingerprint, the same for its summary, then its key and its JSON.
pub open spec fn record_arguments(chain: Seq<char>, block_number: u64, record: ValidatorRecord) -> Seq<
    Seq<char>,
> {
    seq![
        validator_hash_key(chain, block_number, record.is_active, record.account_id@),
        decimal_text(text_fingerprint(record.details_json@) as nat),
        validator_summary_hash_key(chain, block_number, record.is_active, record.account_id@),
        decimal_text(text_fingerprint(record.summary_json@) as nat),
        validator_key(chain, block_number, record.is_active, record.account_id@),
        record.details_json@,
    ]
}

/// The arguments that write `records[..upto]`, one after the other.
pub open spec fn records_arguments(
    chain: Seq<char>,
    block_number: u64,
    records: Seq<ValidatorRecord>,
    upto: int,
) -> Seq<Seq<char>>
    decreases upto,
{
    if upto <= 0 || upto > records.len() {
        Seq::empty()
    } else {
        records_arguments(chain, block_number, records, upto - 1) + record_arguments(
            chain,
            block_number,
            records[upto - 1],
        )
    }
}

/// The batch that publishes the validator list of a finalized block, in the order
/// in which the store must run it: the block's number and hash; the two address
/// sets cleared, then filled; the validator keys of earlier blocks cleared, then
/// those of this block written; and at last the block's number on the channel.
pub open spec fn snapshot_batch(
    chain: Seq<char>,
    block_number: u64,
    block_hash: Seq<char>,
    records: Seq<ValidatorRecord>,
) -> Seq<StoreCommandView> {
    seq![
        StoreCommandView {
            name: "MSET"@,
            arguments: seq![
                finalized_block_number_key(chain),
                decimal_text(block_number as nat),
                finalized_block_hash_key(chain),
                block_hash,
            ],
        },
        StoreCommandView { name: "DEL"@, arguments: seq![addresses_key(chain, true)] },
        StoreCommandView { name: "DEL"@, arguments: seq![addresses_key(chain, false)] },
        StoreCommandView {
            name: "SADD"@,
            arguments: seq![addresses_key(chain, true)] + addresses_of(
                records,
                true,
                records.len() as int,
            ),
        },
        StoreCommandView {
            name: "SADD"@,
            arguments: seq![addresses_key(chain, false)] + addresses_of(
                records,
                false,
                records.len() as int,
            ),
        },
        StoreCommandView { name: "DEL"@, arguments: seq![validator_key_pattern(chain, true)] },
        StoreCommandView { name: "DEL"@, arguments: seq![validator_key_pattern(chain, false)] },
        StoreCommandView {
            name: "MSET"@,
            arguments: records_arguments(chain, block_number, records, records.len() as int),
        },
        StoreCommandView {
            name: "PUBLISH"@,
            arguments: seq![finalized_block_channel(chain), decimal_text(block_number as nat)],
        },
    ]
}

/// A command with one argument.
fn command_with(name: &str, argument: String) -> (command: StoreCommand)
    ensures
        command@ == (StoreCommandView { name: name@, arguments: seq![argument@] }),
{
    let mut arguments: Vec<String> = Vec::new();
    arguments.push(argument);
    let command = StoreCommand { name: String::from_str(name), arguments };
    assert(command@.arguments =~= seq![argument@]);
    command
}

/// The command that fills one of the two address sets.
fn addresses_command(chain: &str, records: &Vec<ValidatorRecord>, active: bool) -> (command:
    StoreCommand)
    ensures
        command@ == (StoreCommandView {
            name: "SADD"@,
            arguments: seq![addresses_key(chain@, active)] + addresses_of(
                records@,
                active,
                records@.len() as int,
            ),
        }),
{
    let mut arguments: Vec<String> = Vec::new();
    arguments.push(get_addresses_key(chain, active));
    let mut i: usize = 0;
    assert(texts_of(arguments@) =~= seq![addresses_key(chain@, active)] + addresses_of(
        records@,
        active,
        0,
    ));
    while i < records.len()
        invariant
            i <= records@.len(),
            texts_of(arguments@) == seq![addresses_key(chain@, active)] + addresses_of(
                records@,
                active,
                i as int,
            ),
        decreases records@.len() - i,
    {
        let ghost before = arguments@;
        if records[i].is_active == active {
            let address = records[i].account_id.to_string();
            arguments.push(address);
            assert(texts_of(arguments@) =~= texts_of(before).push(
                account_text(records@[i as int].account_id@),
            ));
        }
        assert(addresses_of(records@, active, i + 1) == if records@[i as int].is_active == active {
            addresses_of(records@, active, i as int).push(
                account_text(records@[i as int].account_id@),
            )
        } else {
            addresses_of(records@, active, i as int)
        });
        assert(texts_of(arguments@) =~= seq![addresses_key(chain@, active)] + addresses_of(
            records@,
            active,
            i + 1,
        ));
        i += 1;
    }
    StoreCommand { name: String::from_str("SADD"), arguments }
}

/// The command that writes the validators of the block.
fn records_command(chain: &str, block_number: u64, records: &Vec<ValidatorRecord>) -> (command:
    StoreCommand)
    ensures
        command@ == (StoreCommandView {
            name: "MSET"@,
            arguments: records_arguments(chain@, block_number, records@, records@.len() as int),
        }),
{
    let mut arguments: Vec<String> = Vec::new();
    let mut i: usize = 0;
    assert(texts_of(arguments@) =~= records_arguments(chain@, block_number, records@, 0));
    while i < records.len()
        invariant
            i <= records@.len(),
            texts_of(arguments@) == records_arguments(chain@, block_number, records@, i as int),
        decreases records@.len() - i,
    {
        let record = &records[i];
        let hash = fingerprint_text(record.details_json.as_str());
        let summary_hash = fingerprint_text(record.summary_json.as_str());
        arguments.push(
            get_validator_hash_key(chain, block_number, record.is_active, &record.account_id),
        );
        arguments.push(decimal_string(hash as u128));
        arguments.push(
            get_validator_summary_hash_key(
                chain,
                block_number,
                record.is_active,
                &record.account_id,
            ),
        );
        arguments.push(decimal_string(summary_hash as u128));
        arguments.push(get_validator_key(chain, block_number, record.is_active, &record.account_id));
        arguments.push(record.details_json.clone());
        assert(texts_of(arguments@) =~= records_arguments(chain@, block_number, records@, i as int)
            + record_arguments(chain@, block_number, records@[i as int]));
        i += 1;
    }
    StoreCommand { name: String::from_str("MSET"), arguments }
}

/// Builds the batch that publishes the validator list of a finalized block.
pub fn update_redis(
    chain: &str,
    finalized_block_number: u64,
    finalized_block_hash: &str,
    validators: &Vec<ValidatorRecord>,
) -> (batch: Vec<StoreCommand>)
    ensures
        commands_of(batch@) == snapshot_batch(
            chain@,
            finalized_block_number,
            finalized_block_hash@,
            validators@,
        ),
{
    let mut batch: Vec<StoreCommand> = Vec::new();
    let mut first: Vec<String> = Vec::new();
    first.push(get_finalized_block_number_key(chain));
    first.push(decimal_string(finalized_block_number as u128));
    first.push(get_finalized_block_hash_key(chain));
    first.push(String::from_str(finalized_block_hash));
    let head = StoreCommand { name: String::from_str("MSET"), arguments: first };
    assert(head@.arguments =~= seq![
        finalized_block_number_key(chain@),
        decimal_text(finalized_block_number as nat),
        finalized_block_hash_key(chain@),
        finalized_block_hash@,
    ]);
    batch.push(head);
    batch.push(command_with("DEL", get_addresses_key(chain, true)));
    batch.push(command_with("DEL", get_addresses_key(chain, false)));
    batch.push(addresses_command(chain, validators, true));
    batch.push(addresses_command(chain, validators, false));
    batch.push(command_with("DEL", get_validator_key_pattern(chain, true)));
    batch.push(command_with("DEL", get_validator_key_pattern(chain, false)));
    batch.push(records_command(chain, finalized_block_number, validators));
    let mut last: Vec<String> = Vec::new();
    last.push(get_finalized_block_channel(chain));
    last.push(decimal_string(finalized_block_number as u128));
    let tail = StoreCommand { name: String::from_str("PUBLISH"), arguments: last };
    assert(tail@.arguments =~= seq![
        finalized_block_channel(chain@),
        decimal_text(finalized_block_number as nat),
    ]);
    batch.push(tail);
    assert(commands_of(batch@) =~= snapshot_batch(
        chain@,
        finalized_block_number,
        finalized_block_hash@,
        validators@,
    ));
    batch
}

} // verus!
