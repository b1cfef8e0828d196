//! The events of a block as the chain's storage holds them: a list of records,
//! each with the phase in which the event came about, the indices of its module
//! and of the event in it, the arguments that the metadata gives it, and topics.
use crate::account::AccountId;
use crate::argument::{
    argument_views, arguments_at, compact_at, decode_arguments, fixed_at, lemma_list_view,
    Argument, ArgumentDecodeError, ArgumentPrimitive, ArgumentView, DecodeFailure,
};
use crate::event::{AccountVote, DemocracyEvent, Pallet, PalletEvent, SubstrateEvent, VoteThreshold};
use crate::network_status::Balance;
use crate::argument_meta::views_of;
use crate::chain_types::{accounts_at, read_account};
use crate::metadata::{Metadata, ModuleMetadata};
use crate::metadata_read::index_position;
use crate::scale::{read_compact_u32, read_u32};
use vstd::prelude::*;

verus! {

/// When in the execution of a block an event came about.
#[derive(Clone, Copy, Debug, PartialEq, Eq, Structural)]
pub enum Phase {
    /// While the extrinsic of the given index was applied.
    ApplyExtrinsic(u32),
    Finalization,
    Initialization,
}

impl Phase {
    /// The index of the extrinsic that the event belongs to, if it belongs to one.
    pub open spec fn spec_extrinsic_index(self) -> Option<u32> {
        match self {
            Phase::ApplyExtrinsic(index) => Some(index),
            _ => None,
        }
    }

    /// The index of the extrinsic that the event belongs to, if it belongs to one.
    #[verifier::when_used_as_spec(spec_extrinsic_index)]
    pub fn extrinsic_index(self) -> (index: Option<u32>)
        ensures
            index == self.spec_extrinsic_index(),
    {
        match self {
            Phase::ApplyExtrinsic(index) => Some(index),
            _ => None,
        }
    }
}

/// One event of a block, with the names that the metadata gives to its module
/// and to the event.
#[derive(Debug)]
pub struct EventRecord {
    pub phase: Phase,
    pub module_name: String,
    pub event_name: String,
    pub arguments: Vec<Argument>,
    pub topics: Vec<AccountId>,
}

/// Mathematical model of an [`EventRecord`].
pub struct EventRecordView {
    pub phase: Phase,
    pub module_name: Seq<char>,
    pub event_name: Seq<char>,
    pub arguments: Seq<ArgumentView>,
    pub topics: Seq<AccountId>,
}

impl View for EventRecord {
    type V = EventRecordView;

    open spec fn view(&self) -> EventRecordView {
        EventRecordView {
            phase: self.phase,
            module_name: self.module_name@,
            event_name: self.event_name@,
            arguments: argument_views(self.arguments@),
            topics: self.topics@,
        }
    }
}

/// The models of a list of records.
pub open spec fn record_views(records: Seq<EventRecord>) -> Seq<EventRecordView> {
    Seq::new(records.len(), |i: int| records[i]@)
}

/// Why bytes could not be read as the events of a block.
#[derive(Debug, PartialEq, Eq)]
pub enum EventDecodeError {
    /// The bytes end before the events do.
    Truncated,
    /// The number of the records or of the topics does not read.
    MalformedCount,
    /// The byte of a phase stands for none.
    MalformedPhase,
    /// The metadata has no module of that index.
    UnknownModule(u8),
    /// The module has no event of that index.
    UnknownEvent(u8),
    /// An argument of the event does not read.
    Argument(ArgumentDecodeError),
}

/// Mathematical model of an [`EventDecodeError`].
pub enum EventFailure {
    Truncated,
    MalformedCount,
    MalformedPhase,
    UnknownModule(u8),
    UnknownEvent(u8),
    Argument(DecodeFailure),
}

impl View for EventDecodeError {
    type V = EventFailure;

    open spec fn view(&self) -> EventFailure {
        match self {
            EventDecodeError::Truncated => EventFailure::Truncated,
            EventDecodeError::MalformedCount => EventFailure::MalformedCount,
            EventDecodeError::MalformedPhase => EventFailure::MalformedPhase,
            EventDecodeError::UnknownModule(index) => EventFailure::UnknownModule(*index),
            EventDecodeError::UnknownEvent(index) => EventFailure::UnknownEvent(*index),
            EventDecodeError::Argument(error) => EventFailure::Argument(error@),
        }
    }
}

/// The phase at `pos`: the byte 0 and the index of an extrinsic in four bytes,
/// the byte 1 for the finalization, or the byte 2 for the initialization.
pub open spec fn phase_at(bytes: Seq<u8>, pos: int) -> Result<(Phase, int), EventFailure> {
    if pos < 0 || pos >= bytes.len() {
        Err(EventFailure::Truncated)
    } else if bytes[pos] == 0 {
        match fixed_at(bytes, pos + 1, 4) {
            Ok((index, next)) => Ok((Phase::ApplyExtrinsic(index as u32), next)),
            Err(_) => Err(EventFailure::Truncated),
        }
    } else if bytes[pos] == 1 {
        Ok((Phase::Finalization, pos + 1))
    } else if bytes[pos] == 2 {
        Ok((Phase::Initialization, pos + 1))
    } else {
        Err(EventFailure::MalformedPhase)
    }
}

/// Reads the phase at `pos`.
pub fn read_phase(bytes: &[u8], pos: usize) -> (result: Result<(Phase, usize), EventDecodeError>)
    ensures
        match phase_at(bytes@, pos as int) {
            Ok((phase, next)) => result == Ok::<(Phase, usize), EventDecodeError>(
                (phase, next as usize),
            ) && next <= bytes@.len(),
            Err(failure) => result matches Err(error) && error@ == failure,
        },
{
    if pos >= bytes.len() {
        return Err(EventDecodeError::Truncated);
    }
    let tag = bytes[pos];
    if tag == 0 {
        match read_u32(bytes, pos + 1) {
            Some((index, next)) => Ok((Phase::ApplyExtrinsic(index), next)),
            None => Err(EventDecodeError::Truncated),
        }
    } else if tag == 1 {
        Ok((Phase::Finalization, pos + 1))
    } else if tag == 2 {
        Ok((Phase::Initialization, pos + 1))
    } else {
        Err(EventDecodeError::MalformedPhase)
    }
}

/// The topics at `pos`: their number, compact, and then 32 bytes for each.
pub open spec fn topics_at(bytes: Seq<u8>, pos: int) -> Result<(Seq<AccountId>, int), EventFailure> {
    match compact_at(bytes, pos, 4) {
        Err(_) => Err(EventFailure::MalformedCount),
        Ok((count, at)) => if at + 32 * count > bytes.len() {
            Err(EventFailure::Truncated)
        } else {
            Ok((accounts_at(bytes, at, count as int), at + 32 * count))
        },
    }
}

/// Reads the topics at `pos`.
pub fn read_topics(bytes: &[u8], pos: usize) -> (result: Result<
    (Vec<AccountId>, usize),
    EventDecodeError,
>)
    ensures
        match topics_at(bytes@, pos as int) {
            Ok((topics, next)) => result matches Ok((read, end)) && read@ == topics && end == next
                && next <= bytes@.len(),
            Err(failure) => result matches Err(error) && error@ == failure,
        },
{
    match read_compact_u32(bytes, pos) {
        None => Err(EventDecodeError::MalformedCount),
        Some((count, at)) => {
            let n = bytes.len();
            let count = count as usize;
            if (n - at) / 32 < count {
                return Err(EventDecodeError::Truncated);
            }
            let mut topics: Vec<AccountId> = Vec::new();
            let mut i: usize = 0;
            while i < count
                invariant
                    i <= count,
                    at + 32 * count <= n,
                    n == bytes@.len(),
                    topics@ == accounts_at(bytes@, at as int, i as int),
                decreases count - i,
            {
                match read_account(bytes, at + 32 * i) {
                    Some((id, _)) => {
                        topics.push(id);
                        assert(topics@ =~= accounts_at(bytes@, at as int, i + 1));
                    },
                    None => {
                        assert(false);
                    },
                }
                i += 1;
            }
            Ok((topics, at + 32 * count))
        },
    }
}

/// The record at `pos`, given the modules of the runtime: the phase, the index
/// of the module and that of the event among the module's events, the arguments
/// of the shapes that the metadata gives the event, and the topics.
pub open spec fn record_at(modules: Seq<ModuleMetadata>, bytes: Seq<u8>, pos: int) -> Result<
    (EventRecordView, int),
    EventFailure,
> {
    match phase_at(bytes, pos) {
        Err(failure) => Err(failure),
        Ok((phase, at)) => if at + 2 > bytes.len() {
            Err(EventFailure::Truncated)
        } else {
            match index_position(modules, bytes[at], modules.len() as int) {
                None => Err(EventFailure::UnknownModule(bytes[at])),
                Some(m) => if bytes[at + 1] as int >= modules[m].events@.len() {
                    Err(EventFailure::UnknownEvent(bytes[at + 1]))
                } else {
                    let event = modules[m].events@[bytes[at + 1] as int];
                    match arguments_at(views_of(event.arguments@), bytes, at + 2) {
                        Err(failure) => Err(EventFailure::Argument(failure)),
                        Ok((arguments, after)) => match topics_at(bytes, after) {
                            Err(failure) => Err(failure),
                            Ok((topics, next)) => Ok(
                                (
                                    EventRecordView {
                                        phase,
                                        module_name: modules[m].name@,
                                        event_name: event.name@,
                                        arguments,
                                        topics,
                                    },
                                    next,
                                ),
                            ),
                        },
                    }
                },
            }
        },
    }
}

/// Reads the record at `pos`.
pub fn decode_event_record(metadata: &Metadata, bytes: &[u8], pos: usize) -> (result: Result<
    (EventRecord, usize),
    EventDecodeError,
>)
    ensures
        match record_at(metadata.modules@, bytes@, pos as int) {
            Ok((record, next)) => result matches Ok((read, end)) && read@ == record && end == next
                && next <= bytes@.len(),
            Err(failure) => result matches Err(error) && error@ == failure,
        },
{
    let (phase, at) = match read_phase(bytes, pos) {
        Ok(read) => read,
        Err(error) => return Err(error),
    };
    if bytes.len() - at < 2 {
        return Err(EventDecodeError::Truncated);
    }
    let module = match metadata.module_by_index(bytes[at]) {
        Some(module) => module,
        None => return Err(EventDecodeError::UnknownModule(bytes[at])),
    };
    let event = match module.event(bytes[at + 1]) {
        Some(event) => event,
        None => return Err(EventDecodeError::UnknownEvent(bytes[at + 1])),
    };
    let (arguments, after) = match decode_arguments(&event.arguments, bytes, at + 2) {
        Ok(read) => read,
        Err(error) => return Err(EventDecodeError::Argument(error)),
    };
    match read_topics(bytes, after) {
        Err(error) => Err(error),
        Ok((topics, next)) => Ok(
            (
                EventRecord {
                    phase,
                    module_name: module.name.clone(),
                    event_name: event.name.clone(),
                    arguments,
                    topics,
                },
                next,
            ),
        ),
    }
}

/// `count` records, one after the other, from `pos` on.
pub open spec fn records_from(modules: Seq<ModuleMetadata>, bytes: Seq<u8>, pos: int, count: nat) -> Result<
    Seq<EventRecordView>,
    EventFailure,
>
    decreases count,
{
    if count == 0 {
        Ok(Seq::empty())
    } else {
        match record_at(modules, bytes, pos) {
            Err(failure) => Err(failure),
            Ok((record, next)) => match records_from(modules, bytes, next, (count - 1) as nat) {
                Ok(records) => Ok(seq![record] + records),
                Err(failure) => Err(failure),
            },
        }
    }
}

/// The events that the bytes of the storage item `System.Events` hold, given
/// the modules of the runtime: the number of the records, compact, and then the
/// records. What follows the last record is not read.
pub open spec fn events_of(modules: Seq<ModuleMetadata>, bytes: Seq<u8>) -> Result<
    Seq<EventRecordView>,
    EventFailure,
> {
    match compact_at(bytes, 0, 4) {
        Err(_) => Err(EventFailure::MalformedCount),
        Ok((count, at)) => records_from(modules, bytes, at, count),
    }
}

/// A result with `prefix` put in front of its records.
pub open spec fn after_records(
    prefix: Seq<EventRecordView>,
    result: Result<Seq<EventRecordView>, EventFailure>,
) -> Result<Seq<EventRecordView>, EventFailure> {
    match result {
        Ok(records) => Ok(prefix + records),
        Err(failure) => Err(failure),
    }
}

/// Reads the events of a block from the bytes of `System.Events`, with the
/// metadata of the runtime. The first record that does not read is why none is
/// given.
pub fn decode_events(metadata: &Metadata, bytes: &[u8]) -> (result: Result<
    Vec<EventRecord>,
    EventDecodeError,
>)
    ensures
        match events_of(metadata.modules@, bytes@) {
            Ok(records) => result matches Ok(read) && record_views(read@) == records
                && read@.len() <= u32::MAX,
            Err(failure) => result matches Err(error) && error@ == failure,
        },
{
    let (count, start) = match read_compact_u32(bytes, 0) {
        Some(read) => read,
        None => return Err(EventDecodeError::MalformedCount),
    };
    let mut records: Vec<EventRecord> = Vec::new();
    let mut at: usize = start;
    let mut k: u32 = 0;
    let ghost whole = records_from(metadata.modules@, bytes@, start as int, count as nat);
    assert(record_views(records@) =~= Seq::<EventRecordView>::empty());
    assert(whole == after_records(record_views(records@), whole)) by {
        match whole {
            Ok(later) => {
                assert(Seq::<EventRecordView>::empty() + later =~= later);
            },
            Err(_) => {},
        }
    }
    assert(events_of(metadata.modules@, bytes@) == whole);
    while k < count
        invariant
            k <= count,
            at <= bytes@.len(),
            records@.len() == k,
            events_of(metadata.modules@, bytes@) == whole,
            whole == after_records(
                record_views(records@),
                records_from(metadata.modules@, bytes@, at as int, (count - k) as nat),
            ),
        decreases count - k,
    {
        let ghost before = record_views(records@);
        match decode_event_record(metadata, bytes, at) {
            Err(error) => {
                return Err(error);
            },
            Ok((record, next)) => {
                let ghost view = record@;
                records.push(record);
                proof {
                    let later = records_from(
                        metadata.modules@,
                        bytes@,
                        next as int,
                        (count - k - 1) as nat,
                    );
                    assert(record_views(records@) =~= before + seq![view]);
                    match later {
                        Ok(rest) => {
                            assert(before + (seq![view] + rest) =~= (before + seq![view]) + rest);
                        },
                        Err(_) => {},
                    }
                }
                at = next;
                k += 1;
            },
        }
    }
    proof {
        assert(record_views(records@) + Seq::<EventRecordView>::empty() =~= record_views(
            records@,
        ));
    }
    Ok(records)
}

/// The primitive that is the argument at position `i`, if that argument is one.
pub open spec fn primitive_in(arguments: Seq<ArgumentView>, i: int) -> Option<ArgumentPrimitive> {
    if 0 <= i < arguments.len() {
        match arguments[i] {
            ArgumentView::Primitive(value) => Some(value),
            _ => None,
        }
    } else {
        None
    }
}

/// The primitive that is the argument at position `i`, if that argument is one.
pub fn primitive_argument(arguments: &Vec<Argument>, i: usize) -> (value: Option<ArgumentPrimitive>)
    ensures
        value == primitive_in(argument_views(arguments@), i as int),
{
    if i >= arguments.len() {
        return None;
    }
    assert(argument_views(arguments@)[i as int] == arguments@[i as int]@);
    proof {
        lemma_list_view(arguments@[i as int]);
    }
    match &arguments[i] {
        Argument::Primitive(value) => Some(**value),
        _ => None,
    }
}

/// The index that a value gives: a number of four bytes, fixed or compact.
pub open spec fn index_of(value: Option<ArgumentPrimitive>) -> Option<u32> {
    match value {
        Some(ArgumentPrimitive::U32(number)) => Some(number),
        Some(ArgumentPrimitive::CompactU32(number)) => Some(number),
        _ => None,
    }
}

/// The account that a value gives.
pub open spec fn account_in(value: Option<ArgumentPrimitive>) -> Option<AccountId> {
    match value {
        Some(ArgumentPrimitive::AccountId(id)) => Some(id),
        _ => None,
    }
}

/// The balance that a value gives: a balance, or a number of sixteen bytes,
/// fixed or compact.
pub open spec fn balance_in(value: Option<ArgumentPrimitive>) -> Option<Balance> {
    match value {
        Some(ArgumentPrimitive::Balance(balance)) => Some(balance),
        Some(ArgumentPrimitive::U128(balance)) => Some(balance),
        Some(ArgumentPrimitive::CompactU128(balance)) => Some(balance),
        _ => None,
    }
}

/// The threshold that a value gives.
pub open spec fn threshold_in(value: Option<ArgumentPrimitive>) -> Option<VoteThreshold> {
    match value {
        Some(ArgumentPrimitive::VoteThreshold(threshold)) => Some(threshold),
        _ => None,
    }
}

/// The vote that a value gives.
pub open spec fn vote_in(value: Option<ArgumentPrimitive>) -> Option<AccountVote> {
    match value {
        Some(ArgumentPrimitive::AccountVote(vote)) => Some(vote),
        _ => None,
    }
}

/// The event of the democracy pallet that a name and arguments stand for: the
/// arguments must be as many as the event has, and each of the kind that the
/// event takes there. Of an event of another name, or with other arguments,
/// nothing is told.
pub open spec fn democracy_event_of(
    name: Seq<char>,
    extrinsic_index: Option<u32>,
    arguments: Seq<ArgumentView>,
) -> Option<DemocracyEvent> {
    let first = primitive_in(arguments, 0);
    let second = primitive_in(arguments, 1);
    let third = primitive_in(arguments, 2);
    let n = arguments.len();
    if name == "Cancelled"@ {
        if n == 1 && index_of(first) is Some {
            Some(DemocracyEvent::Cancelled { extrinsic_index, referendum_index: index_of(first)->Some_0 })
        } else {
            None
        }
    } else if name == "Delegated"@ {
        if n == 2 && account_in(first) is Some && account_in(second) is Some {
            Some(
                DemocracyEvent::Delegated {
                    extrinsic_index,
                    original_account_id: account_in(first)->Some_0,
                    delegate_account_id: account_in(second)->Some_0,
                },
            )
        } else {
            None
        }
    } else if name == "NotPassed"@ {
        if n == 1 && index_of(first) is Some {
            Some(DemocracyEvent::NotPassed { extrinsic_index, referendum_index: index_of(first)->Some_0 })
        } else {
            None
        }
    } else if name == "Passed"@ {
        if n == 1 && index_of(first) is Some {
            Some(DemocracyEvent::Passed { extrinsic_index, referendum_index: index_of(first)->Some_0 })
        } else {
            None
        }
    } else if name == "Proposed"@ {
        if n == 2 && index_of(first) is Some && balance_in(second) is Some {
            Some(
                DemocracyEvent::Proposed {
                    extrinsic_index,
                    proposal_index: index_of(first)->Some_0,
                    deposit: balance_in(second)->Some_0,
                },
            )
        } else {
            None
        }
    } else if name == "Seconded"@ {
        if n == 2 && account_in(first) is Some && index_of(second) is Some {
            Some(
                DemocracyEvent::Seconded {
                    extrinsic_index,
                    account_id: account_in(first)->Some_0,
                    proposal_index: index_of(second)->Some_0,
                },
            )
        } else {
            None
        }
    } else if name == "Started"@ {
        if n == 2 && index_of(first) is Some && threshold_in(second) is Some {
            Some(
                DemocracyEvent::Started {
                    extrinsic_index,
                    referendum_index: index_of(first)->Some_0,
                    vote_threshold: threshold_in(second)->Some_0,
                },
            )
        } else {
            None
        }
    } else if name == "Undelegated"@ {
        if n == 1 && account_in(first) is Some {
            Some(DemocracyEvent::Undelegated { extrinsic_index, account_id: account_in(first)->Some_0 })
        } else {
            None
        }
    } else if name == "Voted"@ {
        if n == 3 && account_in(first) is Some && index_of(second) is Some && vote_in(third) is Some {
            Some(
                DemocracyEvent::Voted {
                    extrinsic_index,
                    account_id: account_in(first)->Some_0,
                    referendum_index: index_of(second)->Some_0,
                    vote: vote_in(third)->Some_0,
                },
            )
        } else {
            None
        }
    } else {
        None
    }
}

fn index_value(value: Option<ArgumentPrimitive>) -> (index: Option<u32>)
    ensures
        index == index_of(value),
{
    match value {
        Some(ArgumentPrimitive::U32(number)) => Some(number),
        Some(ArgumentPrimitive::CompactU32(number)) => Some(number),
        _ => None,
    }
}

fn account_value(value: Option<ArgumentPrimitive>) -> (account: Option<AccountId>)
    ensures
        account == account_in(value),
{
    match value {
        Some(ArgumentPrimitive::AccountId(id)) => Some(id),
        _ => None,
    }
}

fn balance_value(value: Option<ArgumentPrimitive>) -> (balance: Option<Balance>)
    ensures
        balance == balance_in(value),
{
    match value {
        Some(ArgumentPrimitive::Balance(balance)) => Some(balance),
        Some(ArgumentPrimitive::U128(balance)) => Some(balance),
        Some(ArgumentPrimitive::CompactU128(balance)) => Some(balance),
        _ => None,
    }
}

fn threshold_value(value: Option<ArgumentPrimitive>) -> (threshold: Option<VoteThreshold>)
    ensures
        threshold == threshold_in(value),
{
    match value {
        Some(ArgumentPrimitive::VoteThreshold(threshold)) => Some(threshold),
        _ => None,
    }
}

fn vote_value(value: Option<ArgumentPrimitive>) -> (vote: Option<AccountVote>)
    ensures
        vote == vote_in(value),
{
    match value {
        Some(ArgumentPrimitive::AccountVote(vote)) => Some(vote),
        _ => None,
    }
}

/// Whether a text is the given name.
fn is_name(text: &String, name: &str) -> (same: bool)
    ensures
        same == (text@ == name@),
{
    *text == String::from_str(name)
}

impl DemocracyEvent {
    /// Tells the event of the democracy pallet apart by its name and reads it
    /// from its arguments.
    pub fn from_arguments(name: &String, extrinsic_index: Option<u32>, arguments: &Vec<Argument>) -> (event:
        Option<DemocracyEvent>)
        ensures
            event == democracy_event_of(name@, extrinsic_index, argument_views(arguments@)),
    {
        let first = primitive_argument(arguments, 0);
        let second = primitive_argument(arguments, 1);
        let third = primitive_argument(arguments, 2);
        let n = arguments.len();
        if is_name(name, "Cancelled") {
            match index_value(first) {
                Some(referendum_index) if n == 1 => Some(
                    DemocracyEvent::Cancelled { extrinsic_index, referendum_index },
                ),
                _ => None,
            }
        } else if is_name(name, "Delegated") {
            match (account_value(first), account_value(second)) {
                (Some(original_account_id), Some(delegate_account_id)) if n == 2 => Some(
                    DemocracyEvent::Delegated {
                        extrinsic_index,
                        original_account_id,
                        delegate_account_id,
                    },
                ),
                _ => None,
            }
        } else if is_name(name, "NotPassed") {
            match index_value(first) {
                Some(referendum_index) if n == 1 => Some(
                    DemocracyEvent::NotPassed { extrinsic_index, referendum_index },
                ),
                _ => None,
            }
        } else if is_name(name, "Passed") {
            match index_value(first) {
                Some(referendum_index) if n == 1 => Some(
                    DemocracyEvent::Passed { extrinsic_index, referendum_index },
                ),
                _ => None,
            }
        } else if is_name(name, "Proposed") {
            match (index_value(first), balance_value(second)) {
                (Some(proposal_index), Some(deposit)) if n == 2 => Some(
                    DemocracyEvent::Proposed { extrinsic_index, proposal_index, deposit },
                ),
                _ => None,
            }
        } else if is_name(name, "Seconded") {
            match (account_value(first), index_value(second)) {
                (Some(account_id), Some(proposal_index)) if n == 2 => Some(
                    DemocracyEvent::Seconded { extrinsic_index, account_id, proposal_index },
                ),
                _ => None,
            }
        } else if is_name(name, "Started") {
            match (index_value(first), threshold_value(second)) {
                (Some(referendum_index), Some(vote_threshold)) if n == 2 => Some(
                    DemocracyEvent::Started { extrinsic_index, referendum_index, vote_threshold },
                ),
                _ => None,
            }
        } else if is_name(name, "Undelegated") {
            match account_value(first) {
                Some(account_id) if n == 1 => Some(
                    DemocracyEvent::Undelegated { extrinsic_index, account_id },
                ),
                _ => None,
            }
        } else if is_name(name, "Voted") {
            match (account_value(first), index_value(second), vote_value(third)) {
                (Some(account_id), Some(referendum_index), Some(vote)) if n == 3 => Some(
                    DemocracyEvent::Voted { extrinsic_index, account_id, referendum_index, vote },
                ),
                _ => None,
            }
        } else {
            None
        }
    }
}

/// The pallet that a module's name stands for.
pub open spec fn pallet_of(name: Seq<char>) -> Pallet {
    if name == "Democracy"@ {
        Pallet::Democracy
    } else if name == "Identity"@ {
        Pallet::Identity
    } else if name == "ImOnline"@ {
        Pallet::ImOnline
    } else if name == "Multisig"@ {
        Pallet::Multisig
    } else if name == "Offences"@ {
        Pallet::Offences
    } else if name == "Proxy"@ {
        Pallet::Proxy
    } else if name == "Referenda"@ {
        Pallet::Referenda
    } else if name == "Staking"@ {
        Pallet::Staking
    } else if name == "System"@ {
        Pallet::System
    } else if name == "Utility"@ {
        Pallet::Utility
    } else {
        Pallet::Other
    }
}

/// The pallet that a module's name stands for.
pub fn get_pallet(name: &String) -> (pallet: Pallet)
    ensures
        pallet == pallet_of(name@),
{
    if is_name(name, "Democracy") {
        Pallet::Democracy
    } else if is_name(name, "Identity") {
        Pallet::Identity
    } else if is_name(name, "ImOnline") {
        Pallet::ImOnline
    } else if is_name(name, "Multisig") {
        Pallet::Multisig
    } else if is_name(name, "Offences") {
        Pallet::Offences
    } else if is_name(name, "Proxy") {
        Pallet::Proxy
    } else if is_name(name, "Referenda") {
        Pallet::Referenda
    } else if is_name(name, "Staking") {
        Pallet::Staking
    } else if is_name(name, "System") {
        Pallet::System
    } else if is_name(name, "Utility") {
        Pallet::Utility
    } else {
        Pallet::Other
    }
}

/// What an event of a pallet other than democracy carries.
pub open spec fn pallet_event_of(event: SubstrateEvent) -> Option<PalletEvent> {
    match event {
        SubstrateEvent::Identity(carried) => Some(carried),
        SubstrateEvent::ImOnline(carried) => Some(carried),
        SubstrateEvent::Multisig(carried) => Some(carried),
        SubstrateEvent::Offences(carried) => Some(carried),
        SubstrateEvent::Proxy(carried) => Some(carried),
        SubstrateEvent::Referenda(carried) => Some(carried),
        SubstrateEvent::Staking(carried) => Some(carried),
        SubstrateEvent::System(carried) => Some(carried),
        SubstrateEvent::Utility(carried) => Some(carried),
        _ => None,
    }
}

/// Whether `event` is what `record` tells. An event of the democracy pallet is
/// read from its arguments; where it does not read, and for a module that is
/// not told apart, the event is known by the names of its module and of the
/// event alone. An event of any other pallet is known by its pallet, its name
/// and the extrinsic that it belongs to.
pub open spec fn tells(event: SubstrateEvent, record: EventRecordView) -> bool {
    let pallet = pallet_of(record.module_name);
    let democracy = democracy_event_of(
        record.event_name,
        record.phase.spec_extrinsic_index(),
        record.arguments,
    );
    if pallet is Democracy && democracy is Some {
        event matches SubstrateEvent::Democracy(told) && told == democracy->Some_0
    } else if pallet is Democracy || pallet is Other {
        event matches SubstrateEvent::Other { module_name, call_name } && module_name@
            == record.module_name && call_name@ == record.event_name
    } else {
        event.spec_pallet() == pallet && (pallet_event_of(event) matches Some(told) && told.name@
            == record.event_name && told.extrinsic_index == record.phase.spec_extrinsic_index())
    }
}

impl SubstrateEvent {
    /// The event that a record tells.
    pub fn from_record(record: &EventRecord) -> (event: SubstrateEvent)
        ensures
            tells(event, record@),
    {
        let extrinsic_index = record.phase.extrinsic_index();
        let pallet = get_pallet(&record.module_name);
        let carried = PalletEvent { name: record.event_name.clone(), extrinsic_index };
        match pallet {
            Pallet::Democracy => match DemocracyEvent::from_arguments(
                &record.event_name,
                extrinsic_index,
                &record.arguments,
            ) {
                Some(told) => SubstrateEvent::Democracy(told),
                None => SubstrateEvent::Other {
                    module_name: record.module_name.clone(),
                    call_name: record.event_name.clone(),
                },
            },
            Pallet::Identity => SubstrateEvent::Identity(carried),
            Pallet::ImOnline => SubstrateEvent::ImOnline(carried),
            Pallet::Multisig => SubstrateEvent::Multisig(carried),
            Pallet::Offences => SubstrateEvent::Offences(carried),
            Pallet::Proxy => SubstrateEvent::Proxy(carried),
            Pallet::Referenda => SubstrateEvent::Referenda(carried),
            Pallet::Staking => SubstrateEvent::Staking(carried),
            Pallet::System => SubstrateEvent::System(carried),
            Pallet::Utility => SubstrateEvent::Utility(carried),
            Pallet::Other => SubstrateEvent::Other {
                module_name: record.module_name.clone(),
                call_name: record.event_name.clone(),
            },
        }
    }
}

/// The events that a list of records tells, each with its index in the block.
pub fn events_from_records(records: &Vec<EventRecord>) -> (events: Vec<(u32, SubstrateEvent)>)
    requires
        records@.len() <= u32::MAX,
    ensures
        events@.len() == records@.len(),
        forall|i: int|
            0 <= i < records@.len() ==> (#[trigger] events@[i]).0 == i && tells(
                events@[i].1,
                records@[i]@,
            ),
{
    let mut events: Vec<(u32, SubstrateEvent)> = Vec::new();
    let mut i: usize = 0;
    while i < records.len()
        invariant
            i <= records@.len(),
            records@.len() <= u32::MAX,
            events@.len() == i,
            forall|j: int|
                0 <= j < i ==> (#[trigger] events@[j]).0 == j && tells(events@[j].1, records@[j]@),
        decreases records@.len() - i,
    {
        let event = SubstrateEvent::from_record(&records[i]);
        events.push((i as u32, event));
        i += 1;
    }
    events
}

} // verus!
