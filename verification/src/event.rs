//! Chain events, and the rows that the block processor persists for them.
use crate::account::AccountId;
use crate::network_status::Balance;
use vstd::prelude::*;
use vstd::string::*;

verus! {

/// For how long a vote locks its balance.
#[derive(Clone, Copy, Debug, PartialEq, Eq, Structural)]
pub enum Conviction {
    Unlocked,
    Locked1x,
    Locked2x,
    Locked3x,
    Locked4x,
    Locked5x,
    Locked6x,
}

impl Conviction {
    /// The number that stands for the conviction in the store.
    pub open spec fn spec_number(self) -> u8 {
        match self {
            Conviction::Unlocked => 0,
            Conviction::Locked1x => 1,
            Conviction::Locked2x => 2,
            Conviction::Locked3x => 3,
            Conviction::Locked4x => 4,
            Conviction::Locked5x => 5,
            Conviction::Locked6x => 6,
        }
    }

    /// The number that stands for the conviction in the store.
    #[verifier::when_used_as_spec(spec_number)]
    pub fn number(self) -> (number: u8)
        ensures
            number == self.spec_number(),
    {
        match self {
            Conviction::Unlocked => 0,
            Conviction::Locked1x => 1,
            Conviction::Locked2x => 2,
            Conviction::Locked3x => 3,
            Conviction::Locked4x => 4,
            Conviction::Locked5x => 5,
            Conviction::Locked6x => 6,
        }
    }
}

/// A vote for or against, with its conviction.
#[derive(Clone, Copy, Debug, PartialEq, Eq, Structural)]
pub struct Vote {
    pub aye: bool,
    pub conviction: Conviction,
}

/// The vote of an account: all of a balance one way, or a balance split in two.
#[derive(Clone, Copy, Debug, PartialEq, Eq, Structural)]
pub enum AccountVote {
    Standard { vote: Vote, balance: Balance },
    Split { aye: Balance, nay: Balance },
}

impl AccountVote {
    /// The balance that votes aye, if any does.
    pub open spec fn spec_aye_balance(self) -> Option<Balance> {
        match self {
            AccountVote::Standard { vote, balance } => if vote.aye {
                Some(balance)
            } else {
                None
            },
            AccountVote::Split { aye, nay } => Some(aye),
        }
    }

    /// The balance that votes nay, if any does.
    pub open spec fn spec_nay_balance(self) -> Option<Balance> {
        match self {
            AccountVote::Standard { vote, balance } => if !vote.aye {
                Some(balance)
            } else {
                None
            },
            AccountVote::Split { aye, nay } => Some(nay),
        }
    }

    /// The number of the conviction of a standard vote; a split vote has none.
    pub open spec fn spec_conviction(self) -> Option<u8> {
        match self {
            AccountVote::Standard { vote, balance } => Some(vote.conviction.spec_number()),
            AccountVote::Split { aye, nay } => None,
        }
    }

    /// The balance that votes aye, if any does.
    #[verifier::when_used_as_spec(spec_aye_balance)]
    pub fn aye_balance(self) -> (balance: Option<Balance>)
        ensures
            balance == self.spec_aye_balance(),
    {
        match self {
            AccountVote::Standard { vote, balance } => if vote.aye {
                Some(balance)
            } else {
                None
            },
            AccountVote::Split { aye, nay: _ } => Some(aye),
        }
    }

    /// The balance that votes nay, if any does.
    #[verifier::when_used_as_spec(spec_nay_balance)]
    pub fn nay_balance(self) -> (balance: Option<Balance>)
        ensures
            balance == self.spec_nay_balance(),
    {
        match self {
            AccountVote::Standard { vote, balance } => if !vote.aye {
                Some(balance)
            } else {
                None
            },
            AccountVote::Split { aye: _, nay } => Some(nay),
        }
    }

    /// The number of the conviction of a standard vote; a split vote has none.
    #[verifier::when_used_as_spec(spec_conviction)]
    pub fn conviction(self) -> (conviction: Option<u8>)
        ensures
            conviction == self.spec_conviction(),
    {
        match self {
            AccountVote::Standard { vote, balance: _ } => Some(vote.conviction.number()),
            AccountVote::Split { aye: _, nay: _ } => None,
        }
    }
}

/// The majority that a referendum needs.
#[derive(Clone, Copy, Debug, PartialEq, Eq, Structural)]
pub enum VoteThreshold {
    SuperMajorityApprove,
    SuperMajorityAgainst,
    SimpleMajority,
}

impl VoteThreshold {
    /// The JSON text of the threshold: its name between double quotes.
    pub open spec fn json(self) -> Seq<char> {
        match self {
            VoteThreshold::SuperMajorityApprove => "\"SuperMajorityApprove\""@,
            VoteThreshold::SuperMajorityAgainst => "\"SuperMajorityAgainst\""@,
            VoteThreshold::SimpleMajority => "\"SimpleMajority\""@,
        }
    }

    /// The JSON text of the threshold.
    pub fn to_json(self) -> (text: String)
        ensures
            text@ == self.json(),
    {
        String::from_str(
            match self {
                VoteThreshold::SuperMajorityApprove => "\"SuperMajorityApprove\"",
                VoteThreshold::SuperMajorityAgainst => "\"SuperMajorityAgainst\"",
                VoteThreshold::SimpleMajority => "\"SimpleMajority\"",
            },
        )
    }
}

/// An event of the democracy pallet.
#[derive(Clone, Copy, Debug, PartialEq, Eq)]
pub enum DemocracyEvent {
    Cancelled { extrinsic_index: Option<u32>, referendum_index: u32 },
    Delegated {
        extrinsic_index: Option<u32>,
        original_account_id: AccountId,
        delegate_account_id: AccountId,
    },
    NotPassed { extrinsic_index: Option<u32>, referendum_index: u32 },
    Passed { extrinsic_index: Option<u32>, referendum_index: u32 },
    Proposed { extrinsic_index: Option<u32>, proposal_index: u32, deposit: Balance },
    Seconded { extrinsic_index: Option<u32>, account_id: AccountId, proposal_index: u32 },
    Started { extrinsic_index: Option<u32>, referendum_index: u32, vote_threshold: VoteThreshold },
    Undelegated { extrinsic_index: Option<u32>, account_id: AccountId },
    Voted {
        extrinsic_index: Option<u32>,
        account_id: AccountId,
        referendum_index: u32,
        vote: AccountVote,
    },
}

/// What is particular to the row of one kind of democracy event.
#[derive(Debug)]
pub enum DemocracyColumns {
    Cancelled { referendum_index: u32 },
    Delegated { original_account_id: AccountId, delegate_account_id: AccountId },
    NotPassed { referendum_index: u32 },
    Passed { referendum_index: u32 },
    Proposed { proposal_index: u32, deposit: Balance },
    Seconded { account_id: AccountId, proposal_index: u32 },
    Started { referendum_index: u32, vote_threshold: String },
    Undelegated { account_id: AccountId },
    Voted {
        account_id: AccountId,
        referendum_index: u32,
        aye_balance: Option<Balance>,
        nay_balance: Option<Balance>,
        conviction: Option<u8>,
    },
}

/// The row of a democracy event: where the event is, and what it says. A row is
/// found again by the hash of its block and the index of its event.
#[derive(Debug)]
pub struct DemocracyRow {
    pub block_hash: String,
    pub extrinsic_index: Option<u32>,
    pub event_index: u32,
    pub columns: DemocracyColumns,
}

impl DemocracyEvent {
    /// The index of the extrinsic that the event belongs to, if it belongs to one.
    pub open spec fn spec_extrinsic_index(self) -> Option<u32> {
        match self {
            DemocracyEvent::Cancelled { extrinsic_index, .. } => extrinsic_index,
            DemocracyEvent::Delegated { extrinsic_index, .. } => extrinsic_index,
            DemocracyEvent::NotPassed { extrinsic_index, .. } => extrinsic_index,
            DemocracyEvent::Passed { extrinsic_index, .. } => extrinsic_index,
            DemocracyEvent::Proposed { extrinsic_index, .. } => extrinsic_index,
            DemocracyEvent::Seconded { extrinsic_index, .. } => extrinsic_index,
            DemocracyEvent::Started { extrinsic_index, .. } => extrinsic_index,
            DemocracyEvent::Undelegated { extrinsic_index, .. } => extrinsic_index,
            DemocracyEvent::Voted { extrinsic_index, .. } => extrinsic_index,
        }
    }
}

/// Whether `columns` say what `event` says.
pub open spec fn columns_of(event: DemocracyEvent, columns: DemocracyColumns) -> bool {
    match event {
        DemocracyEvent::Cancelled { extrinsic_index, referendum_index } => columns
            == (DemocracyColumns::Cancelled { referendum_index }),
        DemocracyEvent::Delegated { extrinsic_index, original_account_id, delegate_account_id } => columns
            == (DemocracyColumns::Delegated { original_account_id, delegate_account_id }),
        DemocracyEvent::NotPassed { extrinsic_index, referendum_index } => columns
            == (DemocracyColumns::NotPassed { referendum_index }),
        DemocracyEvent::Passed { extrinsic_index, referendum_index } => columns
            == (DemocracyColumns::Passed { referendum_index }),
        DemocracyEvent::Proposed { extrinsic_index, proposal_index, deposit } => columns
            == (DemocracyColumns::Proposed { proposal_index, deposit }),
        DemocracyEvent::Seconded { extrinsic_index, account_id, proposal_index } => columns
            == (DemocracyColumns::Seconded { account_id, proposal_index }),
        DemocracyEvent::Started { extrinsic_index, referendum_index, vote_threshold } => {
            &&& columns matches DemocracyColumns::Started { referendum_index: index, vote_threshold: text }
            &&& index == referendum_index
            &&& text@ == vote_threshold.json()
        },
        DemocracyEvent::Undelegated { extrinsic_index, account_id } => columns
            == (DemocracyColumns::Undelegated { account_id }),
        DemocracyEvent::Voted { extrinsic_index, account_id, referendum_index, vote } => columns
            == (DemocracyColumns::Voted {
            account_id,
            referendum_index,
            aye_balance: vote.spec_aye_balance(),
            nay_balance: vote.spec_nay_balance(),
            conviction: vote.spec_conviction(),
        }),
    }
}

/// The row to persist for a democracy event at the given place.
pub fn process_democracy_event(block_hash: &str, event_index: u32, event: &DemocracyEvent) -> (row:
    DemocracyRow)
    ensures
        row.block_hash@ == block_hash@,
        row.event_index == event_index,
        row.extrinsic_index == event.spec_extrinsic_index(),
        columns_of(*event, row.columns),
{
    let (extrinsic_index, columns) = match *event {
        DemocracyEvent::Cancelled { extrinsic_index, referendum_index } => (
            extrinsic_index,
            DemocracyColumns::Cancelled { referendum_index },
        ),
        DemocracyEvent::Delegated { extrinsic_index, original_account_id, delegate_account_id } => (
            extrinsic_index,
            DemocracyColumns::Delegated { original_account_id, delegate_account_id },
        ),
        DemocracyEvent::NotPassed { extrinsic_index, referendum_index } => (
            extrinsic_index,
            DemocracyColumns::NotPassed { referendum_index },
        ),
        DemocracyEvent::Passed { extrinsic_index, referendum_index } => (
            extrinsic_index,
            DemocracyColumns::Passed { referendum_index },
        ),
        DemocracyEvent::Proposed { extrinsic_index, proposal_index, deposit } => (
            extrinsic_index,
            DemocracyColumns::Proposed { proposal_index, deposit },
        ),
        DemocracyEvent::Seconded { extrinsic_index, account_id, proposal_index } => (
            extrinsic_index,
            DemocracyColumns::Seconded { account_id, proposal_index },
        ),
        DemocracyEvent::Started { extrinsic_index, referendum_index, vote_threshold } => (
            extrinsic_index,
            DemocracyColumns::Started { referendum_index, vote_threshold: vote_threshold.to_json() },
        ),
        DemocracyEvent::Undelegated { extrinsic_index, account_id } => (
            extrinsic_index,
            DemocracyColumns::Undelegated { account_id },
        ),
        DemocracyEvent::Voted { extrinsic_index, account_id, referendum_index, vote } => (
            extrinsic_index,
            DemocracyColumns::Voted {
                account_id,
                referendum_index,
                aye_balance: vote.aye_balance(),
                nay_balance: vote.nay_balance(),
                conviction: vote.conviction(),
            },
        ),
    };
    DemocracyRow { block_hash: String::from_str(block_hash), extrinsic_index, event_index, columns }
}

/// The pallets whose events are told apart.
#[derive(Clone, Copy, Debug, PartialEq, Eq, Structural)]
pub enum Pallet {
    Democracy,
    Identity,
    ImOnline,
    Multisig,
    Offences,
    Proxy,
    Referenda,
    Staking,
    System,
    Utility,
    Other,
}

impl Pallet {
    /// Whether the events of the pallet are persisted.
    pub open spec fn spec_is_persisted(self) -> bool {
        self is Democracy || self is ImOnline || self is Referenda || self is Staking
            || self is System
    }

    /// Whether the rows of the pallet's events carry a nesting index, which tells
    /// where in a batch the event came about.
    pub open spec fn spec_is_nestable(self) -> bool {
        self is Democracy || self is Referenda || self is Staking || self is System
    }

    /// Whether the events of the pallet are persisted.
    #[verifier::when_used_as_spec(spec_is_persisted)]
    pub fn is_persisted(self) -> (persisted: bool)
        ensures
            persisted == self.spec_is_persisted(),
    {
        match self {
            Pallet::Democracy => true,
            Pallet::ImOnline => true,
            Pallet::Referenda => true,
            Pallet::Staking => true,
            Pallet::System => true,
            _ => false,
        }
    }

    /// Whether the rows of the pallet's events carry a nesting index.
    #[verifier::when_used_as_spec(spec_is_nestable)]
    pub fn is_nestable(self) -> (nestable: bool)
        ensures
            nestable == self.spec_is_nestable(),
    {
        match self {
            Pallet::Democracy => true,
            Pallet::Referenda => true,
            Pallet::Staking => true,
            Pallet::System => true,
            _ => false,
        }
    }
}

/// An event of a pallet other than democracy: its name, and the extrinsic that
/// it belongs to, if it belongs to one.
#[derive(Debug)]
pub struct PalletEvent {
    pub name: String,
    pub extrinsic_index: Option<u32>,
}

/// An event of the chain.
#[derive(Debug)]
pub enum SubstrateEvent {
    Democracy(DemocracyEvent),
    Identity(PalletEvent),
    ImOnline(PalletEvent),
    Multisig(PalletEvent),
    Offences(PalletEvent),
    Proxy(PalletEvent),
    Referenda(PalletEvent),
    Staking(PalletEvent),
    System(PalletEvent),
    Utility(PalletEvent),
    Other { module_name: String, call_name: String },
}

impl SubstrateEvent {
    /// The pallet of the event.
    pub open spec fn spec_pallet(&self) -> Pallet {
        match self {
            SubstrateEvent::Democracy(_) => Pallet::Democracy,
            SubstrateEvent::Identity(_) => Pallet::Identity,
            SubstrateEvent::ImOnline(_) => Pallet::ImOnline,
            SubstrateEvent::Multisig(_) => Pallet::Multisig,
            SubstrateEvent::Offences(_) => Pallet::Offences,
            SubstrateEvent::Proxy(_) => Pallet::Proxy,
            SubstrateEvent::Referenda(_) => Pallet::Referenda,
            SubstrateEvent::Staking(_) => Pallet::Staking,
            SubstrateEvent::System(_) => Pallet::System,
            SubstrateEvent::Utility(_) => Pallet::Utility,
            SubstrateEvent::Other { .. } => Pallet::Other,
        }
    }

    /// The pallet of the event.
    #[verifier::when_used_as_spec(spec_pallet)]
    pub fn pallet(&self) -> (pallet: Pallet)
        ensures
            pallet == self.spec_pallet(),
    {
        match self {
            SubstrateEvent::Democracy(_) => Pallet::Democracy,
            SubstrateEvent::Identity(_) => Pallet::Identity,
            SubstrateEvent::ImOnline(_) => Pallet::ImOnline,
            SubstrateEvent::Multisig(_) => Pallet::Multisig,
            SubstrateEvent::Offences(_) => Pallet::Offences,
            SubstrateEvent::Proxy(_) => Pallet::Proxy,
            SubstrateEvent::Referenda(_) => Pallet::Referenda,
            SubstrateEvent::Staking(_) => Pallet::Staking,
            SubstrateEvent::System(_) => Pallet::System,
            SubstrateEvent::Utility(_) => Pallet::Utility,
            SubstrateEvent::Other { .. } => Pallet::Other,
        }
    }
}

/// What the block processor does with an event.
#[derive(Debug)]
pub enum EventStep {
    /// Persist this row of a democracy event.
    PersistDemocracy(DemocracyRow),
    /// Persist the event with the store's operation for its pallet.
    Persist(Pallet),
    /// Leave the event out.
    Skip,
}

/// Decides what is done with the event at `event_index` of a block: the events of
/// democracy, i'm-online, referenda, staking and system are persisted, the others
/// are left out.
pub fn process_event(block_hash: &str, event_index: u32, event: &SubstrateEvent) -> (step: EventStep)
    ensures
        match *event {
            SubstrateEvent::Democracy(democracy_event) => step matches EventStep::PersistDemocracy(row)
                && row.block_hash@ == block_hash@ && row.event_index == event_index
                && row.extrinsic_index == democracy_event.spec_extrinsic_index() && columns_of(
                democracy_event,
                row.columns,
            ),
            _ => if event.spec_pallet().spec_is_persisted() {
                step matches EventStep::Persist(pallet) && pallet == event.spec_pallet()
            } else {
                step is Skip
            },
        },
{
    match event {
        SubstrateEvent::Democracy(democracy_event) => EventStep::PersistDemocracy(
            process_democracy_event(block_hash, event_index, democracy_event),
        ),
        _ => {
            let pallet = event.pallet();
            if pallet.is_persisted() {
                EventStep::Persist(pallet)
            } else {
                EventStep::Skip
            }
        },
    }
}

/// The update of the nesting index of one persisted row.
#[derive(Clone, Copy, Debug, PartialEq, Eq, Structural)]
pub struct NestingUpdate {
    pub pallet: Pallet,
    pub event_index: u32,
}

/// The updates for the first `upto` events: one for each event of a pallet whose
/// rows carry a nesting index, in their order.
pub open spec fn nesting_updates(events: Seq<(u32, SubstrateEvent)>, upto: int) -> Seq<NestingUpdate>
    decreases upto,
{
    if upto <= 0 || upto > events.len() {
        Seq::empty()
    } else {
        let before = nesting_updates(events, upto - 1);
        if events[upto - 1].1.spec_pallet().spec_is_nestable() {
            before.push(
                NestingUpdate {
                    pallet: events[upto - 1].1.spec_pallet(),
                    event_index: events[upto - 1].0,
                },
            )
        } else {
            before
        }
    }
}

/// Lists the rows whose nesting index is to be set for the events that came
/// about inside one nested call.
pub fn update_event_nesting_indices(events: &Vec<(u32, SubstrateEvent)>) -> (updates: Vec<NestingUpdate>)
    ensures
        updates@ == nesting_updates(events@, events@.len() as int),
{
    let mut updates: Vec<NestingUpdate> = Vec::new();
    let mut i: usize = 0;
    while i < events.len()
        invariant
            i <= events@.len(),
            updates@ == nesting_updates(events@, i as int),
        decreases events@.len() - i,
    {
        let pallet = events[i].1.pallet();
        if pallet.is_nestable() {
            updates.push(NestingUpdate { pallet, event_index: events[i].0 });
        }
        i += 1;
    }
    updates
}

} // verus!
