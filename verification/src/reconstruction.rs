//! The reconstruction of the validators of a block, step by step: at each
//! stage the state says what to ask of the node's storage, and takes the answer
//! in. The one who runs it asks and hands the answers over, nothing else.
use crate::account::AccountId;
use crate::materializer::{
    bonded_from_changes, bonded_read, controllers_of, identities_read, identity_patches,
    ledgers_from_changes, ledgers_read, links_of, nominations_from_changes, nominations_read,
    parent_links, parent_patches, patches_from_changes, patches_read, queued_keys_patches,
    queued_keys_read, queued_keys_readable, some_links, ReadKind, StorageChange,
};
use crate::metadata::{Metadata, StorageMetadata};
use crate::metadata_read::storage_entry_of;
use crate::nominations::{
    assign_controllers, assign_stakes, controller_patches, last_controller, last_ledger,
    stake_patches,
};
use crate::storage::{entry_key, first_hasher, plain_key, second_hasher};
use crate::validator::{nomination_views, Nomination, NominationView};
use crate::validator_details::ValidatorDetails;
use crate::validator_set::{
    accounts_of, distinct_accounts, first_occurrences, is_fresh, ordered_backers, patched_by_all,
    ValidatorPatch, ValidatorSet,
};
use vstd::prelude::*;

verus! {

/// The stages of a reconstruction, in their order.
#[derive(Clone, Copy, Debug, PartialEq, Eq, Structural)]
pub enum Stage {
    NextKeys,
    QueuedKeys,
    Payees,
    Slashes,
    Nominators,
    Bonded,
    Ledgers,
    Identities,
    Supers,
    ParentIdentities,
    Preferences,
    Done,
}

impl Stage {
    /// The stage that follows; the last stage stays.
    pub open spec fn spec_next(self) -> Stage {
        match self {
            Stage::NextKeys => Stage::QueuedKeys,
            Stage::QueuedKeys => Stage::Payees,
            Stage::Payees => Stage::Slashes,
            Stage::Slashes => Stage::Nominators,
            Stage::Nominators => Stage::Bonded,
            Stage::Bonded => Stage::Ledgers,
            Stage::Ledgers => Stage::Identities,
            Stage::Identities => Stage::Supers,
            Stage::Supers => Stage::ParentIdentities,
            Stage::ParentIdentities => Stage::Preferences,
            Stage::Preferences => Stage::Done,
            Stage::Done => Stage::Done,
        }
    }

    /// The stage that follows; the last stage stays.
    #[verifier::when_used_as_spec(spec_next)]
    pub fn next(self) -> (next: Stage)
        ensures
            next == self.spec_next(),
    {
        match self {
            Stage::NextKeys => Stage::QueuedKeys,
            Stage::QueuedKeys => Stage::Payees,
            Stage::Payees => Stage::Slashes,
            Stage::Slashes => Stage::Nominators,
            Stage::Nominators => Stage::Bonded,
            Stage::Bonded => Stage::Ledgers,
            Stage::Ledgers => Stage::Identities,
            Stage::Identities => Stage::Supers,
            Stage::Supers => Stage::ParentIdentities,
            Stage::ParentIdentities => Stage::Preferences,
            Stage::Preferences => Stage::Done,
            Stage::Done => Stage::Done,
        }
    }
}

/// What to ask of the node's storage.
#[derive(Debug)]
pub enum Request {
    /// The one value of a plain item.
    Plain { module: &'static str, item: &'static str },
    /// Every entry of a map: its keys, page by page, and then their values.
    Entries { module: &'static str, item: &'static str },
    /// The entries of a map for the given accounts; of a map by era and
    /// account, those of the given era.
    Values {
        module: &'static str,
        item: &'static str,
        era_index: Option<u32>,
        accounts: Vec<AccountId>,
    },
    /// Nothing more.
    Finished,
}

/// The reconstruction of the validators of one block.
#[derive(Debug)]
pub struct Reconstruction {
    stage: Stage,
    era_index: u32,
    cap: u32,
    set: ValidatorSet,
    nominations: Vec<Nomination>,
    bonded: Vec<(AccountId, AccountId)>,
    supers: Vec<(AccountId, AccountId)>,
}

/// Mathematical model of a [`Reconstruction`]: the stage it is at, the era of
/// the block, the payout cap, the validators as far as they are known, the
/// nominations, the stashes with their controllers, and the validators that are
/// sub-accounts with the accounts above them.
pub struct ReconstructionView {
    pub stage: Stage,
    pub era_index: u32,
    pub cap: u32,
    pub validators: Seq<ValidatorDetails>,
    pub nominations: Seq<NominationView>,
    pub bonded: Seq<(AccountId, AccountId)>,
    pub supers: Seq<(AccountId, AccountId)>,
}

impl View for Reconstruction {
    type V = ReconstructionView;

    closed spec fn view(&self) -> ReconstructionView {
        ReconstructionView {
            stage: self.stage,
            era_index: self.era_index,
            cap: self.cap,
            validators: self.set@,
            nominations: nomination_views(self.nominations@),
            bonded: self.bonded@,
            supers: self.supers@,
        }
    }
}

/// The validators once all the patches are put in place, in their order.
pub open spec fn all_patched(
    validators: Seq<ValidatorDetails>,
    patches: Seq<(AccountId, ValidatorPatch)>,
) -> Seq<ValidatorDetails> {
    Seq::new(
        validators.len(),
        |i: int| patched_by_all(validators[i], patches, patches.len() as int),
    )
}

/// The second account of each pair.
pub open spec fn seconds(pairs: Seq<(AccountId, AccountId)>) -> Seq<AccountId> {
    Seq::new(pairs.len(), |i: int| pairs[i].1)
}

/// The nominators of the nominations.
pub open spec fn nominators(nominations: Seq<NominationView>) -> Seq<AccountId> {
    Seq::new(nominations.len(), |i: int| nominations[i].nominator_account_id)
}

/// The nominations, each with the last controller that is given for its nominator.
pub open spec fn with_controllers(
    nominations: Seq<NominationView>,
    bonded: Seq<(AccountId, AccountId)>,
) -> Seq<NominationView> {
    Seq::new(
        nominations.len(),
        |i: int|
            match last_controller(bonded, nominations[i].nominator_account_id, bonded.len() as int) {
                Some(controller) => NominationView {
                    controller_account_id: Some(controller),
                    ..nominations[i]
                },
                None => nominations[i],
            },
    )
}

/// The nominations, each with the last ledger that is given for its nominator.
pub open spec fn with_stakes(nominations: Seq<NominationView>, ledgers: Seq<crate::validator::Stake>) -> Seq<
    NominationView,
> {
    Seq::new(
        nominations.len(),
        |i: int|
            match last_ledger(ledgers, nominations[i].nominator_account_id, ledgers.len() as int) {
                Some(stake) => NominationView { stake, ..nominations[i] },
                None => nominations[i],
            },
    )
}

/// Whether `after` are the validators `before`, each with the nominations that
/// back it, in the order of their keys, and marked oversubscribed exactly if
/// they are more than the payout cap.
pub open spec fn attached(
    before: Seq<ValidatorDetails>,
    nominations: Seq<NominationView>,
    cap: u32,
    after: Seq<ValidatorDetails>,
) -> bool {
    &&& after.len() == before.len()
    &&& forall|i: int|
        0 <= i < before.len() ==> {
            let held = #[trigger] after[i];
            &&& held == (ValidatorDetails {
                nominations: held.nominations,
                oversubscribed: held.nominations@.len() > cap,
                ..before[i]
            })
            &&& nomination_views(held.nominations@) == ordered_backers(
                nominations,
                before[i].account.id,
            )
        }
}

/// The one value that an answer holds, if it holds one.
pub open spec fn the_value(changes: Seq<StorageChange>) -> Option<Seq<u8>> {
    if changes.len() > 0 && changes[0].data is Some {
        Some(changes[0].data->Some_0@)
    } else {
        None
    }
}

/// Whether a request asks for the entries of the map `item` of `module` for
/// the given accounts.
pub open spec fn asks_values(
    request: Request,
    module: Seq<char>,
    item: Seq<char>,
    era_index: Option<u32>,
    accounts: Seq<AccountId>,
) -> bool {
    request matches Request::Values { module: m, item: i, era_index: e, accounts: a } && m@
        == module && i@ == item && e == era_index && a@ == accounts
}

/// Whether `request` is what a reconstruction in the given state asks.
pub open spec fn asks(state: ReconstructionView, request: Request) -> bool {
    let ids = accounts_of(state.validators);
    match state.stage {
        Stage::NextKeys => asks_values(request, "Session"@, "NextKeys"@, None, ids),
        Stage::QueuedKeys => request matches Request::Plain { module, item } && module@
            == "Session"@ && item@ == "QueuedKeys"@,
        Stage::Payees => asks_values(request, "Staking"@, "Payee"@, None, ids),
        Stage::Slashes => asks_values(
            request,
            "Staking"@,
            "ValidatorSlashInEra"@,
            Some(state.era_index),
            ids,
        ),
        Stage::Nominators => request matches Request::Entries { module, item } && module@
            == "Staking"@ && item@ == "Nominators"@,
        Stage::Bonded => asks_values(
            request,
            "Staking"@,
            "Bonded"@,
            None,
            nominators(state.nominations) + ids,
        ),
        Stage::Ledgers => asks_values(request, "Staking"@, "Ledger"@, None, seconds(state.bonded)),
        Stage::Identities => asks_values(request, "Identity"@, "IdentityOf"@, None, ids),
        Stage::Supers => asks_values(request, "Identity"@, "SuperOf"@, None, ids),
        Stage::ParentIdentities => asks_values(
            request,
            "Identity"@,
            "IdentityOf"@,
            None,
            seconds(state.supers),
        ),
        Stage::Preferences => asks_values(request, "Staking"@, "Validators"@, None, ids),
        Stage::Done => request is Finished,
    }
}

/// Whether `after` are the validators `before` with what the answer for the
/// storage map `kind` tells of them put in place.
pub open spec fn told(
    kind: ReadKind,
    changes: Seq<StorageChange>,
    before: Seq<ValidatorDetails>,
    after: Seq<ValidatorDetails>,
) -> bool {
    exists|patches: Seq<(AccountId, ValidatorPatch)>| #[trigger]
        patches_read(patches, kind, changes, changes.len() as int) && after == all_patched(
            before,
            patches,
        )
}

/// Whether the lists of a state are those of another.
pub open spec fn same_lists(before: ReconstructionView, after: ReconstructionView) -> bool {
    &&& after.nominations == before.nominations
    &&& after.bonded == before.bonded
    &&& after.supers == before.supers
}

/// Whether `after` is the state that follows `before` once the answer to what
/// it asked is taken in.
///
/// The keys for the next session, where rewards go, the slashes of the era, the
/// identities and the preferences are put in place for the validators that the
/// answer names. The keys queued for the next session tell which validators
/// are active in it; where they do not read, nothing changes. The nominators
/// give the nominations. The controllers go to the nominations of the
/// nominators, and to the validators for the other stashes; so do the ledgers,
/// after which each validator is given the nominations that back it. The
/// accounts above the validators are kept, and their identities then go to the
/// validators below them.
pub open spec fn accepted(
    before: ReconstructionView,
    changes: Seq<StorageChange>,
    after: ReconstructionView,
) -> bool {
    let n = changes.len() as int;
    &&& after.stage == before.stage.spec_next()
    &&& after.era_index == before.era_index
    &&& after.cap == before.cap
    &&& match before.stage {
        Stage::NextKeys => same_lists(before, after) && told(
            ReadKind::NextKeys,
            changes,
            before.validators,
            after.validators,
        ),
        Stage::QueuedKeys => same_lists(before, after) && match the_value(changes) {
            None => after.validators == before.validators,
            Some(data) => if queued_keys_readable(data) {
                exists|patches: Seq<(AccountId, ValidatorPatch)>| #[trigger]
                    queued_keys_read(data, patches) && after.validators == all_patched(
                        before.validators,
                        patches,
                    )
            } else {
                after.validators == before.validators
            },
        },
        Stage::Payees => same_lists(before, after) && told(
            ReadKind::Payee,
            changes,
            before.validators,
            after.validators,
        ),
        Stage::Slashes => same_lists(before, after) && told(
            ReadKind::Slash,
            changes,
            before.validators,
            after.validators,
        ),
        Stage::Nominators => {
            &&& after.validators == before.validators
            &&& after.nominations == nominations_read(changes, n)
            &&& after.bonded == before.bonded
            &&& after.supers == before.supers
        },
        Stage::Bonded => {
            &&& after.bonded == bonded_read(changes, n)
            &&& after.nominations == with_controllers(before.nominations, after.bonded)
            &&& after.validators == all_patched(
                before.validators,
                controller_patches(before.nominations, after.bonded, after.bonded.len() as int),
            )
            &&& after.supers == before.supers
        },
        Stage::Ledgers => {
            let ledgers = ledgers_read(changes, n);
            &&& after.nominations == with_stakes(before.nominations, ledgers)
            &&& attached(
                all_patched(
                    before.validators,
                    stake_patches(before.nominations, ledgers, ledgers.len() as int),
                ),
                after.nominations,
                before.cap,
                after.validators,
            )
            &&& after.bonded == before.bonded
            &&& after.supers == before.supers
        },
        Stage::Identities => same_lists(before, after) && (exists|
            patches: Seq<(AccountId, ValidatorPatch)>,
        | #[trigger]
            identities_read(patches, changes, n) && after.validators == all_patched(
                before.validators,
                patches,
            )),
        Stage::Supers => {
            &&& after.validators == before.validators
            &&& after.nominations == before.nominations
            &&& after.bonded == before.bonded
            &&& after.supers == bonded_read(changes, n)
        },
        Stage::ParentIdentities => same_lists(before, after) && (exists|
            patches: Seq<(AccountId, ValidatorPatch)>,
        | #[trigger]
            links_of(patches) == some_links(parent_links(before.supers, changes, n))
                && after.validators == all_patched(before.validators, patches)),
        Stage::Preferences => same_lists(before, after) && told(
            ReadKind::Preferences,
            changes,
            before.validators,
            after.validators,
        ),
        Stage::Done => after == before,
    }
}

/// The accounts of a list of validators.
fn account_ids(validators: &Vec<ValidatorDetails>) -> (ids: Vec<AccountId>)
    ensures
        ids@ == accounts_of(validators@),
{
    let mut ids: Vec<AccountId> = Vec::new();
    let mut i: usize = 0;
    while i < validators.len()
        invariant
            i <= validators@.len(),
            ids@ == accounts_of(validators@.subrange(0, i as int)),
        decreases validators@.len() - i,
    {
        ids.push(validators[i].account.id);
        assert(ids@ =~= accounts_of(validators@.subrange(0, i + 1)));
        i += 1;
    }
    assert(validators@.subrange(0, validators@.len() as int) =~= validators@);
    ids
}

impl Reconstruction {
    /// Whether the state is one that a reconstruction can be in: no account
    /// occurs twice among its validators.
    pub open spec fn wf(&self) -> bool {
        distinct_accounts(self@.validators)
    }

    /// Begins the reconstruction of the validators of a block: every account
    /// that has declared its intention to validate, once, in the order of first
    /// occurrence, active exactly if it is among the session's validators, and
    /// nothing else known of it yet.
    pub fn new(
        active_ids: &Vec<AccountId>,
        intention_ids: &Vec<AccountId>,
        era_index: u32,
        max_nominator_rewarded_per_validator: u32,
    ) -> (reconstruction: Reconstruction)
        ensures
            reconstruction.wf(),
            reconstruction@.stage == Stage::NextKeys,
            reconstruction@.era_index == era_index,
            reconstruction@.cap == max_nominator_rewarded_per_validator,
            reconstruction@.nominations.len() == 0,
            reconstruction@.bonded.len() == 0,
            reconstruction@.supers.len() == 0,
            accounts_of(reconstruction@.validators) == first_occurrences(
                intention_ids@,
                intention_ids@.len() as int,
            ),
            forall|i: int|
                0 <= i < reconstruction@.validators.len() ==> is_fresh(
                    #[trigger] reconstruction@.validators[i],
                    reconstruction@.validators[i].account.id,
                    active_ids@.contains(reconstruction@.validators[i].account.id),
                ),
    {
        Reconstruction {
            stage: Stage::NextKeys,
            era_index,
            cap: max_nominator_rewarded_per_validator,
            set: ValidatorSet::from_intentions(active_ids, intention_ids),
            nominations: Vec::new(),
            bonded: Vec::new(),
            supers: Vec::new(),
        }
    }

    /// The stage that the reconstruction is at.
    pub fn stage(&self) -> (stage: Stage)
        ensures
            stage == self@.stage,
    {
        self.stage
    }

    /// Whether nothing is left to ask.
    pub fn is_done(&self) -> (done: bool)
        ensures
            done == (self@.stage == Stage::Done),
    {
        matches!(self.stage, Stage::Done)
    }

    /// The validators as far as they are known.
    pub fn into_validators(self) -> (validators: Vec<ValidatorDetails>)
        ensures
            validators@ == self@.validators,
    {
        self.set.into_validators()
    }

    /// What to ask of the node next.
    pub fn request(&self) -> (request: Request)
        ensures
            asks(self@, request),
    {
        match self.stage {
            Stage::NextKeys => Request::Values {
                module: "Session",
                item: "NextKeys",
                era_index: None,
                accounts: account_ids(self.set.validators()),
            },
            Stage::QueuedKeys => Request::Plain { module: "Session", item: "QueuedKeys" },
            Stage::Payees => Request::Values {
                module: "Staking",
                item: "Payee",
                era_index: None,
                accounts: account_ids(self.set.validators()),
            },
            Stage::Slashes => Request::Values {
                module: "Staking",
                item: "ValidatorSlashInEra",
                era_index: Some(self.era_index),
                accounts: account_ids(self.set.validators()),
            },
            Stage::Nominators => Request::Entries { module: "Staking", item: "Nominators" },
            Stage::Bonded => {
                let mut accounts: Vec<AccountId> = Vec::new();
                let mut i: usize = 0;
                while i < self.nominations.len()
                    invariant
                        i <= self.nominations@.len(),
                        accounts@ == nominators(nomination_views(self.nominations@)).subrange(
                            0,
                            i as int,
                        ),
                    decreases self.nominations@.len() - i,
                {
                    accounts.push(self.nominations[i].nominator_account_id);
                    assert(accounts@ =~= nominators(nomination_views(self.nominations@)).subrange(
                        0,
                        i + 1,
                    ));
                    i += 1;
                }
                let mut ids = account_ids(self.set.validators());
                let ghost first = accounts@;
                let ghost second = ids@;
                accounts.append(&mut ids);
                assert(accounts@ =~= nominators(nomination_views(self.nominations@)) + second);
                Request::Values { module: "Staking", item: "Bonded", era_index: None, accounts }
            },
            Stage::Ledgers => {
                let accounts = controllers_of(&self.bonded);
                assert(accounts@ =~= seconds(self.bonded@));
                Request::Values { module: "Staking", item: "Ledger", era_index: None, accounts }
            },
            Stage::Identities => Request::Values {
                module: "Identity",
                item: "IdentityOf",
                era_index: None,
                accounts: account_ids(self.set.validators()),
            },
            Stage::Supers => Request::Values {
                module: "Identity",
                item: "SuperOf",
                era_index: None,
                accounts: account_ids(self.set.validators()),
            },
            Stage::ParentIdentities => {
                let accounts = controllers_of(&self.supers);
                assert(accounts@ =~= seconds(self.supers@));
                Request::Values {
                    module: "Identity",
                    item: "IdentityOf",
                    era_index: None,
                    accounts,
                }
            },
            Stage::Preferences => Request::Values {
                module: "Staking",
                item: "Validators",
                era_index: None,
                accounts: account_ids(self.set.validators()),
            },
            Stage::Done => Request::Finished,
        }
    }

    /// Puts patches in place for the validators.
    fn patch(&mut self, patches: Vec<(AccountId, ValidatorPatch)>)
        requires
            old(self).wf(),
        ensures
            final(self).wf(),
            final(self)@ == (ReconstructionView {
                validators: all_patched(old(self)@.validators, patches@),
                ..old(self)@
            }),
    {
        let ghost given = patches@;
        self.set.apply_patches(patches);
        assert(self.set@ =~= all_patched(old(self).set@, given));
    }

    /// Takes in the node's answer to what was asked, and moves on to the next
    /// stage. The answer to a request for one value is one entry.
    pub fn accept(&mut self, changes: Vec<StorageChange>)
        requires
            old(self).wf(),
        ensures
            final(self).wf(),
            accepted(old(self)@, changes@, final(self)@),
    {
        let ghost before = self@;
        match self.stage {
            Stage::NextKeys => {
                let patches = patches_from_changes(ReadKind::NextKeys, &changes);
                self.patch(patches);
            },
            Stage::QueuedKeys => {
                if changes.len() > 0 {
                    match &changes[0].data {
                        Some(data) => match queued_keys_patches(data.as_slice()) {
                            Some(patches) => {
                                proof {
                                    crate::scale::lemma_compact_size(data@, 4);
                                }
                                self.patch(patches);
                            },
                            None => {},
                        },
                        None => {},
                    }
                }
            },
            Stage::Payees => {
                let patches = patches_from_changes(ReadKind::Payee, &changes);
                self.patch(patches);
            },
            Stage::Slashes => {
                let patches = patches_from_changes(ReadKind::Slash, &changes);
                self.patch(patches);
            },
            Stage::Nominators => {
                self.nominations = nominations_from_changes(&changes);
            },
            Stage::Bonded => {
                let bonded = bonded_from_changes(&changes);
                let patches = assign_controllers(&mut self.nominations, &bonded);
                assert(nomination_views(self.nominations@) =~= with_controllers(
                    before.nominations,
                    bonded@,
                ));
                self.bonded = bonded;
                self.patch(patches);
            },
            Stage::Ledgers => {
                let ledgers = ledgers_from_changes(&changes);
                let patches = assign_stakes(&mut self.nominations, &ledgers);
                assert(nomination_views(self.nominations@) =~= with_stakes(
                    before.nominations,
                    ledgers@,
                ));
                self.patch(patches);
                self.set.attach_nominations(&self.nominations, self.cap);
            },
            Stage::Identities => {
                let patches = identity_patches(&changes);
                self.patch(patches);
            },
            Stage::Supers => {
                self.supers = bonded_from_changes(&changes);
            },
            Stage::ParentIdentities => {
                let patches = parent_patches(&self.supers, &changes);
                self.patch(patches);
            },
            Stage::Preferences => {
                let patches = patches_from_changes(ReadKind::Preferences, &changes);
                self.patch(patches);
            },
            Stage::Done => {},
        }
        self.stage = self.stage.next();
    }
}

/// The models of a list of keys.
pub open spec fn key_views(keys: Seq<Vec<u8>>) -> Seq<Seq<u8>> {
    Seq::new(keys.len(), |i: int| keys[i]@)
}

/// Whether a storage entry has the hashers that the keys of a request need:
/// one, or two where the request names an era.
pub open spec fn has_hashers(entry: StorageMetadata, era_index: Option<u32>) -> bool {
    match era_index {
        None => first_hasher(entry.ty) is Some,
        Some(_) => first_hasher(entry.ty) is Some && second_hasher(entry.ty) is Some,
    }
}

/// The keys of the entries of a map for the given accounts.
pub open spec fn keys_of(entry: StorageMetadata, era_index: Option<u32>, accounts: Seq<AccountId>) -> Seq<
    Seq<u8>,
> {
    Seq::new(accounts.len(), |i: int| entry_key(entry, era_index, accounts[i]@)->Some_0)
}

/// The storage keys that a request names, by what the metadata says of the
/// item: for one value, and for every entry of a map, the key of the item;
/// for the entries of accounts, their keys, in the order of the accounts.
/// There are none where the runtime has no such item, or where the item has
/// not the hashers for such keys.
pub open spec fn keys_asked(metadata: Metadata, request: Request) -> Option<Seq<Seq<u8>>> {
    match request {
        Request::Finished => Some(Seq::empty()),
        Request::Plain { module, item } => match storage_entry_of(metadata.modules@, module@, item@) {
            Some(entry) => Some(seq![plain_key(entry.module_prefix@, entry.storage_prefix@)]),
            None => None,
        },
        Request::Entries { module, item } => match storage_entry_of(
            metadata.modules@,
            module@,
            item@,
        ) {
            Some(entry) => Some(seq![plain_key(entry.module_prefix@, entry.storage_prefix@)]),
            None => None,
        },
        Request::Values { module, item, era_index, accounts } => match storage_entry_of(
            metadata.modules@,
            module@,
            item@,
        ) {
            Some(entry) => if has_hashers(entry, era_index) {
                Some(keys_of(entry, era_index, accounts@))
            } else {
                None
            },
            None => None,
        },
    }
}

/// Builds the storage keys that a request names.
pub fn request_keys(metadata: &Metadata, request: &Request) -> (keys: Option<Vec<Vec<u8>>>)
    ensures
        match keys_asked(*metadata, *request) {
            Some(expected) => keys matches Some(built) && key_views(built@) == expected,
            None => keys is None,
        },
{
    let mut keys: Vec<Vec<u8>> = Vec::new();
    match request {
        Request::Finished => {
            assert(key_views(keys@) =~= Seq::<Seq<u8>>::empty());
            Some(keys)
        },
        Request::Plain { module, item } => match metadata.storage_entry(module, item) {
            Some(entry) => {
                keys.push(entry.prefix_key());
                assert(key_views(keys@) =~= seq![
                    plain_key(entry.module_prefix@, entry.storage_prefix@),
                ]);
                Some(keys)
            },
            None => None,
        },
        Request::Entries { module, item } => match metadata.storage_entry(module, item) {
            Some(entry) => {
                keys.push(entry.prefix_key());
                assert(key_views(keys@) =~= seq![
                    plain_key(entry.module_prefix@, entry.storage_prefix@),
                ]);
                Some(keys)
            },
            None => None,
        },
        Request::Values { module, item, era_index, accounts } => match metadata.storage_entry(
            module,
            item,
        ) {
            Some(entry) => {
                let enough = match era_index {
                    None => entry.first_hasher().is_some(),
                    Some(_) => entry.first_hasher().is_some() && entry.second_hasher().is_some(),
                };
                if !enough {
                    return None;
                }
                let mut i: usize = 0;
                assert(key_views(keys@) =~= keys_of(*entry, *era_index, accounts@.subrange(0, 0)));
                while i < accounts.len()
                    invariant
                        i <= accounts@.len(),
                        keys@.len() == i,
                        has_hashers(*entry, *era_index),
                        key_views(keys@) == keys_of(
                            *entry,
                            *era_index,
                            accounts@.subrange(0, i as int),
                        ),
                    decreases accounts@.len() - i,
                {
                    match entry.account_key(*era_index, &accounts[i]) {
                        Some(key) => {
                            let ghost held = keys@;
                            let ghost built = key@;
                            keys.push(key);
                            assert forall|j: int| 0 <= j < keys@.len() implies key_views(keys@)[j]
                                == keys_of(*entry, *era_index, accounts@.subrange(0, i + 1))[j] by {
                                if j < i {
                                    assert(key_views(held)[j] == held[j]@);
                                    assert(accounts@.subrange(0, i as int)[j] == accounts@[j]);
                                    assert(accounts@.subrange(0, i + 1)[j] == accounts@[j]);
                                } else {
                                    assert(keys@[j]@ == built);
                                    assert(accounts@.subrange(0, i + 1)[j] == accounts@[i as int]);
                                }
                            }
                            assert(key_views(keys@) =~= keys_of(
                                *entry,
                                *era_index,
                                accounts@.subrange(0, i + 1),
                            ));
                        },
                        None => {
                            assert(false);
                        },
                    }
                    i += 1;
                }
                assert(accounts@.subrange(0, accounts@.len() as int) =~= accounts@);
                Some(keys)
            },
            None => None,
        },
    }
}

/// Whether each validator is marked oversubscribed exactly if its nominations
/// are more than the payout cap.
pub open spec fn capped(validators: Seq<ValidatorDetails>, cap: u32) -> bool {
    forall|i: int|
        0 <= i < validators.len() ==> (#[trigger] validators[i]).oversubscribed == (
        validators[i].nominations@.len() > cap)
}

/// Whether the nominations of the validators have been put in place when a
/// reconstruction is at the given stage.
pub open spec fn nominations_attached(stage: Stage) -> bool {
    stage is Identities || stage is Supers || stage is ParentIdentities || stage is Preferences
        || stage is Done
}

/// Patches leave the account of a validator, whether it is active, its
/// nominations and whether it is oversubscribed as they are.
pub proof fn lemma_patches_keep(
    details: ValidatorDetails,
    patches: Seq<(AccountId, ValidatorPatch)>,
    upto: int,
)
    ensures
        patched_by_all(details, patches, upto).account.id == details.account.id,
        patched_by_all(details, patches, upto).is_active == details.is_active,
        patched_by_all(details, patches, upto).nominations == details.nominations,
        patched_by_all(details, patches, upto).oversubscribed == details.oversubscribed,
    decreases upto,
{
    if 0 < upto <= patches.len() {
        lemma_patches_keep(details, patches, upto - 1);
    }
}

/// What [`all_patched`] keeps of every validator.
pub proof fn lemma_all_patched_keeps(
    validators: Seq<ValidatorDetails>,
    patches: Seq<(AccountId, ValidatorPatch)>,
)
    ensures
        all_patched(validators, patches).len() == validators.len(),
        forall|i: int|
            0 <= i < validators.len() ==> {
                let after = #[trigger] all_patched(validators, patches)[i];
                &&& after.account.id == validators[i].account.id
                &&& after.is_active == validators[i].is_active
                &&& after.nominations == validators[i].nominations
                &&& after.oversubscribed == validators[i].oversubscribed
            },
{
    assert forall|i: int| 0 <= i < validators.len() implies {
        let after = #[trigger] all_patched(validators, patches)[i];
        &&& after.account.id == validators[i].account.id
        &&& after.is_active == validators[i].is_active
        &&& after.nominations == validators[i].nominations
        &&& after.oversubscribed == validators[i].oversubscribed
    } by {
        lemma_patches_keep(validators[i], patches, patches.len() as int);
    }
}

/// No answer changes which accounts the validators are, nor which of them are
/// active: the validators stay the accounts that have declared their intention
/// to validate, and the active ones those of the session.
pub proof fn lemma_accounts_are_kept(
    before: ReconstructionView,
    changes: Seq<StorageChange>,
    after: ReconstructionView,
)
    requires
        accepted(before, changes, after),
    ensures
        after.validators.len() == before.validators.len(),
        accounts_of(after.validators) == accounts_of(before.validators),
        forall|i: int|
            0 <= i < before.validators.len() ==> (#[trigger] after.validators[i]).is_active
                == before.validators[i].is_active,
{
    let n = changes.len() as int;
    match before.stage {
        Stage::NextKeys | Stage::Payees | Stage::Slashes | Stage::Preferences => {
            let patches = choose|patches: Seq<(AccountId, ValidatorPatch)>|
                after.validators == all_patched(before.validators, patches);
            lemma_all_patched_keeps(before.validators, patches);
        },
        Stage::QueuedKeys => {
            if after.validators != before.validators {
                let patches = choose|patches: Seq<(AccountId, ValidatorPatch)>|
                    after.validators == all_patched(before.validators, patches);
                lemma_all_patched_keeps(before.validators, patches);
            }
        },
        Stage::Identities | Stage::ParentIdentities => {
            let patches = choose|patches: Seq<(AccountId, ValidatorPatch)>|
                after.validators == all_patched(before.validators, patches);
            lemma_all_patched_keeps(before.validators, patches);
        },
        Stage::Bonded => {
            lemma_all_patched_keeps(
                before.validators,
                controller_patches(before.nominations, after.bonded, after.bonded.len() as int),
            );
        },
        Stage::Ledgers => {
            let ledgers = ledgers_read(changes, n);
            let patches = stake_patches(before.nominations, ledgers, ledgers.len() as int);
            lemma_all_patched_keeps(before.validators, patches);
            assert forall|i: int| 0 <= i < before.validators.len() implies (
            #[trigger] after.validators[i]).account.id == before.validators[i].account.id
                && after.validators[i].is_active == before.validators[i].is_active by {
                let middle = all_patched(before.validators, patches)[i];
                assert(after.validators[i].account.id == middle.account.id);
            }
        },
        _ => {},
    }
    assert(accounts_of(after.validators) =~= accounts_of(before.validators));
}

/// Once the nominations are put in place, each validator is marked
/// oversubscribed exactly if its nominations are more than the payout cap, and
/// no later answer changes that.
pub proof fn lemma_oversubscription(
    before: ReconstructionView,
    changes: Seq<StorageChange>,
    after: ReconstructionView,
)
    requires
        accepted(before, changes, after),
        before.stage is Ledgers || (nominations_attached(before.stage) && capped(
            before.validators,
            before.cap,
        )),
    ensures
        nominations_attached(after.stage),
        capped(after.validators, after.cap),
{
    match before.stage {
        Stage::Ledgers => {},
        Stage::Identities | Stage::ParentIdentities | Stage::Preferences => {
            let patches = choose|patches: Seq<(AccountId, ValidatorPatch)>|
                after.validators == all_patched(before.validators, patches);
            lemma_all_patched_keeps(before.validators, patches);
        },
        _ => {},
    }
}

} // verus!
