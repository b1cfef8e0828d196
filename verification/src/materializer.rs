//! From the answers of the node's storage to the patches and nominations that
//! the validator list is put together from.
use crate::account::{account_of, lemma_account_of, AccountId};
use crate::chain_types::{
    account_at, decode_ledger, decode_nomination, decode_payee, decode_preferences, ledger_of,
    nomination_of, payee_of, preferences_of, read_account,
};
use crate::hex_codec::{encode_hex, hex_text};
use crate::scale::{compact_size, compact_value, read_bytes, read_compact_u32, rest};
use crate::validator::{nomination_views, Nomination, NominationView, Stake};
use crate::validator_set::ValidatorPatch;
use vstd::prelude::*;

verus! {

/// One entry of the node's answer to a storage query: a key, and the value under
/// it where there is one.
#[derive(Debug)]
pub struct StorageChange {
    pub key: Vec<u8>,
    pub data: Option<Vec<u8>>,
}

/// The storage maps whose values tell something of a validator directly.
#[derive(Clone, Copy, Debug, PartialEq, Eq, Structural)]
pub enum ReadKind {
    /// `Session.NextKeys`
    NextKeys,
    /// `Staking.Payee`
    Payee,
    /// `Staking.ValidatorSlashInEra`
    Slash,
    /// `Staking.Validators`
    Preferences,
}

/// The account that a storage key ends with.
pub open spec fn key_account(key: Seq<u8>) -> Option<AccountId> {
    if key.len() >= 32 {
        Some(account_of(key.subrange(key.len() - 32, key.len() as int)))
    } else {
        None
    }
}

/// The account that a storage key ends with.
pub fn account_of_key(key: &[u8]) -> (account: Option<AccountId>)
    ensures
        account == key_account(key@),
{
    match AccountId::from_storage_key(key) {
        Some(id) => {
            proof {
                lemma_account_of(id);
            }
            Some(id)
        },
        None => None,
    }
}

/// The text of session keys: `0x` and their lower-case hexadecimal digits.
pub open spec fn session_keys_text(data: Seq<u8>) -> Seq<char> {
    seq!['0', 'x'] + hex_text(data, false)
}

/// Whether `patch` is what a value of the storage map `kind` tells of a validator.
pub open spec fn patch_reads(kind: ReadKind, data: Seq<u8>, patch: ValidatorPatch) -> bool {
    match kind {
        ReadKind::NextKeys => patch matches ValidatorPatch::NextSessionKeys(keys) && keys@
            == session_keys_text(data),
        ReadKind::Payee => payee_of(data) matches Some(payee) && patch == ValidatorPatch::Payee(
            payee,
        ),
        ReadKind::Slash => patch == ValidatorPatch::Slashed,
        ReadKind::Preferences => preferences_of(data) matches Some(preferences) && patch
            == ValidatorPatch::Preferences(preferences),
    }
}

/// Whether an entry tells something: its key ends with an account, it holds a
/// value, and the value reads as the storage map `kind` writes it.
pub open spec fn tells(kind: ReadKind, change: StorageChange) -> bool {
    &&& key_account(change.key@) is Some
    &&& change.data is Some
    &&& match kind {
        ReadKind::NextKeys => true,
        ReadKind::Payee => payee_of(change.data->Some_0@) is Some,
        ReadKind::Slash => true,
        ReadKind::Preferences => preferences_of(change.data->Some_0@) is Some,
    }
}

/// Whether `patches` are what the first `upto` entries tell, one patch for each
/// entry that tells something, in their order.
pub open spec fn patches_read(
    patches: Seq<(AccountId, ValidatorPatch)>,
    kind: ReadKind,
    changes: Seq<StorageChange>,
    upto: int,
) -> bool
    decreases upto,
{
    if upto <= 0 || upto > changes.len() {
        patches.len() == 0
    } else if tells(kind, changes[upto - 1]) {
        &&& patches.len() > 0
        &&& patches.last().0 == key_account(changes[upto - 1].key@)->Some_0
        &&& patch_reads(kind, changes[upto - 1].data->Some_0@, patches.last().1)
        &&& patches_read(patches.drop_last(), kind, changes, upto - 1)
    } else {
        patches_read(patches, kind, changes, upto - 1)
    }
}

/// What one value tells of a validator, if it reads.
fn read_patch(kind: ReadKind, data: &[u8]) -> (patch: Option<ValidatorPatch>)
    ensures
        match patch {
            Some(read) => patch_reads(kind, data@, read),
            None => match kind {
                ReadKind::NextKeys => false,
                ReadKind::Payee => payee_of(data@) is None,
                ReadKind::Slash => false,
                ReadKind::Preferences => preferences_of(data@) is None,
            },
        },
{
    match kind {
        ReadKind::NextKeys => Some(ValidatorPatch::NextSessionKeys(encode_hex(data))),
        ReadKind::Payee => match decode_payee(data) {
            Some(payee) => Some(ValidatorPatch::Payee(payee)),
            None => None,
        },
        ReadKind::Slash => Some(ValidatorPatch::Slashed),
        ReadKind::Preferences => match decode_preferences(data) {
            Some(preferences) => Some(ValidatorPatch::Preferences(preferences)),
            None => None,
        },
    }
}

/// Turns the node's answer for one storage map into patches: one for each entry
/// whose key ends with an account and whose value reads, in their order.
pub fn patches_from_changes(kind: ReadKind, changes: &Vec<StorageChange>) -> (patches: Vec<
    (AccountId, ValidatorPatch),
>)
    ensures
        patches_read(patches@, kind, changes@, changes@.len() as int),
{
    let mut patches: Vec<(AccountId, ValidatorPatch)> = Vec::new();
    let mut k: usize = 0;
    while k < changes.len()
        invariant
            k <= changes@.len(),
            patches_read(patches@, kind, changes@, k as int),
        decreases changes@.len() - k,
    {
        let change = &changes[k];
        let ghost before = patches@;
        match (account_of_key(change.key.as_slice()), &change.data) {
            (Some(id), Some(data)) => {
                match read_patch(kind, data.as_slice()) {
                    Some(patch) => {
                        patches.push((id, patch));
                        assert(patches@.drop_last() =~= before);
                    },
                    None => {},
                }
            },
            _ => {},
        }
        k += 1;
    }
    patches
}

/// The nominations that the first `upto` entries of `Staking.Nominators` hold, in
/// their order: one for each entry whose key ends with an account and whose
/// value reads.
pub open spec fn nominations_read(changes: Seq<StorageChange>, upto: int) -> Seq<NominationView>
    decreases upto,
{
    if upto <= 0 || upto > changes.len() {
        Seq::empty()
    } else {
        let before = nominations_read(changes, upto - 1);
        let change = changes[upto - 1];
        if key_account(change.key@) is Some && change.data is Some && nomination_of(
            change.data->Some_0@,
            key_account(change.key@)->Some_0,
        ) is Some {
            before.push(
                nomination_of(change.data->Some_0@, key_account(change.key@)->Some_0)->Some_0,
            )
        } else {
            before
        }
    }
}

/// Reads the nominations out of the node's answer for `Staking.Nominators`.
pub fn nominations_from_changes(changes: &Vec<StorageChange>) -> (nominations: Vec<Nomination>)
    ensures
        nomination_views(nominations@) == nominations_read(changes@, changes@.len() as int),
{
    let mut nominations: Vec<Nomination> = Vec::new();
    let mut k: usize = 0;
    assert(nomination_views(nominations@) =~= nominations_read(changes@, 0));
    while k < changes.len()
        invariant
            k <= changes@.len(),
            nomination_views(nominations@) == nominations_read(changes@, k as int),
        decreases changes@.len() - k,
    {
        let change = &changes[k];
        let ghost before = nomination_views(nominations@);
        match (account_of_key(change.key.as_slice()), &change.data) {
            (Some(id), Some(data)) => {
                match decode_nomination(data.as_slice(), id) {
                    Some(nomination) => {
                        let ghost view = nomination@;
                        nominations.push(nomination);
                        assert(nomination_views(nominations@) =~= before.push(view));
                    },
                    None => {},
                }
            },
            _ => {},
        }
        k += 1;
    }
    nominations
}

/// The stashes with their controllers that the first `upto` entries of
/// `Staking.Bonded` hold, in their order.
pub open spec fn bonded_read(changes: Seq<StorageChange>, upto: int) -> Seq<(AccountId, AccountId)>
    decreases upto,
{
    if upto <= 0 || upto > changes.len() {
        Seq::empty()
    } else {
        let before = bonded_read(changes, upto - 1);
        let change = changes[upto - 1];
        if key_account(change.key@) is Some && change.data is Some && account_at(
            change.data->Some_0@,
            0,
        ) is Some {
            before.push(
                (key_account(change.key@)->Some_0, account_at(change.data->Some_0@, 0)->Some_0),
            )
        } else {
            before
        }
    }
}

/// Reads stashes and controllers out of the node's answer for `Staking.Bonded`.
pub fn bonded_from_changes(changes: &Vec<StorageChange>) -> (bonded: Vec<(AccountId, AccountId)>)
    ensures
        bonded@ == bonded_read(changes@, changes@.len() as int),
{
    let mut bonded: Vec<(AccountId, AccountId)> = Vec::new();
    let mut k: usize = 0;
    while k < changes.len()
        invariant
            k <= changes@.len(),
            bonded@ == bonded_read(changes@, k as int),
        decreases changes@.len() - k,
    {
        let change = &changes[k];
        match (account_of_key(change.key.as_slice()), &change.data) {
            (Some(stash), Some(data)) => {
                match read_account(data.as_slice(), 0) {
                    Some((controller, _)) => {
                        bonded.push((stash, controller));
                    },
                    None => {},
                }
            },
            _ => {},
        }
        k += 1;
    }
    bonded
}

/// The controllers among stashes and controllers, in their order.
pub fn controllers_of(bonded: &Vec<(AccountId, AccountId)>) -> (controllers: Vec<AccountId>)
    ensures
        controllers@ == Seq::new(bonded@.len(), |i: int| bonded@[i].1),
{
    let mut controllers: Vec<AccountId> = Vec::new();
    let mut k: usize = 0;
    while k < bonded.len()
        invariant
            k <= bonded@.len(),
            controllers@ == Seq::new(k as nat, |i: int| bonded@[i].1),
        decreases bonded@.len() - k,
    {
        controllers.push(bonded[k].1);
        assert(controllers@ =~= Seq::new((k + 1) as nat, |i: int| bonded@[i].1));
        k += 1;
    }
    controllers
}

/// The ledgers that the first `upto` entries of `Staking.Ledger` hold, in their order.
pub open spec fn ledgers_read(changes: Seq<StorageChange>, upto: int) -> Seq<Stake>
    decreases upto,
{
    if upto <= 0 || upto > changes.len() {
        Seq::empty()
    } else {
        let before = ledgers_read(changes, upto - 1);
        let change = changes[upto - 1];
        if change.data is Some && ledger_of(change.data->Some_0@) is Some {
            before.push(ledger_of(change.data->Some_0@)->Some_0)
        } else {
            before
        }
    }
}

/// Reads the ledgers out of the node's answer for `Staking.Ledger`.
pub fn ledgers_from_changes(changes: &Vec<StorageChange>) -> (ledgers: Vec<Stake>)
    ensures
        ledgers@ == ledgers_read(changes@, changes@.len() as int),
{
    let mut ledgers: Vec<Stake> = Vec::new();
    let mut k: usize = 0;
    while k < changes.len()
        invariant
            k <= changes@.len(),
            ledgers@ == ledgers_read(changes@, k as int),
        decreases changes@.len() - k,
    {
        match &changes[k].data {
            Some(data) => {
                match decode_ledger(data.as_slice()) {
                    Some(ledger) => {
                        ledgers.push(ledger);
                    },
                    None => {},
                }
            },
            None => {},
        }
        k += 1;
    }
    ledgers
}

} // verus!

verus! {

/// The number of bytes of the session keys of a validator.
pub const SESSION_KEYS_LENGTH: usize = 192;

/// Where the `i`-th of the queued keys begins when the first begins at `start`:
/// each takes an account and the session keys.
pub open spec fn queued_start(start: int, i: int) -> int {
    start + i * (32 + SESSION_KEYS_LENGTH as int)
}

/// Whether `patches` are what the keys queued for the next session tell: the
/// number of entries, compact, and for each entry the account and its session
/// keys, whose text the patch for the account carries.
pub open spec fn queued_keys_read(data: Seq<u8>, patches: Seq<(AccountId, ValidatorPatch)>) -> bool {
    &&& compact_value(data, 4) is Some
    &&& patches.len() == compact_value(data, 4)->Some_0
    &&& queued_start(compact_size(data) as int, patches.len() as int) <= data.len()
    &&& forall|i: int|
        0 <= i < patches.len() ==> {
            let at = queued_start(compact_size(data) as int, i);
            &&& (#[trigger] patches[i]).0 == account_of(data.subrange(at, at + 32))
            &&& patches[i].1 matches ValidatorPatch::QueuedKeys(keys)
            &&& keys@ == session_keys_text(
                data.subrange(at + 32, at + 32 + SESSION_KEYS_LENGTH as int),
            )
        }
}

/// Whether the keys queued for the next session read at all: their number is
/// there, and so are all the entries.
pub open spec fn queued_keys_readable(data: Seq<u8>) -> bool {
    &&& data.len() > 0
    &&& compact_value(data, 4) is Some
    &&& queued_start(compact_size(data) as int, compact_value(data, 4)->Some_0 as int)
        <= data.len()
}

/// Reads the keys queued for the next session into patches, one for each entry,
/// in their order.
pub fn queued_keys_patches(data: &[u8]) -> (patches: Option<Vec<(AccountId, ValidatorPatch)>>)
    ensures
        match patches {
            Some(read) => queued_keys_read(data@, read@),
            None => !queued_keys_readable(data@),
        },
{
    assert(rest(data@, 0) =~= data@);
    let (count, start) = match read_compact_u32(data, 0) {
        Some(read) => read,
        None => {
            return None;
        },
    };
    let n = data.len();
    let count = count as usize;
    if (n - start) / 224 < count {
        proof {
            assert(queued_start(start as int, count as int) > n) by (nonlinear_arith)
                requires
                    (n - start) / 224 < count,
                    start <= n,
                    queued_start(start as int, count as int) == start + count * 224,
            ;
        }
        return None;
    }
    proof {
        assert(queued_start(start as int, count as int) <= n) by (nonlinear_arith)
            requires
                (n - start) / 224 >= count,
                start <= n,
                queued_start(start as int, count as int) == start + count * 224,
        ;
    }
    let mut patches: Vec<(AccountId, ValidatorPatch)> = Vec::new();
    let mut i: usize = 0;
    while i < count
        invariant
            i <= count,
            n == data@.len(),
            start == compact_size(data@),
            start + count * 224 <= n,
            patches@.len() == i,
            forall|j: int|
                0 <= j < i ==> {
                    let at = queued_start(start as int, j);
                    &&& (#[trigger] patches@[j]).0 == account_of(data@.subrange(at, at + 32))
                    &&& patches@[j].1 matches ValidatorPatch::QueuedKeys(keys)
                    &&& keys@ == session_keys_text(
                        data@.subrange(at + 32, at + 32 + SESSION_KEYS_LENGTH as int),
                    )
                },
        decreases count - i,
    {
        proof {
            assert(start + i * 224 + 224 <= n) by (nonlinear_arith)
                requires
                    i < count,
                    start + count * 224 <= n,
            ;
        }
        let at = start + i * 224;
        let id = match read_account(data, at) {
            Some((id, _)) => id,
            None => {
                assert(false);
                return None;
            },
        };
        let keys = match read_bytes(data, at + 32, SESSION_KEYS_LENGTH) {
            Some((keys, _)) => keys,
            None => {
                assert(false);
                return None;
            },
        };
        patches.push((id, ValidatorPatch::QueuedKeys(encode_hex(keys.as_slice()))));
        i += 1;
    }
    Some(patches)
}

} // verus!

verus! {

/// The stakes that the first `upto` entries of the stakers of an era hold, in
/// their order: one for each entry whose key ends with an account and whose
/// value reads.
pub open spec fn stakers_read(changes: Seq<StorageChange>, upto: int) -> Seq<crate::era::ValidatorStakeView>
    decreases upto,
{
    if upto <= 0 || upto > changes.len() {
        Seq::empty()
    } else {
        let before = stakers_read(changes, upto - 1);
        let change = changes[upto - 1];
        if key_account(change.key@) is Some && change.data is Some
            && crate::era::validator_stake_of(
            change.data->Some_0@,
            key_account(change.key@)->Some_0,
        ) is Some {
            before.push(
                crate::era::validator_stake_of(
                    change.data->Some_0@,
                    key_account(change.key@)->Some_0,
                )->Some_0,
            )
        } else {
            before
        }
    }
}

/// The models of a list of stakes.
pub open spec fn stake_views(stakers: Seq<crate::era::ValidatorStake>) -> Seq<
    crate::era::ValidatorStakeView,
> {
    Seq::new(stakers.len(), |i: int| stakers[i]@)
}

/// Reads the stakes behind the validators of an era out of the node's answer.
pub fn stakers_from_changes(changes: &Vec<StorageChange>) -> (stakers: Vec<crate::era::ValidatorStake>)
    ensures
        stake_views(stakers@) == stakers_read(changes@, changes@.len() as int),
{
    let mut stakers: Vec<crate::era::ValidatorStake> = Vec::new();
    let mut k: usize = 0;
    assert(stake_views(stakers@) =~= stakers_read(changes@, 0));
    while k < changes.len()
        invariant
            k <= changes@.len(),
            stake_views(stakers@) == stakers_read(changes@, k as int),
        decreases changes@.len() - k,
    {
        let change = &changes[k];
        let ghost before = stake_views(stakers@);
        match (account_of_key(change.key.as_slice()), &change.data) {
            (Some(id), Some(data)) => {
                match crate::era::ValidatorStake::from_bytes(data.as_slice(), id) {
                    Some(stake) => {
                        let ghost view = stake@;
                        stakers.push(stake);
                        assert(stake_views(stakers@) =~= before.push(view));
                    },
                    None => {},
                }
            },
            _ => {},
        }
        k += 1;
    }
    stakers
}

} // verus!

verus! {

/// Whether `patches` are what the first `upto` entries of the identities tell:
/// for each entry whose key ends with an account, in their order, the identity
/// that its value holds, or none where it has no value; an entry whose value
/// does not read tells nothing.
pub open spec fn identities_read(
    patches: Seq<(AccountId, ValidatorPatch)>,
    changes: Seq<StorageChange>,
    upto: int,
) -> bool
    decreases upto,
{
    if upto <= 0 || upto > changes.len() {
        patches.len() == 0
    } else {
        let change = changes[upto - 1];
        if key_account(change.key@) is None || (change.data is Some
            && crate::identity::identity_of(change.data->Some_0@) is None) {
            identities_read(patches, changes, upto - 1)
        } else {
            &&& patches.len() > 0
            &&& patches.last().0 == key_account(change.key@)->Some_0
            &&& match change.data {
                Some(data) => patches.last().1 matches ValidatorPatch::Identity(Some(identity))
                    && Some(identity@) == crate::identity::identity_of(data@),
                None => patches.last().1 matches ValidatorPatch::Identity(None),
            }
            &&& identities_read(patches.drop_last(), changes, upto - 1)
        }
    }
}

/// Turns the node's answer for the identities into patches.
pub fn identity_patches(changes: &Vec<StorageChange>) -> (patches: Vec<(AccountId, ValidatorPatch)>)
    ensures
        identities_read(patches@, changes@, changes@.len() as int),
{
    let mut patches: Vec<(AccountId, ValidatorPatch)> = Vec::new();
    let mut k: usize = 0;
    while k < changes.len()
        invariant
            k <= changes@.len(),
            identities_read(patches@, changes@, k as int),
        decreases changes@.len() - k,
    {
        let change = &changes[k];
        let ghost before = patches@;
        match account_of_key(change.key.as_slice()) {
            Some(id) => match &change.data {
                Some(data) => match crate::validator::IdentityRegistration::from_bytes(
                    data.as_slice(),
                ) {
                    Some(identity) => {
                        patches.push((id, ValidatorPatch::Identity(Some(identity))));
                        assert(patches@.drop_last() =~= before);
                    },
                    None => {},
                },
                None => {
                    patches.push((id, ValidatorPatch::Identity(None)));
                    assert(patches@.drop_last() =~= before);
                },
            },
            None => {},
        }
        k += 1;
    }
    patches
}

/// The account above a sub-account, with the identity it has registered.
pub struct ParentLink {
    pub child: AccountId,
    pub parent: AccountId,
    pub identity: crate::identity::IdentityView,
}

/// The sub-accounts, among the first `upto` pairs of a sub-account and the
/// account above it, of the account `parent` with the identity `identity`.
pub open spec fn links_to(
    supers: Seq<(AccountId, AccountId)>,
    parent: AccountId,
    identity: crate::identity::IdentityView,
    upto: int,
) -> Seq<ParentLink>
    decreases upto,
{
    if upto <= 0 || upto > supers.len() {
        Seq::empty()
    } else if supers[upto - 1].1 == parent {
        links_to(supers, parent, identity, upto - 1).push(
            ParentLink { child: supers[upto - 1].0, parent, identity },
        )
    } else {
        links_to(supers, parent, identity, upto - 1)
    }
}

/// The links that the first `upto` entries of the identities of the accounts
/// above give: for each entry that holds an identity, in their order, one link
/// for each sub-account of the account.
pub open spec fn parent_links(supers: Seq<(AccountId, AccountId)>, changes: Seq<StorageChange>, upto: int) -> Seq<
    ParentLink,
>
    decreases upto,
{
    if upto <= 0 || upto > changes.len() {
        Seq::empty()
    } else {
        let before = parent_links(supers, changes, upto - 1);
        let change = changes[upto - 1];
        if key_account(change.key@) is Some && change.data is Some
            && crate::identity::identity_of(change.data->Some_0@) is Some {
            before + links_to(
                supers,
                key_account(change.key@)->Some_0,
                crate::identity::identity_of(change.data->Some_0@)->Some_0,
                supers.len() as int,
            )
        } else {
            before
        }
    }
}

/// What a patch says of the account above a validator.
pub open spec fn link_of(patch: (AccountId, ValidatorPatch)) -> Option<ParentLink> {
    match patch.1 {
        ValidatorPatch::Parent(parent) => match parent.identity {
            Some(identity) => Some(
                ParentLink { child: patch.0, parent: parent.id, identity: identity@ },
            ),
            None => None,
        },
        _ => None,
    }
}

/// What patches say of the accounts above validators.
pub open spec fn links_of(patches: Seq<(AccountId, ValidatorPatch)>) -> Seq<Option<ParentLink>> {
    Seq::new(patches.len(), |i: int| link_of(patches[i]))
}

/// The links as options.
pub open spec fn some_links(links: Seq<ParentLink>) -> Seq<Option<ParentLink>> {
    Seq::new(links.len(), |i: int| Some(links[i]))
}

/// Turns the identities of the accounts above into patches for the validators
/// that are their sub-accounts.
pub fn parent_patches(supers: &Vec<(AccountId, AccountId)>, changes: &Vec<StorageChange>) -> (patches:
    Vec<(AccountId, ValidatorPatch)>)
    ensures
        links_of(patches@) == some_links(parent_links(supers@, changes@, changes@.len() as int)),
{
    let mut patches: Vec<(AccountId, ValidatorPatch)> = Vec::new();
    let mut k: usize = 0;
    assert(links_of(patches@) =~= some_links(parent_links(supers@, changes@, 0)));
    while k < changes.len()
        invariant
            k <= changes@.len(),
            links_of(patches@) == some_links(parent_links(supers@, changes@, k as int)),
        decreases changes@.len() - k,
    {
        let change = &changes[k];
        match (account_of_key(change.key.as_slice()), &change.data) {
            (Some(parent), Some(data)) => {
                match crate::validator::IdentityRegistration::from_bytes(data.as_slice()) {
                    Some(identity) => {
                        let ghost before = parent_links(supers@, changes@, k as int);
                        let ghost view = identity@;
                        let mut s: usize = 0;
                        assert(links_of(patches@) =~= some_links(
                            before + links_to(supers@, parent, view, 0),
                        ));
                        while s < supers.len()
                            invariant
                                s <= supers@.len(),
                                view == identity@,
                                links_of(patches@) == some_links(
                                    before + links_to(supers@, parent, view, s as int),
                                ),
                            decreases supers@.len() - s,
                        {
                            let ghost held = patches@;
                            if supers[s].1.same(&parent) {
                                assert(supers@[s as int].1.bytes =~= parent.bytes);
                                let copy = identity.duplicate();
                                let patch = ValidatorPatch::Parent(
                                    crate::validator::ParentAccount {
                                        id: parent,
                                        identity: Some(copy),
                                    },
                                );
                                patches.push((supers[s].0, patch));
                                assert(links_of(patches@) =~= links_of(held).push(
                                    Some(
                                        ParentLink {
                                            child: supers@[s as int].0,
                                            parent,
                                            identity: view,
                                        },
                                    ),
                                ));
                                assert(some_links(
                                    before + links_to(supers@, parent, view, s + 1),
                                ) =~= some_links(
                                    before + links_to(supers@, parent, view, s as int),
                                ).push(
                                    Some(
                                        ParentLink {
                                            child: supers@[s as int].0,
                                            parent,
                                            identity: view,
                                        },
                                    ),
                                ));
                            }
                            s += 1;
                        }
                    },
                    None => {},
                }
            },
            _ => {},
        }
        k += 1;
    }
    patches
}

} // verus!
