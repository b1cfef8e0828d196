//! The nominators of a block: their controllers and their stakes, as the
//! chain's storage gives them.
use crate::account::AccountId;
use crate::validator::{nomination_views, Nomination, NominationView, Stake};
use crate::validator_set::ValidatorPatch;
use vstd::prelude::*;

verus! {

/// Whether one of the nominations is that of `stash`.
pub open spec fn is_nominator(nominations: Seq<NominationView>, stash: AccountId) -> bool {
    exists|i: int| 0 <= i < nominations.len() && (#[trigger] nominations[i]).nominator_account_id == stash
}

/// The controller that the last of the first `upto` entries for `stash` names.
pub open spec fn last_controller(bonded: Seq<(AccountId, AccountId)>, stash: AccountId, upto: int) -> Option<
    AccountId,
>
    decreases upto,
{
    if upto <= 0 || upto > bonded.len() {
        None
    } else if bonded[upto - 1].0 == stash {
        Some(bonded[upto - 1].1)
    } else {
        last_controller(bonded, stash, upto - 1)
    }
}

/// The last of the first `upto` ledgers that is that of `stash`.
pub open spec fn last_ledger(ledgers: Seq<Stake>, stash: AccountId, upto: int) -> Option<Stake>
    decreases upto,
{
    if upto <= 0 || upto > ledgers.len() {
        None
    } else if ledgers[upto - 1].stash_account_id == stash {
        Some(ledgers[upto - 1])
    } else {
        last_ledger(ledgers, stash, upto - 1)
    }
}

/// The patches that give their controllers to the stashes, among the first `upto`
/// entries, that are no nominators.
pub open spec fn controller_patches(
    nominations: Seq<NominationView>,
    bonded: Seq<(AccountId, AccountId)>,
    upto: int,
) -> Seq<(AccountId, ValidatorPatch)>
    decreases upto,
{
    if upto <= 0 || upto > bonded.len() {
        Seq::empty()
    } else {
        let before = controller_patches(nominations, bonded, upto - 1);
        if is_nominator(nominations, bonded[upto - 1].0) {
            before
        } else {
            before.push((bonded[upto - 1].0, ValidatorPatch::Controller(bonded[upto - 1].1)))
        }
    }
}

/// The patches that give their stakes to the stashes, among the first `upto`
/// ledgers, that are no nominators.
pub open spec fn stake_patches(nominations: Seq<NominationView>, ledgers: Seq<Stake>, upto: int) -> Seq<
    (AccountId, ValidatorPatch),
>
    decreases upto,
{
    if upto <= 0 || upto > ledgers.len() {
        Seq::empty()
    } else {
        let before = stake_patches(nominations, ledgers, upto - 1);
        if is_nominator(nominations, ledgers[upto - 1].stash_account_id) {
            before
        } else {
            before.push(
                (ledgers[upto - 1].stash_account_id, ValidatorPatch::SelfStake(ledgers[upto - 1])),
            )
        }
    }
}

/// Gives `controller` to every nomination of `stash`; tells whether there was one.
fn set_controller(nominations: &mut Vec<Nomination>, stash: &AccountId, controller: AccountId) -> (found:
    bool)
    ensures
        final(nominations)@.len() == old(nominations)@.len(),
        found == is_nominator(nomination_views(old(nominations)@), *stash),
        forall|i: int|
            0 <= i < old(nominations)@.len() ==> (#[trigger] final(nominations)@[i])@ == (if old(
                nominations,
            )@[i].nominator_account_id == *stash {
                NominationView { controller_account_id: Some(controller), ..old(nominations)@[i]@ }
            } else {
                old(nominations)@[i]@
            }),
{
    let ghost start = nominations@;
    let mut found = false;
    let mut i: usize = 0;
    while i < nominations.len()
        invariant
            i <= start.len(),
            nominations@.len() == start.len(),
            found == exists|j: int| 0 <= j < i && (#[trigger] start[j]).nominator_account_id == *stash,
            forall|j: int| i <= j < start.len() ==> nominations@[j] == start[j],
            forall|j: int|
                0 <= j < i ==> (#[trigger] nominations@[j])@ == (if start[j].nominator_account_id
                    == *stash {
                    NominationView { controller_account_id: Some(controller), ..start[j]@ }
                } else {
                    start[j]@
                }),
        decreases start.len() - i,
    {
        if nominations[i].nominator_account_id.same(stash) {
            assert(nominations@[i as int].nominator_account_id.bytes =~= stash.bytes);
            nominations[i].controller_account_id = Some(controller);
            found = true;
        }
        i += 1;
    }
    proof {
        if is_nominator(nomination_views(start), *stash) {
            let j = choose|j: int|
                0 <= j < start.len() && (#[trigger] nomination_views(start)[j]).nominator_account_id
                    == *stash;
            assert(start[j].nominator_account_id == *stash);
        }
        if found {
            let j = choose|j: int| 0 <= j < start.len() && (#[trigger] start[j]).nominator_account_id == *stash;
            assert(nomination_views(start)[j].nominator_account_id == *stash);
        }
    }
    found
}

/// Gives `stake` to every nomination of its stash; tells whether there was one.
fn set_stake(nominations: &mut Vec<Nomination>, stake: Stake) -> (found: bool)
    ensures
        final(nominations)@.len() == old(nominations)@.len(),
        found == is_nominator(nomination_views(old(nominations)@), stake.stash_account_id),
        forall|i: int|
            0 <= i < old(nominations)@.len() ==> (#[trigger] final(nominations)@[i])@ == (if old(
                nominations,
            )@[i].nominator_account_id == stake.stash_account_id {
                NominationView { stake, ..old(nominations)@[i]@ }
            } else {
                old(nominations)@[i]@
            }),
{
    let ghost start = nominations@;
    let stash = stake.stash_account_id;
    let mut found = false;
    let mut i: usize = 0;
    while i < nominations.len()
        invariant
            i <= start.len(),
            nominations@.len() == start.len(),
            stash == stake.stash_account_id,
            found == exists|j: int| 0 <= j < i && (#[trigger] start[j]).nominator_account_id == stash,
            forall|j: int| i <= j < start.len() ==> nominations@[j] == start[j],
            forall|j: int|
                0 <= j < i ==> (#[trigger] nominations@[j])@ == (if start[j].nominator_account_id
                    == stash {
                    NominationView { stake, ..start[j]@ }
                } else {
                    start[j]@
                }),
        decreases start.len() - i,
    {
        if nominations[i].nominator_account_id.same(&stash) {
            assert(nominations@[i as int].nominator_account_id.bytes =~= stash.bytes);
            nominations[i].stake = stake;
            found = true;
        }
        i += 1;
    }
    proof {
        if is_nominator(nomination_views(start), stash) {
            let j = choose|j: int|
                0 <= j < start.len() && (#[trigger] nomination_views(start)[j]).nominator_account_id
                    == stash;
            assert(start[j].nominator_account_id == stash);
        }
        if found {
            let j = choose|j: int| 0 <= j < start.len() && (#[trigger] start[j]).nominator_account_id == stash;
            assert(nomination_views(start)[j].nominator_account_id == stash);
        }
    }
    found
}

/// Takes in the controllers that the chain gives for stashes, in their order: a
/// nominator's nomination gets the last controller given for it; for any other
/// stash a patch for the validator of that account is handed back.
pub fn assign_controllers(nominations: &mut Vec<Nomination>, bonded: &Vec<(AccountId, AccountId)>) -> (patches:
    Vec<(AccountId, ValidatorPatch)>)
    ensures
        final(nominations)@.len() == old(nominations)@.len(),
        forall|i: int|
            0 <= i < old(nominations)@.len() ==> (#[trigger] final(nominations)@[i])@ == (match last_controller(
                bonded@,
                old(nominations)@[i].nominator_account_id,
                bonded@.len() as int,
            ) {
                Some(controller) => NominationView {
                    controller_account_id: Some(controller),
                    ..old(nominations)@[i]@
                },
                None => old(nominations)@[i]@,
            }),
        patches@ == controller_patches(
            nomination_views(old(nominations)@),
            bonded@,
            bonded@.len() as int,
        ),
{
    let ghost start = nominations@;
    let ghost views = nomination_views(nominations@);
    let mut patches: Vec<(AccountId, ValidatorPatch)> = Vec::new();
    let mut k: usize = 0;
    while k < bonded.len()
        invariant
            k <= bonded@.len(),
            nominations@.len() == start.len(),
            views == nomination_views(start),
            forall|i: int|
                0 <= i < start.len() ==> (#[trigger] nominations@[i]).nominator_account_id
                    == start[i].nominator_account_id,
            forall|i: int|
                0 <= i < start.len() ==> (#[trigger] nominations@[i])@ == (match last_controller(
                    bonded@,
                    start[i].nominator_account_id,
                    k as int,
                ) {
                    Some(controller) => NominationView {
                        controller_account_id: Some(controller),
                        ..start[i]@
                    },
                    None => start[i]@,
                }),
            patches@ == controller_patches(views, bonded@, k as int),
        decreases bonded@.len() - k,
    {
        let stash = bonded[k].0;
        let controller = bonded[k].1;
        let ghost before = nominations@;
        let found = set_controller(nominations, &stash, controller);
        proof {
            assert(found == is_nominator(views, stash)) by {
                if is_nominator(nomination_views(before), stash) {
                    let j = choose|j: int|
                        0 <= j < before.len() && (#[trigger] nomination_views(
                            before,
                        )[j]).nominator_account_id == stash;
                    assert(before[j].nominator_account_id == start[j].nominator_account_id);
                    assert(views[j].nominator_account_id == stash);
                }
                if is_nominator(views, stash) {
                    let j = choose|j: int|
                        0 <= j < views.len() && (#[trigger] views[j]).nominator_account_id == stash;
                    assert(before[j].nominator_account_id == start[j].nominator_account_id);
                    assert(nomination_views(before)[j].nominator_account_id == stash);
                }
            }
            assert forall|i: int| 0 <= i < start.len() implies (#[trigger] nominations@[i]).nominator_account_id
                == start[i].nominator_account_id by {
                assert(before[i].nominator_account_id == start[i].nominator_account_id);
                assert(nominations@[i]@.nominator_account_id == before[i]@.nominator_account_id);
            }
        }
        if !found {
            patches.push((stash, ValidatorPatch::Controller(controller)));
        }
        k += 1;
    }
    patches
}

/// Takes in the ledgers that the chain gives, in their order: a nominator's
/// nomination gets the last ledger of its stash; for any other stash a patch for
/// the validator of that account is handed back.
pub fn assign_stakes(nominations: &mut Vec<Nomination>, ledgers: &Vec<Stake>) -> (patches: Vec<
    (AccountId, ValidatorPatch),
>)
    ensures
        final(nominations)@.len() == old(nominations)@.len(),
        forall|i: int|
            0 <= i < old(nominations)@.len() ==> (#[trigger] final(nominations)@[i])@ == (match last_ledger(
                ledgers@,
                old(nominations)@[i].nominator_account_id,
                ledgers@.len() as int,
            ) {
                Some(stake) => NominationView { stake, ..old(nominations)@[i]@ },
                None => old(nominations)@[i]@,
            }),
        patches@ == stake_patches(
            nomination_views(old(nominations)@),
            ledgers@,
            ledgers@.len() as int,
        ),
{
    let ghost start = nominations@;
    let ghost views = nomination_views(nominations@);
    let mut patches: Vec<(AccountId, ValidatorPatch)> = Vec::new();
    let mut k: usize = 0;
    while k < ledgers.len()
        invariant
            k <= ledgers@.len(),
            nominations@.len() == start.len(),
            views == nomination_views(start),
            forall|i: int|
                0 <= i < start.len() ==> (#[trigger] nominations@[i]).nominator_account_id
                    == start[i].nominator_account_id,
            forall|i: int|
                0 <= i < start.len() ==> (#[trigger] nominations@[i])@ == (match last_ledger(
                    ledgers@,
                    start[i].nominator_account_id,
                    k as int,
                ) {
                    Some(stake) => NominationView { stake, ..start[i]@ },
                    None => start[i]@,
                }),
            patches@ == stake_patches(views, ledgers@, k as int),
        decreases ledgers@.len() - k,
    {
        let stake = ledgers[k];
        let stash = stake.stash_account_id;
        let ghost before = nominations@;
        let found = set_stake(nominations, stake);
        proof {
            assert(found == is_nominator(views, stash)) by {
                if is_nominator(nomination_views(before), stash) {
                    let j = choose|j: int|
                        0 <= j < before.len() && (#[trigger] nomination_views(
                            before,
                        )[j]).nominator_account_id == stash;
                    assert(before[j].nominator_account_id == start[j].nominator_account_id);
                    assert(views[j].nominator_account_id == stash);
                }
                if is_nominator(views, stash) {
                    let j = choose|j: int|
                        0 <= j < views.len() && (#[trigger] views[j]).nominator_account_id == stash;
                    assert(before[j].nominator_account_id == start[j].nominator_account_id);
                    assert(nomination_views(before)[j].nominator_account_id == stash);
                }
            }
            assert forall|i: int| 0 <= i < start.len() implies (#[trigger] nominations@[i]).nominator_account_id
                == start[i].nominator_account_id by {
                assert(before[i].nominator_account_id == start[i].nominator_account_id);
                assert(nominations@[i]@.nominator_account_id == before[i]@.nominator_account_id);
            }
        }
        if !found {
            patches.push((stash, ValidatorPatch::SelfStake(stake)));
        }
        k += 1;
    }
    patches
}

} // verus!
