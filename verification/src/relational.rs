//! What is computed on the way to and from the relational store: the eras that
//! a validator has not claimed, the nominators of an era, and the rows of its
//! validators.
use crate::account::{position_of, AccountId};
use crate::argument_meta::comma_from;
use crate::decimal::{parse_u32, parse_u32_text};
use crate::era::{EraStakers, NominatorStake, ValidatorStake};
use crate::network_status::Balance;
use crate::validator::ValidatorPreferences;
use vstd::prelude::*;
use vstd::string::*;

verus! {

/// The numbers that the pieces of `text` between commas write; a piece that
/// writes none is passed over.
pub open spec fn listed(text: Seq<char>) -> Set<u32>
    decreases text.len(),
{
    let k = comma_from(text, 0);
    let head = match parse_u32_text(text.subrange(0, k)) {
        Some(value) => set![value],
        None => Set::empty(),
    };
    if 0 <= k < text.len() {
        head.union(listed(text.subrange(k + 1, text.len() as int)))
    } else {
        head
    }
}

/// Whether the numbers of a list strictly increase.
pub open spec fn strictly_increasing(numbers: Seq<u32>) -> bool {
    forall|i: int, j: int| 0 <= i < j < numbers.len() ==> numbers[i] < numbers[j]
}

/// Puts `value` in its place in a strictly increasing list, unless it is there.
fn insert_sorted(numbers: &mut Vec<u32>, value: u32)
    requires
        strictly_increasing(old(numbers)@),
    ensures
        strictly_increasing(final(numbers)@),
        final(numbers)@.to_set() == old(numbers)@.to_set().insert(value),
{
    let ghost before = numbers@;
    let mut position: usize = 0;
    while position < numbers.len() && numbers[position] < value
        invariant
            position <= numbers@.len(),
            numbers@ == before,
            forall|i: int| 0 <= i < position ==> numbers@[i] < value,
        decreases numbers@.len() - position,
    {
        position += 1;
    }
    if position < numbers.len() && numbers[position] == value {
        assert(before.to_set().insert(value) =~= before.to_set()) by {
            assert(before.contains(before[position as int]));
        }
        return ;
    }
    numbers.insert(position, value);
    proof {
        assert forall|i: int, j: int| 0 <= i < j < numbers@.len() implies numbers@[i] < numbers@[j] by {
            if i == position {
                assert(numbers@[j] == before[j - 1]);
                assert(before[position as int] <= before[j - 1]) by {
                    if position < j - 1 {
                    }
                }
            } else if j == position {
                assert(numbers@[i] == before[i]);
            } else if i < position && j < position {
            } else if i < position {
                assert(numbers@[j] == before[j - 1]);
            } else {
                assert(numbers@[i] == before[i - 1]);
                assert(numbers@[j] == before[j - 1]);
            }
        }
        assert forall|v: u32| numbers@.to_set().contains(v) <==> before.to_set().insert(
            value,
        ).contains(v) by {
            if numbers@.contains(v) {
                let i = choose|i: int| 0 <= i < numbers@.len() && numbers@[i] == v;
                if i < position {
                    assert(before[i] == v);
                    assert(before.contains(v));
                } else if i > position {
                    assert(before[i - 1] == v);
                    assert(before.contains(v));
                }
            }
            if before.contains(v) {
                let i = choose|i: int| 0 <= i < before.len() && before[i] == v;
                if i < position {
                    assert(numbers@[i] == v);
                } else {
                    assert(numbers@[i + 1] == v);
                }
            }
            if v == value {
                assert(numbers@[position as int] == v);
            }
        }
        assert(numbers@.to_set() =~= before.to_set().insert(value));
    }
}

/// The eras that a validator has not claimed, from the text in which the store
/// lists them between commas: each era once, the earliest first. Without a text
/// there are none.
pub fn parse_unclaimed_era_indices(text: Option<&str>) -> (eras: Vec<u32>)
    ensures
        strictly_increasing(eras@),
        eras@.to_set() == match text {
            Some(listing) => listed(listing@),
            None => Set::empty(),
        },
{
    let mut eras: Vec<u32> = Vec::new();
    let listing = match text {
        Some(listing) => listing,
        None => {
            assert(eras@.to_set() =~= Set::<u32>::empty());
            return eras;
        },
    };
    let mut remaining: &str = listing;
    assert(eras@.to_set() =~= Set::<u32>::empty());
    loop
        invariant
            strictly_increasing(eras@),
            eras@.to_set().union(listed(remaining@)) == listed(listing@),
        ensures
            strictly_increasing(eras@),
            eras@.to_set() == listed(listing@),
        decreases remaining@.len(),
    {
        let n = remaining.unicode_len();
        let mut k: usize = 0;
        while k < n && remaining.get_char(k) != ','
            invariant
                n == remaining@.len(),
                k <= n,
                comma_from(remaining@, 0) == comma_from(remaining@, k as int),
            decreases n - k,
        {
            k += 1;
        }
        let ghost before = eras@.to_set();
        let ghost rest_set = listed(remaining@);
        match parse_u32(remaining.substring_char(0, k)) {
            Some(value) => {
                insert_sorted(&mut eras, value);
            },
            None => {},
        }
        if k >= n {
            proof {
                assert(eras@.to_set() =~= before.union(rest_set));
            }
            break ;
        }
        proof {
            let tail = listed(remaining@.subrange(k + 1, n as int));
            assert(eras@.to_set().union(tail) =~= before.union(rest_set));
        }
        remaining = remaining.substring_char(k + 1, n);
    }
    eras
}

/// The nominators behind the first `upto` nominators of a validator.
pub open spec fn nominator_ids(nominators: Seq<NominatorStake>, upto: int) -> Set<AccountId>
    decreases upto,
{
    if upto <= 0 || upto > nominators.len() {
        Set::empty()
    } else {
        nominator_ids(nominators, upto - 1).insert(nominators[upto - 1].account_id)
    }
}

/// The nominators behind the first `upto` validators of an era.
pub open spec fn era_nominator_ids(stakers: Seq<ValidatorStake>, upto: int) -> Set<AccountId>
    decreases upto,
{
    if upto <= 0 || upto > stakers.len() {
        Set::empty()
    } else {
        era_nominator_ids(stakers, upto - 1).union(
            nominator_ids(stakers[upto - 1].nominators@, stakers[upto - 1].nominators@.len() as int),
        )
    }
}

/// Whether no account occurs twice in a list.
pub open spec fn no_account_twice(ids: Seq<AccountId>) -> bool {
    forall|i: int, j: int| 0 <= i < j < ids.len() ==> ids[i] != ids[j]
}

/// The nominators of an era, each once, in the order in which they first occur.
pub fn era_nominators(era_stakers: &EraStakers) -> (nominators: Vec<AccountId>)
    ensures
        no_account_twice(nominators@),
        nominators@.to_set() == era_nominator_ids(
            era_stakers.stakers@,
            era_stakers.stakers@.len() as int,
        ),
{
    let mut nominators: Vec<AccountId> = Vec::new();
    let stakers = &era_stakers.stakers;
    let mut v: usize = 0;
    assert(nominators@.to_set() =~= Set::<AccountId>::empty());
    while v < stakers.len()
        invariant
            v <= stakers@.len(),
            no_account_twice(nominators@),
            nominators@.to_set() == era_nominator_ids(stakers@, v as int),
        decreases stakers@.len() - v,
    {
        let behind = &stakers[v].nominators;
        let ghost before = nominators@.to_set();
        let mut n: usize = 0;
        assert(nominators@.to_set() =~= before.union(nominator_ids(behind@, 0)));
        while n < behind.len()
            invariant
                n <= behind@.len(),
                no_account_twice(nominators@),
                nominators@.to_set() == before.union(nominator_ids(behind@, n as int)),
            decreases behind@.len() - n,
        {
            let id = behind[n].account_id;
            let ghost held = nominators@;
            match position_of(&nominators, &id) {
                Some(p) => {
                    assert(held[p as int].bytes =~= id.bytes);
                    assert(held.contains(id));
                    assert(held.to_set() =~= before.union(nominator_ids(behind@, n + 1)));
                },
                None => {
                    assert(!held.contains(id)) by {
                        if held.contains(id) {
                            let p = choose|p: int| 0 <= p < held.len() && held[p] == id;
                            assert(held[p]@ == id@);
                        }
                    }
                    nominators.push(id);
                    assert(nominators@.to_set() =~= held.to_set().insert(id)) by {
                        assert forall|a: AccountId| nominators@.to_set().contains(a)
                            <==> held.to_set().insert(id).contains(a) by {
                            if nominators@.contains(a) {
                                let p = choose|p: int| 0 <= p < nominators@.len() && nominators@[p] == a;
                                if p < held.len() {
                                    assert(held[p] == a);
                                    assert(held.contains(a));
                                }
                            }
                            if held.contains(a) {
                                let p = choose|p: int| 0 <= p < held.len() && held[p] == a;
                                assert(nominators@[p] == a);
                            }
                            if a == id {
                                assert(nominators@[held.len() as int] == a);
                            }
                        }
                    }
                    assert(nominators@.to_set() =~= before.union(nominator_ids(behind@, n + 1)));
                },
            }
            n += 1;
        }
        v += 1;
    }
    nominators
}

/// How many nominators an era has: each counts once, however many validators it backs.
pub fn count_era_nominators(era_stakers: &EraStakers) -> (count: usize)
    ensures
        count == era_nominator_ids(era_stakers.stakers@, era_stakers.stakers@.len() as int).len(),
        era_nominator_ids(era_stakers.stakers@, era_stakers.stakers@.len() as int).finite(),
{
    let nominators = era_nominators(era_stakers);
    proof {
        nominators@.unique_seq_to_set();
    }
    nominators.len()
}

} // verus!

verus! {

/// The row of a validator in an era.
#[derive(Clone, Copy, Debug, PartialEq, Eq)]
pub struct EraValidatorRow {
    pub validator_account_id: AccountId,
    pub controller_account_id: Option<AccountId>,
    pub is_active: bool,
    pub active_validator_index: Option<u64>,
    pub commission_per_billion: Option<u32>,
    pub blocks_nominations: Option<bool>,
    pub self_stake: Option<Balance>,
    pub total_stake: Option<Balance>,
    pub active_nominator_count: Option<u64>,
}

/// Position of the first of the first `upto` accounts that is `id`.
pub open spec fn first_position(ids: Seq<AccountId>, id: AccountId, upto: int) -> Option<int>
    decreases upto,
{
    if upto <= 0 || upto > ids.len() {
        None
    } else {
        match first_position(ids, id, upto - 1) {
            Some(i) => Some(i),
            None => if ids[upto - 1] == id {
                Some(upto - 1)
            } else {
                None
            },
        }
    }
}

/// Position of the last of the first `upto` stakes that is that of `id`.
pub open spec fn stake_position(stakes: Seq<ValidatorStake>, id: AccountId, upto: int) -> Option<int>
    decreases upto,
{
    if upto <= 0 || upto > stakes.len() {
        None
    } else if stakes[upto - 1].account_id == id {
        Some(upto - 1)
    } else {
        stake_position(stakes, id, upto - 1)
    }
}

/// Position of the last of the first `upto` entries that is for `id`.
pub open spec fn entry_position<T>(entries: Seq<(AccountId, T)>, id: AccountId, upto: int) -> Option<
    int,
>
    decreases upto,
{
    if upto <= 0 || upto > entries.len() {
        None
    } else if entries[upto - 1].0 == id {
        Some(upto - 1)
    } else {
        entry_position(entries, id, upto - 1)
    }
}

/// The row of the validator `id` in an era: its controller, its place among the
/// active validators if it is one of them, its preferences and the stake behind
/// it, each where it is known.
pub open spec fn era_validator_row(
    id: AccountId,
    active_ids: Seq<AccountId>,
    bonded: Seq<(AccountId, AccountId)>,
    stakes: Seq<ValidatorStake>,
    preferences: Seq<(AccountId, ValidatorPreferences)>,
) -> EraValidatorRow {
    let active = first_position(active_ids, id, active_ids.len() as int);
    let controller = entry_position(bonded, id, bonded.len() as int);
    let stake = stake_position(stakes, id, stakes.len() as int);
    let preference = entry_position(preferences, id, preferences.len() as int);
    EraValidatorRow {
        validator_account_id: id,
        controller_account_id: match controller {
            Some(i) => Some(bonded[i].1),
            None => None,
        },
        is_active: active is Some,
        active_validator_index: match active {
            Some(i) => Some(i as u64),
            None => None,
        },
        commission_per_billion: match preference {
            Some(i) => Some(preferences[i].1.commission_per_billion),
            None => None,
        },
        blocks_nominations: match preference {
            Some(i) => Some(preferences[i].1.blocks_nominations),
            None => None,
        },
        self_stake: match stake {
            Some(i) => Some(stakes[i].self_stake),
            None => None,
        },
        total_stake: match stake {
            Some(i) => Some(stakes[i].total_stake),
            None => None,
        },
        active_nominator_count: match stake {
            Some(i) => Some(stakes[i].nominators@.len() as u64),
            None => None,
        },
    }
}

proof fn lemma_first_position_stays(ids: Seq<AccountId>, id: AccountId, at: int, upto: int)
    requires
        0 <= at <= upto <= ids.len(),
        first_position(ids, id, at) is Some,
    ensures
        first_position(ids, id, upto) == first_position(ids, id, at),
    decreases upto - at,
{
    if at < upto {
        lemma_first_position_stays(ids, id, at, upto - 1);
    }
}

/// The first place of `id` among `ids`.
fn find_first(ids: &Vec<AccountId>, id: &AccountId) -> (position: Option<usize>)
    ensures
        match first_position(ids@, *id, ids@.len() as int) {
            Some(i) => position matches Some(found) && found == i,
            None => position is None,
        },
{
    let mut i: usize = 0;
    while i < ids.len()
        invariant
            i <= ids@.len(),
            first_position(ids@, *id, i as int) is None,
        decreases ids@.len() - i,
    {
        if ids[i].same(id) {
            proof {
                assert(ids@[i as int].bytes =~= id.bytes);
                assert(first_position(ids@, *id, i + 1) == Some(i as int));
                lemma_first_position_stays(ids@, *id, i + 1, ids@.len() as int);
            }
            return Some(i);
        }
        i += 1;
    }
    None
}

/// The last entry for `id`.
fn find_controller(bonded: &Vec<(AccountId, AccountId)>, id: &AccountId) -> (position: Option<usize>)
    ensures
        match entry_position(bonded@, *id, bonded@.len() as int) {
            Some(i) => position matches Some(found) && found == i && i < bonded@.len(),
            None => position is None,
        },
{
    let mut i: usize = bonded.len();
    while i > 0
        invariant
            i <= bonded@.len(),
            entry_position(bonded@, *id, bonded@.len() as int) == entry_position(
                bonded@,
                *id,
                i as int,
            ),
        decreases i,
    {
        i -= 1;
        if bonded[i].0.same(id) {
            assert(bonded@[i as int].0.bytes =~= id.bytes);
            return Some(i);
        }
    }
    None
}

/// The last preferences for `id`.
fn find_preferences(preferences: &Vec<(AccountId, ValidatorPreferences)>, id: &AccountId) -> (position:
    Option<usize>)
    ensures
        match entry_position(preferences@, *id, preferences@.len() as int) {
            Some(i) => position matches Some(found) && found == i && i < preferences@.len(),
            None => position is None,
        },
{
    let mut i: usize = preferences.len();
    while i > 0
        invariant
            i <= preferences@.len(),
            entry_position(preferences@, *id, preferences@.len() as int) == entry_position(
                preferences@,
                *id,
                i as int,
            ),
        decreases i,
    {
        i -= 1;
        if preferences[i].0.same(id) {
            assert(preferences@[i as int].0.bytes =~= id.bytes);
            return Some(i);
        }
    }
    None
}

/// The last stake of `id`.
fn find_stake(stakes: &Vec<ValidatorStake>, id: &AccountId) -> (position: Option<usize>)
    ensures
        match stake_position(stakes@, *id, stakes@.len() as int) {
            Some(i) => position matches Some(found) && found == i && i < stakes@.len(),
            None => position is None,
        },
{
    let mut i: usize = stakes.len();
    while i > 0
        invariant
            i <= stakes@.len(),
            stake_position(stakes@, *id, stakes@.len() as int) == stake_position(
                stakes@,
                *id,
                i as int,
            ),
        decreases i,
    {
        i -= 1;
        if stakes[i].account_id.same(id) {
            assert(stakes@[i as int].account_id.bytes =~= id.bytes);
            return Some(i);
        }
    }
    None
}

/// The rows of the validators of an era, one for each account, in their order.
pub fn era_validator_rows(
    all_validator_account_ids: &Vec<AccountId>,
    active_validator_account_ids: &Vec<AccountId>,
    bonded: &Vec<(AccountId, AccountId)>,
    stakes: &Vec<ValidatorStake>,
    preferences: &Vec<(AccountId, ValidatorPreferences)>,
) -> (rows: Vec<EraValidatorRow>)
    ensures
        rows@.len() == all_validator_account_ids@.len(),
        forall|i: int|
            0 <= i < rows@.len() ==> #[trigger] rows@[i] == era_validator_row(
                all_validator_account_ids@[i],
                active_validator_account_ids@,
                bonded@,
                stakes@,
                preferences@,
            ),
{
    let mut rows: Vec<EraValidatorRow> = Vec::new();
    let mut i: usize = 0;
    while i < all_validator_account_ids.len()
        invariant
            i <= all_validator_account_ids@.len(),
            rows@.len() == i,
            forall|j: int|
                0 <= j < i ==> #[trigger] rows@[j] == era_validator_row(
                    all_validator_account_ids@[j],
                    active_validator_account_ids@,
                    bonded@,
                    stakes@,
                    preferences@,
                ),
        decreases all_validator_account_ids@.len() - i,
    {
        let id = all_validator_account_ids[i];
        let active = find_first(active_validator_account_ids, &id);
        let controller = find_controller(bonded, &id);
        let stake = find_stake(stakes, &id);
        let preference = find_preferences(preferences, &id);
        let controller_account_id = match controller {
            Some(p) => Some(bonded[p].1),
            None => None,
        };
        let active_validator_index = match active {
            Some(p) => Some(p as u64),
            None => None,
        };
        let (commission_per_billion, blocks_nominations) = match preference {
            Some(p) => (
                Some(preferences[p].1.commission_per_billion),
                Some(preferences[p].1.blocks_nominations),
            ),
            None => (None, None),
        };
        let (self_stake, total_stake, active_nominator_count) = match stake {
            Some(p) => (
                Some(stakes[p].self_stake),
                Some(stakes[p].total_stake),
                Some(stakes[p].nominators.len() as u64),
            ),
            None => (None, None, None),
        };
        let row = EraValidatorRow {
            validator_account_id: id,
            controller_account_id,
            is_active: active.is_some(),
            active_validator_index,
            commission_per_billion,
            blocks_nominations,
            self_stake,
            total_stake,
            active_nominator_count,
        };
        rows.push(row);
        i += 1;
    }
    rows
}

} // verus!
