//! Eras and epochs, the header of a block, and who staked how much in an era.
use crate::account::AccountId;
use crate::chain_types::{account_at, read_account};
use crate::hex_codec::{hex_digit_value, without_hex_prefix, strip_hex_prefix};
use crate::network_status::Balance;
use crate::scale::{
    compact_size, compact_value, fixed_value, read_compact_u128, read_compact_u32, read_u32,
    read_u64, rest,
};
use vstd::prelude::*;
use vstd::string::*;

verus! {

/// An era: its index, and when it starts and ends, in milliseconds.
#[derive(Clone, Copy, Debug, PartialEq, Eq, Structural)]
pub struct Era {
    pub index: u32,
    pub start_timestamp: u64,
    pub end_timestamp: u64,
}

/// The active era as the chain's storage holds it: the index in four bytes, then
/// one byte that is 1 and the start in eight bytes. It ends an era's length
/// after it starts. An era that has not started, and an end that does not fit 64
/// bits, give nothing.
pub open spec fn active_era_of(data: Seq<u8>, era_duration_millis: u64) -> Option<Era> {
    if data.len() >= 13 && data[4] == 1 && fixed_value(rest(data, 5), 8)->Some_0
        + era_duration_millis <= u64::MAX {
        Some(
            Era {
                index: fixed_value(data, 4)->Some_0 as u32,
                start_timestamp: fixed_value(rest(data, 5), 8)->Some_0 as u64,
                end_timestamp: (fixed_value(rest(data, 5), 8)->Some_0 + era_duration_millis) as u64,
            },
        )
    } else {
        None
    }
}

impl Era {
    /// Reads the active era.
    pub fn from(data: &[u8], era_duration_millis: u64) -> (era: Option<Era>)
        ensures
            era == active_era_of(data@, era_duration_millis),
    {
        if data.len() < 13 || data[4] != 1 {
            return None;
        }
        assert(rest(data@, 0) =~= data@);
        let index = match read_u32(data, 0) {
            Some((index, _)) => index,
            None => {
                return None;
            },
        };
        let start = match read_u64(data, 5) {
            Some((start, _)) => start,
            None => {
                return None;
            },
        };
        match start.checked_add(era_duration_millis) {
            Some(end) => Some(Era { index, start_timestamp: start, end_timestamp: end }),
            None => None,
        }
    }
}

/// An epoch: its index, the block it starts with, and when it starts and ends,
/// in seconds.
#[derive(Clone, Copy, Debug, PartialEq, Eq, Structural)]
pub struct Epoch {
    pub index: u64,
    pub start_block_number: u32,
    pub start_timestamp: u64,
    pub end_timestamp: u64,
}

impl Epoch {
    /// The epoch that starts at the given time, in milliseconds, and lasts for
    /// the given number of milliseconds. Nothing where its end does not fit 64 bits.
    pub fn new(index: u64, start_block_number: u32, start_timestamp_millis: u64, epoch_duration_millis: u64) -> (epoch:
        Option<Epoch>)
        ensures
            epoch == if start_timestamp_millis + epoch_duration_millis <= u64::MAX {
                Some(
                    Epoch {
                        index,
                        start_block_number,
                        start_timestamp: start_timestamp_millis / 1000,
                        end_timestamp: ((start_timestamp_millis + epoch_duration_millis)
                            / 1000) as u64,
                    },
                )
            } else {
                None
            },
    {
        match start_timestamp_millis.checked_add(epoch_duration_millis) {
            Some(end_millis) => Some(
                Epoch {
                    index,
                    start_block_number,
                    start_timestamp: start_timestamp_millis / 1000,
                    end_timestamp: end_millis / 1000,
                },
            ),
            None => None,
        }
    }
}

/// The block that an epoch starts with, as the chain's storage holds it: the
/// second of two numbers of four bytes each.
pub fn decode_epoch_start(data: &[u8]) -> (block_number: Option<u32>)
    ensures
        block_number == if data@.len() >= 8 {
            Some(fixed_value(rest(data@, 4), 4)->Some_0 as u32)
        } else {
            None
        },
{
    if data.len() < 8 {
        return None;
    }
    match read_u32(data, 4) {
        Some((block_number, _)) => Some(block_number),
        None => None,
    }
}

/// The number that hexadecimal digits write, most significant first.
pub open spec fn hex_number(digits: Seq<char>) -> nat
    decreases digits.len(),
{
    if digits.len() == 0 {
        0
    } else {
        (16 * hex_number(digits.drop_last()) + hex_digit_value(digits.last())) as nat
    }
}

/// Whether every character is a hexadecimal digit.
pub open spec fn all_hex_digits(digits: Seq<char>) -> bool {
    forall|i: int| 0 <= i < digits.len() ==> hex_digit_value(#[trigger] digits[i]) >= 0
}

/// What the text of the number of a block denotes: hexadecimal digits, at least
/// one, after an optional `0x`, with a value that fits 64 bits.
pub open spec fn block_number_of(text: Seq<char>) -> Option<u64> {
    let digits = without_hex_prefix(text);
    if digits.len() > 0 && all_hex_digits(digits) && hex_number(digits) <= u64::MAX {
        Some(hex_number(digits) as u64)
    } else {
        None
    }
}

proof fn lemma_hex_number_monotonic(digits: Seq<char>, k: int)
    requires
        0 <= k <= digits.len(),
        all_hex_digits(digits),
    ensures
        hex_number(digits.subrange(0, k)) <= hex_number(digits),
    decreases digits.len() - k,
{
    if k == digits.len() {
        assert(digits.subrange(0, k) =~= digits);
    } else {
        assert(digits.subrange(0, k + 1).drop_last() =~= digits.subrange(0, k));
        assert(digits.subrange(0, k + 1).last() == digits[k]);
        assert(hex_digit_value(digits[k]) >= 0);
        lemma_hex_number_monotonic(digits, k + 1);
    }
}

/// The header of a block as the node gives it.
#[derive(Debug)]
pub struct BlockHeader {
    pub number: String,
    pub parent_hash: String,
    pub state_root: String,
    pub extrinsics_root: String,
}

impl BlockHeader {
    /// The number of the block.
    pub fn get_number(&self) -> (number: Option<u64>)
        ensures
            number == block_number_of(self.number@),
    {
        let digits = strip_hex_prefix(self.number.as_str());
        let n = digits.unicode_len();
        if n == 0 {
            return None;
        }
        let mut value: u64 = 0;
        let mut i: usize = 0;
        assert(digits@.subrange(0, 0) =~= Seq::<char>::empty());
        while i < n
            invariant
                n == digits@.len(),
                n > 0,
                i <= n,
                digits@ == without_hex_prefix(self.number@),
                all_hex_digits(digits@.subrange(0, i as int)),
                value == hex_number(digits@.subrange(0, i as int)),
            decreases n - i,
        {
            let c = digits.get_char(i);
            let code: u32 = c as u32;
            let digit: u64 = if 0x30 <= code && code <= 0x39 {
                (code - 0x30) as u64
            } else if 0x61 <= code && code <= 0x66 {
                (code - 0x61 + 10) as u64
            } else if 0x41 <= code && code <= 0x46 {
                (code - 0x41 + 10) as u64
            } else {
                assert(digits@[i as int] == c);
                assert(hex_digit_value(digits@[i as int]) < 0);
                assert(!all_hex_digits(digits@));
                return None;
            };
            proof {
                let longer = digits@.subrange(0, i + 1);
                assert(longer.drop_last() =~= digits@.subrange(0, i as int));
                assert(longer.last() == c);
                assert forall|j: int| 0 <= j < longer.len() implies hex_digit_value(
                    #[trigger] longer[j],
                ) >= 0 by {
                    if j < i {
                        assert(longer[j] == digits@.subrange(0, i as int)[j]);
                    }
                }
                assert(hex_digit_value(c) == digit);
                assert(hex_number(longer) == 16 * value + digit);
            }
            if value > (u64::MAX - digit) / 16 {
                proof {
                    if all_hex_digits(digits@) {
                        lemma_hex_number_monotonic(digits@, i + 1);
                    }
                }
                return None;
            }
            value = value * 16 + digit;
            i += 1;
        }
        assert(digits@.subrange(0, n as int) =~= digits@);
        Some(value)
    }
}

/// What to do with what a subscription to headers yields: a header is handed on,
/// and the subscription ends when nothing comes.
pub fn goes_on(header: &Option<BlockHeader>) -> (on: bool)
    ensures
        on == (*header is Some),
{
    header.is_some()
}

/// The stake of one nominator behind a validator.
#[derive(Clone, Copy, Debug, PartialEq, Eq)]
pub struct NominatorStake {
    pub account_id: AccountId,
    pub stake: Balance,
}

/// The stake behind a validator in an era.
#[derive(Debug)]
pub struct ValidatorStake {
    pub account_id: AccountId,
    pub self_stake: Balance,
    pub total_stake: Balance,
    pub nominators: Vec<NominatorStake>,
}

/// The stakes behind the validators of an era, the smallest in all first.
#[derive(Debug)]
pub struct EraStakers {
    pub era: Era,
    pub stakers: Vec<ValidatorStake>,
}

/// Whether the stakes in all never decrease along a list.
pub open spec fn sorted_by_total(stakers: Seq<ValidatorStake>) -> bool {
    forall|i: int, j: int|
        0 <= i < j < stakers.len() ==> (#[trigger] stakers[i]).total_stake <= (
        #[trigger] stakers[j]).total_stake
}

/// Where a stake of the given total goes in a list that is ordered: in front of
/// the first stake, from `from` on, whose total is greater.
pub open spec fn place_by_total(ordered: Seq<ValidatorStake>, total: Balance, from: int) -> int
    decreases ordered.len() - from,
{
    if from < 0 || from >= ordered.len() || ordered[from].total_stake > total {
        from
    } else {
        place_by_total(ordered, total, from + 1)
    }
}

/// The first `upto` stakes of a list in the order of what they are in all, those
/// that are equal in all in the order in which they came: each stake in its
/// turn is put behind the ones that are not greater in all than itself.
pub open spec fn ordered_by_total(stakers: Seq<ValidatorStake>, upto: int) -> Seq<ValidatorStake>
    decreases upto,
{
    if upto <= 0 || upto > stakers.len() {
        Seq::empty()
    } else {
        let before = ordered_by_total(stakers, upto - 1);
        let staker = stakers[upto - 1];
        before.insert(place_by_total(before, staker.total_stake, 0), staker)
    }
}

/// Orders stakes by what they are in all. Stakes that are equal in all keep the
/// order they came in.
pub fn sort_stakers(stakers: Vec<ValidatorStake>) -> (sorted: Vec<ValidatorStake>)
    ensures
        sorted@ == ordered_by_total(stakers@, stakers@.len() as int),
{
    let mut sorted: Vec<ValidatorStake> = Vec::new();
    let ghost all = stakers@;
    for staker in it: stakers
        invariant
            all == it.seq(),
            sorted@ == ordered_by_total(all, it.index() as int),
    {
        let ghost before = sorted@;
        let mut position: usize = 0;
        while position < sorted.len() && sorted[position].total_stake <= staker.total_stake
            invariant
                position <= sorted@.len(),
                before == sorted@,
                place_by_total(before, staker.total_stake, 0) == place_by_total(
                    before,
                    staker.total_stake,
                    position as int,
                ),
            decreases sorted@.len() - position,
        {
            position += 1;
        }
        assert(place_by_total(before, staker.total_stake, 0) == position);
        sorted.insert(position, staker);
    }
    sorted
}

/// Where a stake goes, there is a place: the stakes in front of it are not
/// greater in all than itself, and the one at it, if there is one, is greater.
pub proof fn lemma_place_by_total(ordered: Seq<ValidatorStake>, total: Balance, from: int)
    requires
        0 <= from <= ordered.len(),
    ensures
        from <= place_by_total(ordered, total, from) <= ordered.len(),
        forall|i: int|
            from <= i < place_by_total(ordered, total, from) ==> (#[trigger] ordered[i]).total_stake
                <= total,
        place_by_total(ordered, total, from) < ordered.len() ==> ordered[place_by_total(
            ordered,
            total,
            from,
        )].total_stake > total,
    decreases ordered.len() - from,
{
    if from < ordered.len() && ordered[from].total_stake <= total {
        lemma_place_by_total(ordered, total, from + 1);
    }
}

/// What [`ordered_by_total`] gives is ordered, and holds the stakes it was
/// given, as many of each.
pub proof fn lemma_ordered_by_total(stakers: Seq<ValidatorStake>, upto: int)
    requires
        0 <= upto <= stakers.len(),
    ensures
        ordered_by_total(stakers, upto).len() == upto,
        sorted_by_total(ordered_by_total(stakers, upto)),
        ordered_by_total(stakers, upto).to_multiset() == stakers.subrange(0, upto).to_multiset(),
    decreases upto,
{
    if upto == 0 {
        assert(stakers.subrange(0, 0) =~= Seq::<ValidatorStake>::empty());
    } else {
        lemma_ordered_by_total(stakers, upto - 1);
        let before = ordered_by_total(stakers, upto - 1);
        let staker = stakers[upto - 1];
        let position = place_by_total(before, staker.total_stake, 0);
        lemma_place_by_total(before, staker.total_stake, 0);
        let after = before.insert(position, staker);
        vstd::seq_lib::to_multiset_insert(before, position, staker);
        assert(stakers.subrange(0, upto) =~= stakers.subrange(0, upto - 1).push(staker));
        vstd::seq_lib::to_multiset_build(stakers.subrange(0, upto - 1), staker);
        assert forall|i: int, j: int| 0 <= i < j < after.len() implies (
        #[trigger] after[i]).total_stake <= (#[trigger] after[j]).total_stake by {
            if i == position {
                assert(after[j] == before[j - 1]);
                assert(before[position].total_stake <= before[j - 1].total_stake) by {
                    if position < j - 1 {
                    }
                }
            } else if j == position {
                assert(after[i] == before[i]);
            } else if i < position && j < position {
                assert(after[i] == before[i]);
                assert(after[j] == before[j]);
            } else if i < position {
                assert(after[i] == before[i]);
                assert(after[j] == before[j - 1]);
            } else {
                assert(after[i] == before[i - 1]);
                assert(after[j] == before[j - 1]);
            }
        }
    }
}

/// The sum of the stakes in all of the first `upto` validators.
pub open spec fn total_of(stakers: Seq<ValidatorStake>, upto: int) -> nat
    decreases upto,
{
    if upto <= 0 || upto > stakers.len() {
        0
    } else {
        total_of(stakers, upto - 1) + stakers[upto - 1].total_stake as nat
    }
}

impl EraStakers {
    /// The stakes of an era, put in order.
    pub fn new(era: Era, stakers: Vec<ValidatorStake>) -> (era_stakers: EraStakers)
        ensures
            era_stakers.era == era,
            era_stakers.stakers@ == ordered_by_total(stakers@, stakers@.len() as int),
    {
        EraStakers { era, stakers: sort_stakers(stakers) }
    }

    /// The sum of all stakes, where it fits 128 bits.
    pub fn total_stake(&self) -> (total: Option<Balance>)
        ensures
            total == if total_of(self.stakers@, self.stakers@.len() as int) <= u128::MAX {
                Some(total_of(self.stakers@, self.stakers@.len() as int) as u128)
            } else {
                None
            },
    {
        let mut total: u128 = 0;
        let mut i: usize = 0;
        while i < self.stakers.len()
            invariant
                i <= self.stakers@.len(),
                total == total_of(self.stakers@, i as int),
            decreases self.stakers@.len() - i,
        {
            match total.checked_add(self.stakers[i].total_stake) {
                Some(sum) => {
                    total = sum;
                },
                None => {
                    proof {
                        lemma_total_grows(self.stakers@, i + 1, self.stakers@.len() as int);
                    }
                    return None;
                },
            }
            i += 1;
        }
        Some(total)
    }

    /// The validator with the least stake in all and that stake; of several, the
    /// first.
    pub fn min_stake(&self) -> (least: Option<(AccountId, Balance)>)
        ensures
            self.stakers@.len() == 0 ==> least is None,
            self.stakers@.len() > 0 ==> (least matches Some((id, stake)) && (forall|i: int|
                0 <= i < self.stakers@.len() ==> stake <= (#[trigger] self.stakers@[i]).total_stake)
                && (exists|i: int|
                0 <= i < self.stakers@.len() && (#[trigger] self.stakers@[i]).total_stake == stake
                    && self.stakers@[i].account_id == id)),
    {
        if self.stakers.len() == 0 {
            return None;
        }
        let mut best: usize = 0;
        let mut i: usize = 1;
        while i < self.stakers.len()
            invariant
                1 <= i <= self.stakers@.len(),
                best < i,
                forall|j: int|
                    0 <= j < i ==> self.stakers@[best as int].total_stake <= (
                    #[trigger] self.stakers@[j]).total_stake,
            decreases self.stakers@.len() - i,
        {
            if self.stakers[i].total_stake < self.stakers[best].total_stake {
                best = i;
            }
            i += 1;
        }
        Some((self.stakers[best].account_id, self.stakers[best].total_stake))
    }

    /// The validator with the most stake in all and that stake; of several, the
    /// last.
    pub fn max_stake(&self) -> (most: Option<(AccountId, Balance)>)
        ensures
            self.stakers@.len() == 0 ==> most is None,
            self.stakers@.len() > 0 ==> (most matches Some((id, stake)) && (forall|i: int|
                0 <= i < self.stakers@.len() ==> (#[trigger] self.stakers@[i]).total_stake <= stake)
                && (exists|i: int|
                0 <= i < self.stakers@.len() && (#[trigger] self.stakers@[i]).total_stake == stake
                    && self.stakers@[i].account_id == id)),
    {
        if self.stakers.len() == 0 {
            return None;
        }
        let mut best: usize = 0;
        let mut i: usize = 1;
        while i < self.stakers.len()
            invariant
                1 <= i <= self.stakers@.len(),
                best < i,
                forall|j: int|
                    0 <= j < i ==> (#[trigger] self.stakers@[j]).total_stake
                        <= self.stakers@[best as int].total_stake,
            decreases self.stakers@.len() - i,
        {
            if self.stakers[i].total_stake >= self.stakers[best].total_stake {
                best = i;
            }
            i += 1;
        }
        Some((self.stakers[best].account_id, self.stakers[best].total_stake))
    }

    /// The sum of all stakes divided by their number, rounded down.
    pub fn average_stake(&self) -> (average: Option<Balance>)
        ensures
            average == if self.stakers@.len() > 0 && total_of(
                self.stakers@,
                self.stakers@.len() as int,
            ) <= u128::MAX {
                Some(
                    (total_of(self.stakers@, self.stakers@.len() as int)
                        / self.stakers@.len()) as u128,
                )
            } else {
                None
            },
    {
        let n = self.stakers.len();
        if n == 0 {
            return None;
        }
        match self.total_stake() {
            Some(total) => Some(total / (n as u128)),
            None => None,
        }
    }

    /// The stake in the middle: of an even number of stakes, the upper of the two
    /// in the middle.
    pub fn median_stake(&self) -> (median: Option<Balance>)
        ensures
            median == if self.stakers@.len() > 0 {
                Some(self.stakers@[self.stakers@.len() as int / 2].total_stake)
            } else {
                None
            },
    {
        let n = self.stakers.len();
        if n == 0 {
            None
        } else {
            Some(self.stakers[n / 2].total_stake)
        }
    }
}

proof fn lemma_total_grows(stakers: Seq<ValidatorStake>, at: int, upto: int)
    requires
        0 <= at <= upto <= stakers.len(),
    ensures
        total_of(stakers, at) <= total_of(stakers, upto),
    decreases upto - at,
{
    if at < upto {
        lemma_total_grows(stakers, at, upto - 1);
    }
}

} // verus!

verus! {

/// The `count` nominators written one after the other from `pos` on, each an
/// account and its stake as a compact number; and where they end.
pub open spec fn nominators_at(data: Seq<u8>, pos: int, count: nat) -> Option<(Seq<NominatorStake>, int)>
    decreases count,
{
    if count == 0 {
        Some((Seq::empty(), pos))
    } else {
        match account_at(data, pos) {
            None => None,
            Some(id) => if pos + 32 < data.len() && compact_value(rest(data, pos + 32), 16) is Some {
                let stake = compact_value(rest(data, pos + 32), 16)->Some_0 as u128;
                let next = pos + 32 + compact_size(rest(data, pos + 32));
                match nominators_at(data, next, (count - 1) as nat) {
                    Some((others, end)) => Some(
                        (seq![NominatorStake { account_id: id, stake }] + others, end),
                    ),
                    None => None,
                }
            } else {
                None
            },
        }
    }
}

/// Mathematical model of a [`ValidatorStake`].
pub struct ValidatorStakeView {
    pub account_id: AccountId,
    pub self_stake: Balance,
    pub total_stake: Balance,
    pub nominators: Seq<NominatorStake>,
}

impl View for ValidatorStake {
    type V = ValidatorStakeView;

    open spec fn view(&self) -> ValidatorStakeView {
        ValidatorStakeView {
            account_id: self.account_id,
            self_stake: self.self_stake,
            total_stake: self.total_stake,
            nominators: self.nominators@,
        }
    }
}

/// The stake behind a validator as the chain's storage holds it: what is staked
/// in all and what the validator has staked itself, both compact, then the
/// number of nominators, compact, and the nominators.
pub open spec fn validator_stake_of(data: Seq<u8>, validator: AccountId) -> Option<ValidatorStakeView> {
    if data.len() > 0 && compact_value(data, 16) is Some {
        let total = compact_value(data, 16)->Some_0 as u128;
        let after_total = compact_size(data) as int;
        if after_total < data.len() && compact_value(rest(data, after_total), 16) is Some {
            let own = compact_value(rest(data, after_total), 16)->Some_0 as u128;
            let after_own = after_total + compact_size(rest(data, after_total));
            if after_own < data.len() && compact_value(rest(data, after_own), 4) is Some {
                let count = compact_value(rest(data, after_own), 4)->Some_0;
                let start = after_own + compact_size(rest(data, after_own));
                match nominators_at(data, start, count) {
                    Some((nominators, _)) => Some(
                        ValidatorStakeView {
                            account_id: validator,
                            self_stake: own,
                            total_stake: total,
                            nominators,
                        },
                    ),
                    None => None,
                }
            } else {
                None
            }
        } else {
            None
        }
    } else {
        None
    }
}

/// A result with `prefix` put in front of its nominators.
pub open spec fn with_nominators(
    prefix: Seq<NominatorStake>,
    result: Option<(Seq<NominatorStake>, int)>,
) -> Option<(Seq<NominatorStake>, int)> {
    match result {
        Some((others, end)) => Some((prefix + others, end)),
        None => None,
    }
}

impl ValidatorStake {
    /// Reads the stake behind `validator`.
    pub fn from_bytes(data: &[u8], validator: AccountId) -> (stake: Option<ValidatorStake>)
        ensures
            match stake {
                Some(read) => validator_stake_of(data@, validator) == Some(read@),
                None => validator_stake_of(data@, validator) is None,
            },
    {
        assert(rest(data@, 0) =~= data@);
        let (total, after_total) = match read_compact_u128(data, 0) {
            Some(read) => read,
            None => {
                return None;
            },
        };
        let (own, after_own) = match read_compact_u128(data, after_total) {
            Some(read) => read,
            None => {
                return None;
            },
        };
        let (count, start) = match read_compact_u32(data, after_own) {
            Some(read) => read,
            None => {
                return None;
            },
        };
        let mut nominators: Vec<NominatorStake> = Vec::new();
        let mut at: usize = start;
        let mut k: u32 = 0;
        let ghost whole = nominators_at(data@, start as int, count as nat);
        proof {
            match whole {
                Some((others, end)) => {
                    assert(Seq::<NominatorStake>::empty() + others =~= others);
                },
                None => {},
            }
        }
        while k < count
            invariant
                k <= count,
                at <= data@.len(),
                whole == nominators_at(data@, start as int, count as nat),
                validator_stake_of(data@, validator) == match whole {
                    Some((all, _)) => Some(
                        ValidatorStakeView {
                            account_id: validator,
                            self_stake: own,
                            total_stake: total,
                            nominators: all,
                        },
                    ),
                    None => None,
                },
                whole == with_nominators(
                    nominators@,
                    nominators_at(data@, at as int, (count - k) as nat),
                ),
            decreases count - k,
        {
            let ghost before = nominators@;
            let (id, after_id) = match read_account(data, at) {
                Some(read) => read,
                None => {
                    return None;
                },
            };
            let (value, next) = match read_compact_u128(data, after_id) {
                Some(read) => read,
                None => {
                    return None;
                },
            };
            nominators.push(NominatorStake { account_id: id, stake: value });
            proof {
                let one = NominatorStake { account_id: id, stake: value };
                let later = nominators_at(data@, next as int, (count - k - 1) as nat);
                assert(nominators@ =~= before + seq![one]);
                match later {
                    Some((others, end)) => {
                        assert(before + (seq![one] + others) =~= (before + seq![one]) + others);
                    },
                    None => {},
                }
            }
            at = next;
            k += 1;
        }
        proof {
            assert(nominators@ + Seq::<NominatorStake>::empty() =~= nominators@);
        }
        Some(
            ValidatorStake {
                account_id: validator,
                self_stake: own,
                total_stake: total,
                nominators,
            },
        )
    }
}

} // verus!
