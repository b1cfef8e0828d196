//! The rewards of a validator month by month, as the reward chart shows them.
use crate::era::Era;
use crate::network_status::Balance;
use std::collections::HashMap;
use vstd::prelude::*;

verus! {

broadcast use vstd::std_specs::hash::group_hash_axioms;

/// Why there is no chart of rewards.
#[derive(Clone, Copy, Debug, PartialEq, Eq, Structural)]
pub enum PlotterError {
    /// There are no rewards to show.
    EmptyData,
    /// The start of an era is no date of a year from 0 on whose months can be
    /// counted in 32 bits.
    InvalidDate,
    /// The rewards of a month do not fit 128 bits.
    Overflow,
}

/// The year of the date, in the universal time zone, of a time given in
/// milliseconds since the first of January 1970; none for a time out of range.
pub uninterp spec fn utc_year(millis: i64) -> Option<i32>;

/// The month of the year, counted from 0, of the date, in the universal time
/// zone, of a time given in milliseconds since the first of January 1970; none
/// for a time out of range.
pub uninterp spec fn utc_month0(millis: i64) -> Option<u32>;

/// `chrono::DateTime::<Utc>::from_timestamp_millis` and `Datelike::year` of what
/// it gives: the year of the date of the time, or nothing for a time that
/// chrono holds to be out of range.
#[verifier::external_body]
pub(crate) fn year_of(millis: i64) -> (year: Option<i32>)
    ensures
        year == utc_year(millis),
{
    match chrono::DateTime::from_timestamp_millis(millis) {
        Some(at) => Some(chrono::Datelike::year(&at)),
        None => None,
    }
}

/// `chrono::DateTime::<Utc>::from_timestamp_millis` and `Datelike::month0` of
/// what it gives: the month of the date of the time, from 0 to 11, or nothing
/// for a time that chrono holds to be out of range.
#[verifier::external_body]
pub(crate) fn month0_of(millis: i64) -> (month: Option<u32>)
    ensures
        month == utc_month0(millis),
        month matches Some(m) ==> m < 12,
{
    match chrono::DateTime::from_timestamp_millis(millis) {
        Some(at) => Some(chrono::Datelike::month0(&at)),
        None => None,
    }
}

/// The number of the month `month0` of the year `year` when months are counted
/// from the first month of the year 0.
pub open spec fn month_index_of(year: int, month0: int) -> Option<u32> {
    if 0 <= year && 0 <= month0 < 12 && year * 12 + month0 <= u32::MAX {
        Some((year * 12 + month0) as u32)
    } else {
        None
    }
}

/// Counts the months up to a month of a year.
pub fn month_index(year: i32, month0: u32) -> (index: Option<u32>)
    ensures
        index == month_index_of(year as int, month0 as int),
{
    if year < 0 || month0 >= 12 {
        return None;
    }
    let index: i64 = (year as i64) * 12 + month0 as i64;
    if index > 0xFFFF_FFFF {
        None
    } else {
        Some(index as u32)
    }
}

/// The number of the month in which a time lies, by the calendar of chrono.
pub open spec fn month_of_time(millis: u64) -> Option<u32> {
    if millis > i64::MAX {
        None
    } else {
        match (utc_year(millis as i64), utc_month0(millis as i64)) {
            (Some(year), Some(month0)) => month_index_of(year as int, month0 as int),
            _ => None,
        }
    }
}

/// The number of the month in which a time lies.
pub fn month_of(millis: u64) -> (index: Option<u32>)
    ensures
        index == month_of_time(millis),
{
    if millis > 0x7FFF_FFFF_FFFF_FFFF {
        return None;
    }
    match (year_of(millis as i64), month0_of(millis as i64)) {
        (Some(year), Some(month0)) => month_index(year, month0),
        _ => None,
    }
}

/// The sum of the rewards, among the first `upto`, that fall in `month`.
pub open spec fn month_total(rewards: Seq<(u32, Balance)>, month: u32, upto: int) -> nat
    decreases upto,
{
    if upto <= 0 || upto > rewards.len() {
        0
    } else if rewards[upto - 1].0 == month {
        month_total(rewards, month, upto - 1) + rewards[upto - 1].1 as nat
    } else {
        month_total(rewards, month, upto - 1)
    }
}

/// Whether one of the first `upto` rewards falls in `month`.
pub open spec fn has_month(rewards: Seq<(u32, Balance)>, month: u32, upto: int) -> bool {
    exists|i: int| 0 <= i < upto && i < rewards.len() && (#[trigger] rewards[i]).0 == month
}

/// Whether the rewards of some month do not fit 128 bits.
pub open spec fn overflows(rewards: Seq<(u32, Balance)>) -> bool {
    exists|month: u32| #[trigger] month_total(rewards, month, rewards.len() as int) > u128::MAX
}

/// Whether `first` and `last` are the earliest and the latest month of the rewards.
pub open spec fn spans(rewards: Seq<(u32, Balance)>, first: u32, last: u32) -> bool {
    &&& has_month(rewards, first, rewards.len() as int)
    &&& has_month(rewards, last, rewards.len() as int)
    &&& forall|i: int| 0 <= i < rewards.len() ==> first <= (#[trigger] rewards[i]).0 <= last
}

proof fn lemma_month_total_grows(rewards: Seq<(u32, Balance)>, month: u32, at: int, upto: int)
    requires
        0 <= at <= upto <= rewards.len(),
    ensures
        month_total(rewards, month, at) <= month_total(rewards, month, upto),
    decreases upto - at,
{
    if at < upto {
        lemma_month_total_grows(rewards, month, at, upto - 1);
    }
}

proof fn lemma_month_without_rewards(rewards: Seq<(u32, Balance)>, month: u32, upto: int)
    requires
        0 <= upto <= rewards.len(),
        !has_month(rewards, month, upto),
    ensures
        month_total(rewards, month, upto) == 0,
    decreases upto,
{
    if upto > 0 {
        assert(rewards[upto - 1].0 != month);
        assert(!has_month(rewards, month, upto - 1)) by {
            if has_month(rewards, month, upto - 1) {
                let i = choose|i: int| 0 <= i < upto - 1 && i < rewards.len() && (
                #[trigger] rewards[i]).0 == month;
                assert(rewards[i].0 == month);
            }
        }
        lemma_month_without_rewards(rewards, month, upto - 1);
    }
}

/// The rewards month by month, from rewards with the months they fall in: every
/// month from the earliest to the latest has the sum of its rewards, which is 0
/// for a month without any. There must be a reward, and the sum of every month
/// must fit 128 bits.
pub fn monthly_rewards(rewards: &Vec<(u32, Balance)>) -> (result: Result<
    HashMap<u32, Balance>,
    PlotterError,
>)
    ensures
        rewards@.len() == 0 ==> result == Err::<HashMap<u32, Balance>, PlotterError>(
            PlotterError::EmptyData,
        ),
        rewards@.len() > 0 && overflows(rewards@) ==> result == Err::<
            HashMap<u32, Balance>,
            PlotterError,
        >(PlotterError::Overflow),
        rewards@.len() > 0 && !overflows(rewards@) ==> (result matches Ok(months) && exists|
            first: u32,
            last: u32,
        |
            #![trigger spans(rewards@, first, last)]
            {
                &&& spans(rewards@, first, last)
                &&& forall|month: u32| #[trigger]
                    months@.contains_key(month) <==> first <= month <= last
                &&& forall|month: u32|
                    first <= month <= last ==> #[trigger] months@[month] == month_total(
                        rewards@,
                        month,
                        rewards@.len() as int,
                    )
            }),
{
    if rewards.len() == 0 {
        return Err(PlotterError::EmptyData);
    }
    let mut months: HashMap<u32, Balance> = HashMap::new();
    let mut first: u32 = rewards[0].0;
    let mut last: u32 = rewards[0].0;
    let mut i: usize = 0;
    while i < rewards.len()
        invariant
            i <= rewards@.len(),
            rewards@.len() > 0,
            i == 0 ==> first == rewards@[0].0 && last == rewards@[0].0,
            i > 0 ==> has_month(rewards@, first, i as int) && has_month(rewards@, last, i as int),
            forall|j: int| 0 <= j < i ==> first <= (#[trigger] rewards@[j]).0 <= last,
            forall|month: u32| #[trigger] months@.contains_key(month) <==> has_month(rewards@, month, i as int),
            forall|month: u32|
                months@.contains_key(month) ==> #[trigger] months@[month] == month_total(
                    rewards@,
                    month,
                    i as int,
                ),
        decreases rewards@.len() - i,
    {
        let month = rewards[i].0;
        let reward = rewards[i].1;
        let ghost before = months@;
        let held: Balance = match months.get(&month) {
            Some(total) => *total,
            None => {
                proof {
                    lemma_month_without_rewards(rewards@, month, i as int);
                }
                0
            },
        };
        let total = match held.checked_add(reward) {
            Some(total) => total,
            None => {
                proof {
                    lemma_month_total_grows(rewards@, month, i + 1, rewards@.len() as int);
                    assert(month_total(rewards@, month, rewards@.len() as int) > u128::MAX);
                }
                return Err(PlotterError::Overflow);
            },
        };
        months.insert(month, total);
        if month < first {
            first = month;
        }
        if month > last {
            last = month;
        }
        proof {
            assert forall|m: u32| #[trigger] months@.contains_key(m) <==> has_month(rewards@, m, i + 1) by {
                if has_month(rewards@, m, i + 1) {
                    let j = choose|j: int| 0 <= j < i + 1 && j < rewards@.len() && (
                    #[trigger] rewards@[j]).0 == m;
                    if j < i {
                        assert(has_month(rewards@, m, i as int));
                    }
                }
                if before.contains_key(m) {
                    let j = choose|j: int| 0 <= j < i && j < rewards@.len() && (
                    #[trigger] rewards@[j]).0 == m;
                    assert(rewards@[j].0 == m);
                }
                if m == month {
                    assert(rewards@[i as int].0 == m);
                }
            }
            assert(has_month(rewards@, first, i + 1)) by {
                if first == month {
                    assert(rewards@[i as int].0 == first);
                } else if i == 0 {
                    assert(rewards@[0].0 == first);
                } else {
                    let j = choose|j: int| 0 <= j < i && j < rewards@.len() && (
                    #[trigger] rewards@[j]).0 == first;
                    assert(rewards@[j].0 == first);
                }
            }
            assert(has_month(rewards@, last, i + 1)) by {
                if last == month {
                    assert(rewards@[i as int].0 == last);
                } else if i == 0 {
                    assert(rewards@[0].0 == last);
                } else {
                    let j = choose|j: int| 0 <= j < i && j < rewards@.len() && (
                    #[trigger] rewards@[j]).0 == last;
                    assert(rewards@[j].0 == last);
                }
            }
        }
        i += 1;
    }
    let ghost gathered = months@;
    let mut month: u32 = first;
    loop
        invariant
            first <= month <= last,
            rewards@.len() > 0,
            spans(rewards@, first, last),
            forall|m: u32| gathered.contains_key(m) <==> has_month(rewards@, m, rewards@.len() as int),
            forall|m: u32|
                gathered.contains_key(m) ==> #[trigger] gathered[m] == month_total(
                    rewards@,
                    m,
                    rewards@.len() as int,
                ),
            forall|m: u32| #[trigger]
                months@.contains_key(m) <==> gathered.contains_key(m) || first <= m < month,
            forall|m: u32|
                months@.contains_key(m) ==> #[trigger] months@[m] == month_total(
                    rewards@,
                    m,
                    rewards@.len() as int,
                ),
        ensures
            spans(rewards@, first, last),
            forall|m: u32| #[trigger] months@.contains_key(m) <==> first <= m <= last,
            forall|m: u32|
                first <= m <= last ==> #[trigger] months@[m] == month_total(
                    rewards@,
                    m,
                    rewards@.len() as int,
                ),
        decreases last - month,
    {
        if months.get(&month).is_none() {
            proof {
                lemma_month_without_rewards(rewards@, month, rewards@.len() as int);
            }
            months.insert(month, 0);
        }
        if month == last {
            proof {
                assert forall|m: u32| #[trigger] months@.contains_key(m) <==> first <= m <= last by {
                    if gathered.contains_key(m) {
                        let j = choose|j: int| 0 <= j < rewards@.len() && j < rewards@.len() && (
                        #[trigger] rewards@[j]).0 == m;
                        assert(first <= rewards@[j].0 <= last);
                    }
                }
            }
            break ;
        }
        month += 1;
    }
    proof {
        assert(!overflows(rewards@)) by {
            if overflows(rewards@) {
                let m = choose|m: u32| #[trigger] month_total(rewards@, m, rewards@.len() as int) > u128::MAX;
                if gathered.contains_key(m) {
                    assert(gathered[m] == month_total(rewards@, m, rewards@.len() as int));
                } else {
                    lemma_month_without_rewards(rewards@, m, rewards@.len() as int);
                }
            }
        }
    }
    Ok(months)
}

/// The months in which the first `upto` eras start, with their rewards; none if
/// the start of one of them has no month.
pub open spec fn months_of(rewards: Seq<(Era, Balance)>, upto: int) -> Option<Seq<(u32, Balance)>>
    decreases upto,
{
    if upto <= 0 || upto > rewards.len() {
        Some(Seq::empty())
    } else {
        match (months_of(rewards, upto - 1), month_of_time(rewards[upto - 1].0.start_timestamp)) {
            (Some(before), Some(month)) => Some(before.push((month, rewards[upto - 1].1))),
            _ => None,
        }
    }
}

proof fn lemma_months_of_stays_none(rewards: Seq<(Era, Balance)>, at: int, upto: int)
    requires
        0 <= at <= upto <= rewards.len(),
        months_of(rewards, at) is None,
    ensures
        months_of(rewards, upto) is None,
    decreases upto - at,
{
    if at < upto {
        lemma_months_of_stays_none(rewards, at, upto - 1);
    }
}

/// The months in which eras start, with the rewards of the eras.
pub fn reward_months(rewards: &Vec<(Era, Balance)>) -> (months: Option<Vec<(u32, Balance)>>)
    ensures
        match months_of(rewards@, rewards@.len() as int) {
            Some(expected) => months matches Some(found) && found@ == expected,
            None => months is None,
        },
{
    let mut months: Vec<(u32, Balance)> = Vec::new();
    let mut i: usize = 0;
    while i < rewards.len()
        invariant
            i <= rewards@.len(),
            months_of(rewards@, i as int) == Some(months@),
        decreases rewards@.len() - i,
    {
        match month_of(rewards[i].0.start_timestamp) {
            Some(month) => {
                months.push((month, rewards[i].1));
            },
            None => {
                proof {
                    lemma_months_of_stays_none(rewards@, i + 1, rewards@.len() as int);
                }
                return None;
            },
        }
        i += 1;
    }
    Some(months)
}

/// The rewards of eras month by month, each era counted in the month in which
/// it starts: see [`monthly_rewards`].
pub fn get_monthly_rewards(rewards: &Vec<(Era, Balance)>) -> (result: Result<
    HashMap<u32, Balance>,
    PlotterError,
>)
    ensures
        rewards@.len() == 0 ==> result == Err::<HashMap<u32, Balance>, PlotterError>(
            PlotterError::EmptyData,
        ),
        rewards@.len() > 0 ==> match months_of(rewards@, rewards@.len() as int) {
            None => result == Err::<HashMap<u32, Balance>, PlotterError>(PlotterError::InvalidDate),
            Some(months) => if overflows(months) {
                result == Err::<HashMap<u32, Balance>, PlotterError>(PlotterError::Overflow)
            } else {
                result matches Ok(by_month) && exists|first: u32, last: u32|
                    #![trigger spans(months, first, last)]
                    {
                        &&& spans(months, first, last)
                        &&& forall|month: u32| #[trigger]
                            by_month@.contains_key(month) <==> first <= month <= last
                        &&& forall|month: u32|
                            first <= month <= last ==> #[trigger] by_month@[month] == month_total(
                                months,
                                month,
                                months.len() as int,
                            )
                    }
            },
        },
{
    if rewards.len() == 0 {
        return Err(PlotterError::EmptyData);
    }
    match reward_months(rewards) {
        Some(months) => {
            proof {
                lemma_months_of_len(rewards@, rewards@.len() as int);
            }
            monthly_rewards(&months)
        },
        None => Err(PlotterError::InvalidDate),
    }
}

proof fn lemma_months_of_len(rewards: Seq<(Era, Balance)>, upto: int)
    requires
        0 <= upto <= rewards.len(),
        months_of(rewards, upto) is Some,
    ensures
        months_of(rewards, upto)->Some_0.len() == upto,
    decreases upto,
{
    if upto > 0 {
        lemma_months_of_len(rewards, upto - 1);
    }
}

} // verus!
