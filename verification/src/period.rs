//! The period processor: at the top of each hour, and at noon each day, the
//! notifications that have gathered for rules of that period are put together,
//! rule by rule, and made ready to be sent.
use crate::notification::{Notification, NotificationPeriodType};
use vstd::prelude::*;

verus! {

/// A tick of the period processor: the hour of the day that begins, or the day
/// of the month whose noon it is.
#[derive(Clone, Copy, Debug, PartialEq, Eq, Structural)]
pub enum Tick {
    Hour(u32),
    Day(u32),
}

/// The ticks at a time of day: the hour's at its first second, and the day's at
/// the first second of noon.
pub fn ticks_at(day: u32, hour: u32, minute: u32, second: u32) -> (ticks: Vec<Tick>)
    ensures
        ticks@ == if minute != 0 || second != 0 {
            Seq::<Tick>::empty()
        } else if hour == 12 {
            seq![Tick::Hour(hour), Tick::Day(day)]
        } else {
            seq![Tick::Hour(hour)]
        },
{
    let mut ticks: Vec<Tick> = Vec::new();
    if minute == 0 && second == 0 {
        ticks.push(Tick::Hour(hour));
        if hour == 12 {
            ticks.push(Tick::Day(day));
        }
    }
    ticks
}

/// Whether a notification is due at a tick: its rule has the tick's period type,
/// and the number of its period divides the hour or the day of the tick.
pub open spec fn is_due(notification: Notification, tick: Tick) -> bool {
    match tick {
        Tick::Hour(hour) => notification.period_type is Hour && notification.period > 0 && hour
            % (notification.period as u32) == 0,
        Tick::Day(day) => notification.period_type is Day && notification.period > 0 && day % (
        notification.period as u32) == 0,
    }
}

/// Whether a notification is due at a tick.
pub fn due(notification: &Notification, tick: Tick) -> (yes: bool)
    ensures
        yes == is_due(*notification, tick),
{
    if notification.period == 0 {
        return false;
    }
    match tick {
        Tick::Hour(hour) => matches!(notification.period_type, NotificationPeriodType::Hour) && hour
            % (notification.period as u32) == 0,
        Tick::Day(day) => matches!(notification.period_type, NotificationPeriodType::Day) && day % (
        notification.period as u32) == 0,
    }
}

/// The rule that a notification was queued for, with its user.
pub open spec fn group_key(notification: Notification) -> (u32, u32) {
    (notification.user_id, notification.user_notification_rule_id)
}

/// The positions, among the first `upto` pending notifications, of those that are
/// due at `tick` and were queued for the rule `key`.
pub open spec fn members(pending: Seq<Notification>, tick: Tick, key: (u32, u32), upto: int) -> Seq<
    usize,
>
    decreases upto,
{
    if upto <= 0 || upto > pending.len() {
        Seq::empty()
    } else {
        let before = members(pending, tick, key, upto - 1);
        if is_due(pending[upto - 1], tick) && group_key(pending[upto - 1]) == key {
            before.push((upto - 1) as usize)
        } else {
            before
        }
    }
}

/// The rules for which one of the first `upto` pending notifications is due at
/// `tick`, each once, in the order in which they first occur.
pub open spec fn due_keys(pending: Seq<Notification>, tick: Tick, upto: int) -> Seq<(u32, u32)>
    decreases upto,
{
    if upto <= 0 || upto > pending.len() {
        Seq::empty()
    } else {
        let before = due_keys(pending, tick, upto - 1);
        if is_due(pending[upto - 1], tick) && !before.contains(group_key(pending[upto - 1])) {
            before.push(group_key(pending[upto - 1]))
        } else {
            before
        }
    }
}

/// The notifications of one rule that go out together.
#[derive(Debug)]
pub struct NotificationGroup {
    pub user_id: u32,
    pub user_notification_rule_id: u32,
    /// Where the notifications are among the pending ones, in their order.
    pub positions: Vec<usize>,
}

/// Whether `groups` put together the first `upto` pending notifications that are
/// due at `tick`: one group for each rule that has any, in the order in which
/// the rules first occur, with all that are due for the rule and nothing else.
pub open spec fn coalesced(groups: Seq<NotificationGroup>, pending: Seq<Notification>, tick: Tick, upto: int) -> bool {
    &&& groups.len() == due_keys(pending, tick, upto).len()
    &&& forall|g: int|
        0 <= g < groups.len() ==> {
            &&& ((#[trigger] groups[g]).user_id, groups[g].user_notification_rule_id) == due_keys(
                pending,
                tick,
                upto,
            )[g]
            &&& groups[g].positions@ == members(
                pending,
                tick,
                due_keys(pending, tick, upto)[g],
                upto,
            )
        }
}

/// Position of the group of the rule `key`, if there is one.
fn find_group(groups: &Vec<NotificationGroup>, key: (u32, u32)) -> (position: Option<usize>)
    ensures
        match position {
            Some(g) => g < groups@.len() && (groups@[g as int].user_id, groups@[g as int].user_notification_rule_id)
                == key,
            None => forall|g: int|
                0 <= g < groups@.len() ==> ((#[trigger] groups@[g]).user_id, groups@[g].user_notification_rule_id)
                    != key,
        },
{
    let mut g: usize = 0;
    while g < groups.len()
        invariant
            g <= groups@.len(),
            forall|h: int|
                0 <= h < g ==> ((#[trigger] groups@[h]).user_id, groups@[h].user_notification_rule_id)
                    != key,
        decreases groups@.len() - g,
    {
        if groups[g].user_id == key.0 && groups[g].user_notification_rule_id == key.1 {
            return Some(g);
        }
        g += 1;
    }
    None
}

proof fn lemma_due_keys_distinct(pending: Seq<Notification>, tick: Tick, upto: int)
    requires
        0 <= upto <= pending.len(),
    ensures
        forall|a: int, b: int|
            0 <= a < b < due_keys(pending, tick, upto).len() ==> due_keys(pending, tick, upto)[a]
                != due_keys(pending, tick, upto)[b],
    decreases upto,
{
    if upto > 0 {
        lemma_due_keys_distinct(pending, tick, upto - 1);
        let before = due_keys(pending, tick, upto - 1);
        let now = due_keys(pending, tick, upto);
        assert forall|a: int, b: int| 0 <= a < b < now.len() implies now[a] != now[b] by {
            if b < before.len() {
                assert(now[a] == before[a]);
                assert(now[b] == before[b]);
            } else {
                assert(now[a] == before[a]);
                assert(before.contains(before[a]));
            }
        }
    }
}

/// Puts together the pending notifications that are due at `tick`, rule by rule.
pub fn coalesce(pending: &Vec<Notification>, tick: Tick) -> (groups: Vec<NotificationGroup>)
    ensures
        coalesced(groups@, pending@, tick, pending@.len() as int),
{
    let mut groups: Vec<NotificationGroup> = Vec::new();
    let mut i: usize = 0;
    while i < pending.len()
        invariant
            i <= pending@.len(),
            coalesced(groups@, pending@, tick, i as int),
        decreases pending@.len() - i,
    {
        let ghost before = groups@;
        let ghost keys = due_keys(pending@, tick, i as int);
        proof {
            lemma_due_keys_distinct(pending@, tick, i as int);
        }
        if due(&pending[i], tick) {
            let key = (pending[i].user_id, pending[i].user_notification_rule_id);
            match find_group(&groups, key) {
                Some(g) => {
                    assert(keys[g as int] == key);
                    assert(keys.contains(key));
                    groups[g].positions.push(i);
                    assert forall|h: int| 0 <= h < groups@.len() implies {
                        &&& ((#[trigger] groups@[h]).user_id, groups@[h].user_notification_rule_id)
                            == due_keys(pending@, tick, i + 1)[h]
                        &&& groups@[h].positions@ == members(
                            pending@,
                            tick,
                            due_keys(pending@, tick, i + 1)[h],
                            i + 1,
                        )
                    } by {
                        if h != g {
                            assert(groups@[h] == before[h]);
                            assert(keys[h] != keys[g as int]);
                        }
                    }
                },
                None => {
                    assert(!keys.contains(key)) by {
                        if keys.contains(key) {
                            let g = choose|g: int| 0 <= g < keys.len() && keys[g] == key;
                            assert((before[g].user_id, before[g].user_notification_rule_id) == key);
                        }
                    }
                    let mut positions: Vec<usize> = Vec::new();
                    positions.push(i);
                    proof {
                        lemma_no_members_before(pending@, tick, key, i as int);
                    }
                    groups.push(
                        NotificationGroup {
                            user_id: key.0,
                            user_notification_rule_id: key.1,
                            positions,
                        },
                    );
                    assert forall|h: int| 0 <= h < groups@.len() implies {
                        &&& ((#[trigger] groups@[h]).user_id, groups@[h].user_notification_rule_id)
                            == due_keys(pending@, tick, i + 1)[h]
                        &&& groups@[h].positions@ == members(
                            pending@,
                            tick,
                            due_keys(pending@, tick, i + 1)[h],
                            i + 1,
                        )
                    } by {
                        if h < before.len() {
                            assert(groups@[h] == before[h]);
                            assert(keys[h] != key) by {
                                if keys[h] == key {
                                    assert(keys.contains(key));
                                }
                            }
                        } else {
                            assert(groups@[h].positions@ =~= members(pending@, tick, key, i + 1));
                        }
                    }
                },
            }
        }
        i += 1;
    }
    groups
}

/// A rule that is not among the rules that have something due has nothing due.
proof fn lemma_no_members_before(pending: Seq<Notification>, tick: Tick, key: (u32, u32), upto: int)
    requires
        0 <= upto <= pending.len(),
        !due_keys(pending, tick, upto).contains(key),
    ensures
        members(pending, tick, key, upto) == Seq::<usize>::empty(),
    decreases upto,
{
    if upto > 0 {
        let before = due_keys(pending, tick, upto - 1);
        let now = due_keys(pending, tick, upto);
        assert(!before.contains(key)) by {
            if before.contains(key) {
                let g = choose|g: int| 0 <= g < before.len() && before[g] == key;
                assert(now[g] == key);
            }
        }
        lemma_no_members_before(pending, tick, key, upto - 1);
        if is_due(pending[upto - 1], tick) && group_key(pending[upto - 1]) == key {
            if before.contains(key) {
            } else {
                assert(now[before.len() as int] == key);
            }
        }
    }
}

} // verus!
