//! The cursor of the notification generator: the last block it has inspected,
//! and how it catches up when it learns of a later one.
use vstd::prelude::*;

verus! {

/// The block to inspect next when the block `target` is known to be processed:
/// the one after the cursor, or `target` itself where nothing was inspected yet;
/// none once the cursor has reached `target`.
pub open spec fn next_block(cursor: Option<u64>, target: u64) -> Option<u64> {
    match cursor {
        Some(last) => if last < target {
            Some((last + 1) as u64)
        } else {
            None
        },
        None => Some(target),
    }
}

/// The cursor after the blocks up to `target` have been tried in turn, with the
/// outcomes `outcomes[from..]` in that order: it moves on with each success and
/// stays where the first failure, or the end of the outcomes, leaves it.
pub open spec fn caught_up(cursor: Option<u64>, target: u64, outcomes: Seq<bool>, from: int) -> Option<
    u64,
>
    decreases outcomes.len() - from,
{
    match next_block(cursor, target) {
        None => cursor,
        Some(block) => if from < 0 || from >= outcomes.len() || !outcomes[from] {
            cursor
        } else {
            caught_up(Some(block), target, outcomes, from + 1)
        },
    }
}

/// The last block that the notification generator has inspected.
#[derive(Clone, Copy, Debug, PartialEq, Eq, Structural)]
pub struct Cursor {
    pub last_processed_block_number: Option<u64>,
}

impl Cursor {
    /// The cursor that the persisted state gives, if there is one.
    pub fn new(last_processed_block_number: Option<u64>) -> (cursor: Cursor)
        ensures
            cursor.last_processed_block_number == last_processed_block_number,
    {
        Cursor { last_processed_block_number }
    }

    /// The block to inspect next, if any, once `target` is known to be processed.
    pub fn next(&self, target: u64) -> (block: Option<u64>)
        ensures
            block == next_block(self.last_processed_block_number, target),
    {
        match self.last_processed_block_number {
            Some(last) => if last < target {
                Some(last + 1)
            } else {
                None
            },
            None => Some(target),
        }
    }

    /// Moves the cursor to a block that was inspected with success.
    pub fn advance(&mut self, block: u64)
        ensures
            final(self).last_processed_block_number == Some(block),
    {
        self.last_processed_block_number = Some(block);
    }

    /// Catches up to `target` given the outcomes of the inspections in the order
    /// in which they are made: the cursor moves on with each success; at the first
    /// failure it stays and the blocks that remain are left for the next time.
    /// Tells how many blocks were inspected with success.
    pub fn on_new_block(&mut self, target: u64, outcomes: &Vec<bool>) -> (inspected: usize)
        ensures
            final(self).last_processed_block_number == caught_up(
                old(self).last_processed_block_number,
                target,
                outcomes@,
                0,
            ),
            inspected <= outcomes@.len(),
            forall|i: int| 0 <= i < inspected ==> outcomes@[i],
    {
        let mut i: usize = 0;
        loop
            invariant
                i <= outcomes@.len(),
                forall|j: int| 0 <= j < i ==> outcomes@[j],
                caught_up(old(self).last_processed_block_number, target, outcomes@, 0) == caught_up(
                    self.last_processed_block_number,
                    target,
                    outcomes@,
                    i as int,
                ),
            ensures
                self.last_processed_block_number == caught_up(
                    old(self).last_processed_block_number,
                    target,
                    outcomes@,
                    0,
                ),
                i <= outcomes@.len(),
                forall|j: int| 0 <= j < i ==> outcomes@[j],
            decreases outcomes@.len() - i,
        {
            match self.next(target) {
                None => {
                    break ;
                },
                Some(block) => {
                    if i >= outcomes.len() || !outcomes[i] {
                        break ;
                    }
                    self.advance(block);
                    i += 1;
                },
            }
        }
        i
    }
}

/// The block that the first inspection is made of.
pub open spec fn first_block(cursor: Option<u64>, target: u64) -> int {
    match cursor {
        Some(last) => last + 1,
        None => target as int,
    }
}

/// Where every inspection succeeds, the cursor ends on the target.
pub proof fn lemma_cursor_reaches_target(cursor: Option<u64>, target: u64, outcomes: Seq<bool>, from: int)
    requires
        0 <= from <= outcomes.len(),
        first_block(cursor, target) <= target,
        outcomes.len() - from >= target - first_block(cursor, target) + 1,
        forall|i: int| from <= i < outcomes.len() ==> outcomes[i],
    ensures
        caught_up(cursor, target, outcomes, from) == Some(target),
    decreases outcomes.len() - from,
{
    let block = next_block(cursor, target)->Some_0;
    if block < target {
        lemma_cursor_reaches_target(Some(block), target, outcomes, from + 1);
    } else {
        assert(caught_up(Some(block), target, outcomes, from + 1) == Some(block));
    }
}

/// Where the inspection of block `failed` fails after those before it succeeded,
/// the cursor stays on the block before `failed`, and the next notification
/// starts again from `failed`.
pub proof fn lemma_cursor_stops_at_failure(
    cursor: Option<u64>,
    target: u64,
    outcomes: Seq<bool>,
    from: int,
    failed: u64,
)
    requires
        0 <= from,
        first_block(cursor, target) <= failed <= target,
        from + (failed - first_block(cursor, target)) < outcomes.len(),
        !outcomes[from + (failed - first_block(cursor, target))],
        forall|i: int| from <= i < from + (failed - first_block(cursor, target)) ==> outcomes[i],
    ensures
        failed == first_block(cursor, target) ==> caught_up(cursor, target, outcomes, from) == cursor,
        failed > first_block(cursor, target) ==> caught_up(cursor, target, outcomes, from) == Some(
            (failed - 1) as u64,
        ),
        cursor is Some ==> caught_up(cursor, target, outcomes, from) == Some((failed - 1) as u64),
        forall|later: u64|
            later >= target && cursor is Some ==> next_block(
                caught_up(cursor, target, outcomes, from),
                later,
            ) == Some(failed),
    decreases outcomes.len() - from,
{
    let block = next_block(cursor, target)->Some_0;
    if failed > first_block(cursor, target) {
        assert(outcomes[from]);
        lemma_cursor_stops_at_failure(Some(block), target, outcomes, from + 1, failed);
    }
}

} // verus!
