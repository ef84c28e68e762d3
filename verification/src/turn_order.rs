//! The order in which participants take turns.
//!
//! Participants sit round a table. `active[i]` says whether the one in seat `i` takes turns.

use vstd::prelude::*;

verus! {

/// The seat that is `step` seats after `start` round a table of `size` seats.
pub open spec fn seat(start: int, step: int, size: int) -> int {
    if start + step < size {
        start + step
    } else {
        start + step - size
    }
}

/// The seat after a seat.
pub fn next_seat(index: usize, size: usize) -> (next: usize)
    requires
        index < size,
    ensures
        next == seat(index as int, 1, size as int),
        next < size,
{
    proof {
        if index + 1 < size {
            vstd::arithmetic::div_mod::lemma_small_mod((index + 1) as nat, size as nat);
        } else {
            vstd::arithmetic::div_mod::lemma_mod_self_0(size as int);
        }
    }
    (index + 1) % size
}

/// The first active seat at `start` or after it, round the table, when the first `step` seats are
/// passed over.
pub open spec fn first_active_from(active: Seq<bool>, start: int, step: int) -> Option<int>
    decreases active.len() - step,
{
    if step >= active.len() {
        None
    } else if active[seat(start, step, active.len() as int)] {
        Some(seat(start, step, active.len() as int))
    } else {
        first_active_from(active, start, step + 1)
    }
}

/// The first active seat at `start` or after it, round the table.
pub open spec fn first_active(active: Seq<bool>, start: int) -> Option<int> {
    first_active_from(active, start, 0)
}

/// The seat whose turn comes after the one of `current`: the next active seat, or the next seat
/// where none is active.
pub open spec fn next_turn(active: Seq<bool>, current: int) -> int {
    let start = seat(current, 1, active.len() as int);
    match first_active(active, start) {
        Some(found) => found,
        None => start,
    }
}

/// The seat whose turn it is when the turn has passed on `turns` times.
pub open spec fn after_turns(active: Seq<bool>, current: int, turns: nat) -> int
    decreases turns,
{
    if turns == 0 {
        current
    } else {
        next_turn(active, after_turns(active, current, (turns - 1) as nat))
    }
}

/// How many seats are active.
pub open spec fn count_active(active: Seq<bool>) -> nat
    decreases active.len(),
{
    if active.len() == 0 {
        0
    } else {
        count_active(active.drop_last()) + if active.last() {
            1nat
        } else {
            0nat
        }
    }
}

/// How many of the first `steps` seats after `start` are active.
pub open spec fn active_within(active: Seq<bool>, start: int, steps: int) -> nat
    decreases steps,
{
    if steps <= 0 {
        0
    } else {
        active_within(active, start, steps - 1) + if active[seat(
            start,
            steps,
            active.len() as int,
        )] {
            1nat
        } else {
            0nat
        }
    }
}

/// What `first_active_from` finds is the first active seat among those not passed over.
pub proof fn lemma_first_active_from(active: Seq<bool>, start: int, step: int)
    requires
        0 <= start < active.len(),
        0 <= step <= active.len(),
    ensures
        match first_active_from(active, start, step) {
            Some(found) => exists|k: int|
                #![trigger seat(start, k, active.len() as int)]
                {
                    &&& step <= k < active.len()
                    &&& found == seat(start, k, active.len() as int)
                    &&& active[found]
                    &&& forall|j: int|
                        step <= j < k ==> !active[#[trigger] seat(start, j, active.len() as int)]
                },
            None => forall|j: int|
                step <= j < active.len() ==> !active[#[trigger] seat(
                    start,
                    j,
                    active.len() as int,
                )],
        },
    decreases active.len() - step,
{
    let size = active.len() as int;
    if step < active.len() && !active[seat(start, step, size)] {
        lemma_first_active_from(active, start, step + 1);
        if let Some(found) = first_active_from(active, start, step + 1) {
            let k = choose|k: int|
                #![trigger seat(start, k, size)]
                {
                    &&& step + 1 <= k < size
                    &&& found == seat(start, k, size)
                    &&& active[found]
                    &&& forall|j: int| step + 1 <= j < k ==> !active[#[trigger] seat(start, j, size)]
                };
            assert(forall|j: int| step <= j < k ==> !active[#[trigger] seat(start, j, size)]);
        }
    }
}

/// The first active seat is known by its being active and those before it not.
pub proof fn lemma_first_active_is(active: Seq<bool>, start: int, step: int)
    requires
        0 <= start < active.len(),
        0 <= step < active.len(),
        active[seat(start, step, active.len() as int)],
        forall|j: int|
            0 <= j < step ==> !active[#[trigger] seat(start, j, active.len() as int)],
    ensures
        first_active(active, start) == Some(seat(start, step, active.len() as int)),
{
    lemma_first_active_from(active, start, 0);
}

/// Whether `step` is how far the turn moves on from `current`: to the nearest active seat after
/// it, or by one seat where none is active.
pub open spec fn is_turn_step(active: Seq<bool>, current: int, step: int) -> bool {
    let size = active.len() as int;
    &&& 1 <= step <= size
    &&& forall|j: int| 1 <= j < step ==> !active[#[trigger] seat(current, j, size)]
    &&& active[seat(current, step, size)] || (step == 1 && forall|i: int|
        0 <= i < size ==> !#[trigger] active[i])
}

/// The turn passes to the nearest active participant after the current one, round the table:
/// nobody active is skipped. Where nobody is active it moves on by one seat.
pub proof fn law_turn_passes_to_nearest_active(active: Seq<bool>, current: int)
    requires
        0 <= current < active.len(),
    ensures
        0 <= next_turn(active, current) < active.len(),
        exists|step: int|
            #![trigger seat(current, step, active.len() as int)]
            is_turn_step(active, current, step) && next_turn(active, current) == seat(
                current,
                step,
                active.len() as int,
            ),
{
    let size = active.len() as int;
    let start = seat(current, 1, size);
    lemma_first_active_from(active, start, 0);
    assert forall|k: int| 0 <= k < size implies #[trigger] seat(start, k, size) == seat(
        current,
        k + 1,
        size,
    ) by {}
    match first_active(active, start) {
        Some(found) => {
            let k = choose|k: int|
                #![trigger seat(start, k, size)]
                {
                    &&& 0 <= k < size
                    &&& found == seat(start, k, size)
                    &&& active[found]
                    &&& forall|j: int| 0 <= j < k ==> !active[#[trigger] seat(start, j, size)]
                };
            assert(found == seat(current, k + 1, size));
            assert forall|j: int| 1 <= j < k + 1 implies !active[#[trigger] seat(
                current,
                j,
                size,
            )] by {
                assert(!active[seat(start, j - 1, size)]);
            }
            assert(is_turn_step(active, current, k + 1));
        },
        None => {
            assert forall|i: int| 0 <= i < size implies !#[trigger] active[i] by {
                let k = if i >= start {
                    i - start
                } else {
                    i - start + size
                };
                assert(seat(start, k, size) == i);
            }
            assert(is_turn_step(active, current, 1));
        },
    }
}

/// Where anybody in another seat is active, the turn leaves its seat and goes to an active one.
pub proof fn law_turn_leaves_its_seat(active: Seq<bool>, current: int, other: int)
    requires
        0 <= current < active.len(),
        0 <= other < active.len(),
        other != current,
        active[other],
    ensures
        next_turn(active, current) != current,
        active[next_turn(active, current)],
{
    let size = active.len() as int;
    law_turn_passes_to_nearest_active(active, current);
    let step = choose|step: int|
        #![trigger seat(current, step, size)]
        is_turn_step(active, current, step) && next_turn(active, current) == seat(
            current,
            step,
            size,
        );
    let to_other = if other > current {
        other - current
    } else {
        other - current + size
    };
    assert(seat(current, to_other, size) == other);
}

/// The last step before `steps` that leads to an active seat, or nought.
spec fn previous_active_step(active: Seq<bool>, start: int, steps: int) -> int
    decreases steps,
{
    if steps <= 1 {
        0
    } else if active[seat(start, steps - 1, active.len() as int)] {
        steps - 1
    } else {
        previous_active_step(active, start, steps - 1)
    }
}

proof fn lemma_previous_active_step(active: Seq<bool>, start: int, steps: int)
    requires
        1 <= steps,
    ensures
        ({
            let previous = previous_active_step(active, start, steps);
            &&& 0 <= previous < steps
            &&& previous == 0 || active[seat(start, previous, active.len() as int)]
            &&& forall|j: int|
                previous < j < steps ==> !active[#[trigger] seat(start, j, active.len() as int)]
            &&& active_within(active, start, steps - 1) == active_within(active, start, previous)
        }),
    decreases steps,
{
    if steps > 1 && !active[seat(start, steps - 1, active.len() as int)] {
        lemma_previous_active_step(active, start, steps - 1);
    }
}

/// Counting along the table, the turn reaches an active seat when it has passed on once for each
/// active seat on the way, that one among them.
pub proof fn lemma_turns_to_reach(active: Seq<bool>, start: int, steps: int)
    requires
        0 <= start < active.len(),
        0 <= steps <= active.len(),
        steps == 0 || active[seat(start, steps, active.len() as int)],
    ensures
        after_turns(active, start, active_within(active, start, steps)) == seat(
            start,
            steps,
            active.len() as int,
        ),
    decreases steps,
{
    let size = active.len() as int;
    if steps > 0 {
        lemma_previous_active_step(active, start, steps);
        let previous = previous_active_step(active, start, steps);
        lemma_turns_to_reach(active, start, previous);
        let here = seat(start, previous, size);
        assert forall|j: int| 1 <= j <= steps - previous implies #[trigger] seat(here, j, size)
            == seat(start, previous + j, size) by {}
        law_turn_passes_to_nearest_active(active, here);
        let step = choose|step: int|
            #![trigger seat(here, step, size)]
            is_turn_step(active, here, step) && next_turn(active, here) == seat(here, step, size);
        assert(active[seat(here, steps - previous, size)]);
        if step < steps - previous {
            assert(!active[seat(start, previous + step, size)]);
        }
        assert(step == steps - previous);
    }
}

proof fn lemma_active_within_is_count(active: Seq<bool>, start: int, steps: int)
    requires
        0 <= start < active.len(),
        0 <= steps <= active.len(),
    ensures
        ({
            let rest = active.len() - 1 - start;
            if steps <= rest {
                active_within(active, start, steps) + count_active(active.take(start + 1))
                    == count_active(active.take(start + 1 + steps))
            } else {
                active_within(active, start, steps) + count_active(active.take(start + 1))
                    == count_active(active) + count_active(active.take(steps - rest))
            }
        }),
    decreases steps,
{
    let rest = active.len() - 1 - start;
    if steps > 0 {
        lemma_active_within_is_count(active, start, steps - 1);
        let here = seat(start, steps, active.len() as int);
        let counted = active.take(here + 1);
        assert(counted.drop_last() =~= active.take(here));
        assert(counted.last() == active[here]);
        if steps <= rest {
            assert(here + 1 == start + 1 + steps);
        } else {
            assert(here + 1 == steps - rest);
            assert(active.take(active.len() as int) =~= active);
            assert(count_active(active.take(0)) == 0);
        }
    }
}

/// Every active participant gets a turn before the turn has passed on as many times as there are
/// active participants, wherever it starts.
pub proof fn law_every_active_participant_gets_a_turn(
    active: Seq<bool>,
    current: int,
    participant: int,
)
    requires
        0 <= current < active.len(),
        0 <= participant < active.len(),
        active[participant],
    ensures
        exists|turns: nat|
            1 <= turns <= count_active(active) && #[trigger] after_turns(active, current, turns)
                == participant,
{
    let size = active.len() as int;
    let steps = if participant > current {
        participant - current
    } else {
        participant - current + size
    };
    assert(seat(current, steps, size) == participant);
    lemma_turns_to_reach(active, current, steps);
    lemma_active_within_monotone(active, current, steps, size);
    lemma_active_within_is_count(active, current, size);
    assert(after_turns(active, current, active_within(active, current, steps)) == participant);
}

proof fn lemma_active_within_monotone(active: Seq<bool>, start: int, fewer: int, more: int)
    requires
        0 <= fewer <= more,
    ensures
        active_within(active, start, fewer) <= active_within(active, start, more),
    decreases more,
{
    if fewer < more {
        lemma_active_within_monotone(active, start, fewer, more - 1);
    }
}

/// The step at which the `turns`-th active seat after `start` is reached.
proof fn lemma_step_of_turn(active: Seq<bool>, start: int, turns: nat, steps: int) -> (step: int)
    requires
        0 <= start < active.len(),
        0 <= steps <= active.len(),
        1 <= turns <= active_within(active, start, steps),
    ensures
        1 <= step <= steps,
        active[seat(start, step, active.len() as int)],
        active_within(active, start, step) == turns,
    decreases steps,
{
    if turns <= active_within(active, start, steps - 1) {
        lemma_step_of_turn(active, start, turns, steps - 1)
    } else {
        steps
    }
}

/// Nobody takes two turns within one round: while the turn passes on once for each active
/// participant, it comes to a different one each time.
pub proof fn law_one_turn_each_per_round(
    active: Seq<bool>,
    current: int,
    earlier: nat,
    later: nat,
)
    requires
        0 <= current < active.len(),
        1 <= earlier < later <= count_active(active),
    ensures
        after_turns(active, current, earlier) != after_turns(active, current, later),
        active[after_turns(active, current, later)],
{
    let size = active.len() as int;
    lemma_active_within_is_count(active, current, size);
    let first = lemma_step_of_turn(active, current, earlier, size);
    let second = lemma_step_of_turn(active, current, later, size);
    lemma_turns_to_reach(active, current, first);
    lemma_turns_to_reach(active, current, second);
}

/// Strict alternation: when the turn has passed on once for each active participant, it is back
/// at the active participant it started from.
pub proof fn law_round_returns_to_its_start(active: Seq<bool>, current: int)
    requires
        0 <= current < active.len(),
        active[current],
    ensures
        after_turns(active, current, count_active(active)) == current,
{
    let size = active.len() as int;
    assert(seat(current, size, size) == current);
    lemma_turns_to_reach(active, current, size);
    lemma_active_within_is_count(active, current, size);
}

/// Seats are counted round the table.
pub proof fn law_seats_go_round(start: int, step: int, size: int)
    requires
        0 <= start < size,
        0 <= step <= size,
    ensures
        seat(start, step, size) == (start + step) % size,
        0 <= seat(start, step, size) < size,
{
    if start + step < size {
        vstd::arithmetic::div_mod::lemma_small_mod((start + step) as nat, size as nat);
    } else {
        vstd::arithmetic::div_mod::lemma_small_mod((start + step - size) as nat, size as nat);
        vstd::arithmetic::div_mod::lemma_mod_add_multiples_vanish(start + step - size, size);
    }
}

/// The first active seat from a seat on is active, and every seat from there up to it, counted
/// round the table, is not. There is none exactly if no seat is active.
pub proof fn law_first_active_is_the_nearest(active: Seq<bool>, start: int)
    requires
        0 <= start < active.len(),
    ensures
        match first_active(active, start) {
            Some(found) => {
                &&& 0 <= found < active.len()
                &&& active[found]
                &&& forall|i: int|
                    0 <= i < active.len() && (i - start) % (active.len() as int) < (found - start)
                        % (active.len() as int) ==> !#[trigger] active[i]
            },
            None => forall|i: int| 0 <= i < active.len() ==> !#[trigger] active[i],
        },
{
    let size = active.len() as int;
    lemma_first_active_from(active, start, 0);
    match first_active(active, start) {
        Some(found) => {
            let k = choose|k: int|
                #![trigger seat(start, k, size)]
                {
                    &&& 0 <= k < size
                    &&& found == seat(start, k, size)
                    &&& active[found]
                    &&& forall|j: int| 0 <= j < k ==> !active[#[trigger] seat(start, j, size)]
                };
            lemma_distance(start, found, size);
            assert forall|i: int|
                0 <= i < size && (i - start) % size < (found - start)
                    % size implies !#[trigger] active[i] by {
                lemma_distance(start, i, size);
                assert(seat(start, (i - start) % size, size) == i);
            }
        },
        None => {
            assert forall|i: int| 0 <= i < size implies !#[trigger] active[i] by {
                lemma_distance(start, i, size);
                assert(seat(start, (i - start) % size, size) == i);
            }
        },
    }
}

/// The distance from a seat to another, round the table.
pub proof fn lemma_distance(start: int, i: int, size: int)
    requires
        0 <= start < size,
        0 <= i < size,
    ensures
        (i - start) % size == if i >= start {
            i - start
        } else {
            i - start + size
        },
{
    if i >= start {
        vstd::arithmetic::div_mod::lemma_small_mod((i - start) as nat, size as nat);
    } else {
        vstd::arithmetic::div_mod::lemma_small_mod((i - start + size) as nat, size as nat);
        vstd::arithmetic::div_mod::lemma_mod_add_multiples_vanish(i - start, size);
    }
}

/// The turn goes to an active seat if there is any, and every other seat on the way there, counted
/// round the table from the one after the current, is not active. If none is active it goes to the
/// next seat.
pub proof fn law_next_turn_is_the_nearest(active: Seq<bool>, current: int)
    requires
        0 <= current < active.len(),
    ensures
        ({
            let next = next_turn(active, current);
            let size = active.len() as int;
            &&& 0 <= next < size
            &&& (exists|i: int| 0 <= i < size && #[trigger] active[i]) ==> active[next]
            &&& forall|i: int|
                0 <= i < size && (i - current - 1) % size < (next - current - 1) % size
                    ==> !#[trigger] active[i]
            &&& (forall|i: int| 0 <= i < size ==> !#[trigger] active[i]) ==> next == (current + 1)
                % size
        }),
{
    let size = active.len() as int;
    let start = seat(current, 1, size);
    law_seats_go_round(current, 1, size);
    law_first_active_is_the_nearest(active, start);
    let next = next_turn(active, current);
    assert forall|i: int| 0 <= i < size implies #[trigger] ((i - current - 1) % size) == (i - start)
        % size by {
        if start != current + 1 {
            vstd::arithmetic::div_mod::lemma_mod_add_multiples_vanish(i - current - 1, size);
        }
    }
    assert((next - current - 1) % size == (next - start) % size);
    assert forall|i: int|
        0 <= i < size && (i - current - 1) % size < (next - current - 1)
            % size implies !#[trigger] active[i] by {
        assert((i - current - 1) % size == (i - start) % size);
        if first_active(active, start) is None {
            assert(!active[i]);
        }
    }
}

/// Counting is one at a time: a further seat counts exactly if it is active.
pub proof fn law_count_goes_seat_by_seat(active: Seq<bool>, further: bool)
    ensures
        count_active(Seq::<bool>::empty()) == 0,
        count_active(active.push(further)) == count_active(active) + if further {
            1int
        } else {
            0
        },
{
    assert(active.push(further).drop_last() =~= active);
}

/// Passing the turn on once more is passing it on from where it came to.
pub proof fn law_turns_pass_one_by_one(active: Seq<bool>, current: int, turns: nat)
    ensures
        after_turns(active, current, 0) == current,
        after_turns(active, current, turns + 1) == next_turn(
            active,
            after_turns(active, current, turns),
        ),
{
}

} // verus!
