//! The arithmetic of the scroll position.
//!
//! The position counts the rows between the bottom of the view and the newest row: 0 is
//! the live tail. It never exceeds the limit, the number of rows above the screen.

use crate::protocol::Scroll;
use vstd::prelude::*;

verus! {

/// The highest scroll position: the rows held above the visible screen.
pub open spec fn scroll_limit(total: nat, rows: nat) -> nat {
    if total >= rows {
        (total - rows) as nat
    } else {
        0
    }
}

/// The position after one scroll request.
pub open spec fn scrolled(position: nat, direction: Scroll, step: nat, limit: nat) -> nat {
    match direction {
        Scroll::Up => if position + step <= limit {
            position + step
        } else {
            limit
        },
        Scroll::Down => if position < step {
            0
        } else {
            (position - step) as nat
        },
        Scroll::Cancel => 0,
    }
}

/// The position after the same request was made `times` times.
pub open spec fn scrolled_times(position: nat, direction: Scroll, times: nat, step: nat, limit: nat) -> nat
    decreases times,
{
    if times == 0 {
        position
    } else {
        scrolled(scrolled_times(position, direction, (times - 1) as nat, step, limit), direction, step, limit)
    }
}

/// Computes `scroll_limit`.
pub fn limit_of(total: usize, rows: usize) -> (limit: usize)
    ensures
        limit == scroll_limit(total as nat, rows as nat),
{
    if total >= rows {
        total - rows
    } else {
        0
    }
}

/// Computes `scrolled`: up by a step but not past the limit, down by a step but not
/// below zero, or back to zero.
pub fn scroll(position: usize, direction: Scroll, step: usize, limit: usize) -> (next: usize)
    ensures
        next == scrolled(position as nat, direction, step as nat, limit as nat),
{
    match direction {
        Scroll::Up => {
            if position >= limit {
                limit
            } else if step >= limit - position {
                limit
            } else {
                position + step
            }
        },
        Scroll::Down => {
            if position < step {
                0
            } else {
                position - step
            }
        },
        Scroll::Cancel => 0,
    }
}

/// One request, whatever its direction, leaves the position within the limit.
pub proof fn lemma_scrolled_within_limit(position: nat, direction: Scroll, step: nat, limit: nat)
    requires
        position <= limit,
    ensures
        scrolled(position, direction, step, limit) <= limit,
{
}

/// However often the view is scrolled up, the position never exceeds the limit, and
/// once it is at the limit it stays there.
pub proof fn lemma_up_stops_at_limit(position: nat, times: nat, step: nat, limit: nat)
    requires
        position <= limit,
    ensures
        scrolled_times(position, Scroll::Up, times, step, limit) <= limit,
        position == limit ==> scrolled_times(position, Scroll::Up, times, step, limit) == limit,
    decreases times,
{
    if times > 0 {
        lemma_up_stops_at_limit(position, (times - 1) as nat, step, limit);
    }
}

/// Scrolling up `times` times adds `times` steps, cut off at the limit.
pub proof fn lemma_up_adds_steps(position: nat, times: nat, step: nat, limit: nat)
    requires
        position <= limit,
    ensures
        scrolled_times(position, Scroll::Up, times, step, limit) == if position + times * step <= limit {
            position + times * step
        } else {
            limit
        },
    decreases times,
{
    if times > 0 {
        lemma_up_adds_steps(position, (times - 1) as nat, step, limit);
        assert(times * step == (times - 1) * step + step) by (nonlinear_arith);
        assert((times - 1) * step >= 0) by (nonlinear_arith)
            requires
                times >= 1,
                step >= 0,
        ;
    } else {
        assert(times * step == 0) by (nonlinear_arith)
            requires
                times == 0,
        ;
    }
}

/// However often the view is scrolled down, the position does not grow, and a request
/// made from a position smaller than the step lands exactly at zero.
pub proof fn lemma_down_stops_at_zero(position: nat, times: nat, step: nat, limit: nat)
    ensures
        scrolled_times(position, Scroll::Down, times, step, limit) <= position,
        position < step ==> scrolled(position, Scroll::Down, step, limit) == 0,
        position < step && times > 0 ==> scrolled_times(position, Scroll::Down, times, step, limit) == 0,
    decreases times,
{
    if times > 0 {
        lemma_down_stops_at_zero(position, (times - 1) as nat, step, limit);
    }
}

/// Scrolling down `times` times takes `times` steps away, cut off at zero.
pub proof fn lemma_down_takes_steps(position: nat, times: nat, step: nat, limit: nat)
    ensures
        scrolled_times(position, Scroll::Down, times, step, limit) == if position >= times * step {
            position - times * step
        } else {
            0
        },
    decreases times,
{
    if times > 0 {
        lemma_down_takes_steps(position, (times - 1) as nat, step, limit);
        assert(times * step == (times - 1) * step + step) by (nonlinear_arith);
        assert((times - 1) * step >= 0) by (nonlinear_arith)
            requires
                times >= 1,
                step >= 0,
        ;
    } else {
        assert(times * step == 0) by (nonlinear_arith)
            requires
                times == 0,
        ;
    }
}

/// A cancel puts the position at zero, wherever it was, and any number of them do.
pub proof fn lemma_cancel_resets(position: nat, times: nat, step: nat, limit: nat)
    ensures
        scrolled(position, Scroll::Cancel, step, limit) == 0,
        times > 0 ==> scrolled_times(position, Scroll::Cancel, times, step, limit) == 0,
{
    if times > 0 {
        assert(scrolled_times(position, Scroll::Cancel, times, step, limit) == scrolled(
            scrolled_times(position, Scroll::Cancel, (times - 1) as nat, step, limit),
            Scroll::Cancel,
            step,
            limit,
        ));
    }
}

} // verus!
