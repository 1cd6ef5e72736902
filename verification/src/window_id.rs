//! Identifiers handed out to windows and monitors, in creation order.
//!
//! The counters live with the caller, which keeps each one for the whole
//! process and hands it here under a lock; each call returns the counter's
//! value and advances it by one, wrapping around at the end of the range.

use vstd::arithmetic::div_mod::{
    lemma_add_mod_noop, lemma_mod_equivalence, lemma_mod_self_0, lemma_small_mod,
};
use vstd::prelude::*;

verus! {

/// Identifies a window.
#[derive(Debug, Clone, Copy, PartialEq, Eq, Hash, Structural)]
pub struct WindowId(pub usize);

impl WindowId {
    pub fn from_raw(id: usize) -> (window_id: WindowId)
        ensures
            window_id == WindowId(id),
    {
        WindowId(id)
    }

    pub fn into_raw(self) -> (id: usize)
        ensures
            id == self.0,
    {
        self.0
    }
}

/// The value a window counter takes after handing out `counter`.
pub open spec fn window_counter_after(counter: usize) -> usize {
    if counter == usize::MAX { 0 } else { (counter + 1) as usize }
}

/// The value a monitor counter takes after handing out `counter`.
pub open spec fn monitor_counter_after(counter: u64) -> u64 {
    if counter == u64::MAX { 0 } else { (counter + 1) as u64 }
}

/// The id of the next window: the counter's value, which then advances by one.
pub fn next_window_id(counter: &mut usize) -> (id: WindowId)
    ensures
        id == WindowId(*old(counter)),
        *final(counter) == window_counter_after(*old(counter)),
{
    let id = *counter;
    *counter = if id == usize::MAX { 0 } else { id + 1 };
    WindowId::from_raw(id)
}

/// The id of the next monitor: the counter's value, which then advances by one.
pub fn next_monitor_id(counter: &mut u64) -> (id: u64)
    ensures
        id == *old(counter),
        *final(counter) == monitor_counter_after(*old(counter)),
{
    let id = *counter;
    *counter = if id == u64::MAX { 0 } else { id + 1 };
    id
}

/// Two ids taken one after the other from the same counter differ.
pub proof fn lemma_consecutive_ids_differ(window_counter: usize, monitor_counter: u64)
    ensures
        window_counter_after(window_counter) != window_counter,
        monitor_counter_after(monitor_counter) != monitor_counter,
{
}

/// The value of a window counter that started at `start` once `calls` ids
/// were taken from it; it is also the id the next call returns.
pub open spec fn window_counter_after_calls(start: usize, calls: nat) -> usize
    decreases calls,
{
    if calls == 0 {
        start
    } else {
        window_counter_after(window_counter_after_calls(start, (calls - 1) as nat))
    }
}

/// The value of a monitor counter that started at `start` once `calls` ids
/// were taken from it; it is also the id the next call returns.
pub open spec fn monitor_counter_after_calls(start: u64, calls: nat) -> u64
    decreases calls,
{
    if calls == 0 {
        start
    } else {
        monitor_counter_after(monitor_counter_after_calls(start, (calls - 1) as nat))
    }
}

proof fn lemma_step_mod(x: int, m: int)
    requires
        m > 1,
        0 <= x,
    ensures
        (x % m == m - 1 ==> (x + 1) % m == 0),
        (x % m != m - 1 ==> (x + 1) % m == x % m + 1),
{
    lemma_add_mod_noop(x, 1, m);
    lemma_small_mod(1, m as nat);
    let r = x % m;
    assert(0 <= r < m);
    if r == m - 1 {
        lemma_mod_self_0(m);
    } else {
        lemma_small_mod((r + 1) as nat, m as nat);
    }
}

proof fn lemma_offsets_distinct(start: int, i: int, j: int, m: int)
    requires
        m > 0,
        0 <= i < j < m,
    ensures
        (start + i) % m != (start + j) % m,
{
    lemma_mod_equivalence(start + j, start + i, m);
    lemma_small_mod((j - i) as nat, m as nat);
    assert((start + j) - (start + i) == j - i);
}

proof fn lemma_window_counter_closed_form(start: usize, calls: nat)
    ensures
        window_counter_after_calls(start, calls) as int == (start + calls) % (usize::MAX + 1),
    decreases calls,
{
    let m = usize::MAX + 1;
    if calls == 0 {
        lemma_small_mod(start as nat, m as nat);
    } else {
        lemma_window_counter_closed_form(start, (calls - 1) as nat);
        lemma_step_mod(start + calls - 1, m);
    }
}

proof fn lemma_monitor_counter_closed_form(start: u64, calls: nat)
    ensures
        monitor_counter_after_calls(start, calls) as int == (start + calls) % (u64::MAX + 1),
    decreases calls,
{
    let m = u64::MAX + 1;
    if calls == 0 {
        lemma_small_mod(start as nat, m as nat);
    } else {
        lemma_monitor_counter_closed_form(start, (calls - 1) as nat);
        lemma_step_mod(start + calls - 1, m);
    }
}

/// Of fewer than 2^64 successive calls, no two return the same monitor id;
/// from a counter that starts at 0, the `k`-th call (counting from 0)
/// returns `k`.
pub proof fn lemma_monitor_ids_distinct(start: u64, i: nat, j: nat)
    requires
        i < j <= u64::MAX,
    ensures
        monitor_counter_after_calls(start, i) != monitor_counter_after_calls(start, j),
        start == 0 ==> monitor_counter_after_calls(start, i) == i,
{
    lemma_monitor_counter_closed_form(start, i);
    lemma_monitor_counter_closed_form(start, j);
    lemma_offsets_distinct(start as int, i as int, j as int, u64::MAX + 1);
    if start == 0 {
        lemma_small_mod(i, (u64::MAX + 1) as nat);
    }
}

/// Of no more successive calls than `usize` has values, no two return the
/// same window id; from a counter that starts at 0, the `k`-th call
/// (counting from 0) returns `k`.
pub proof fn lemma_window_ids_distinct(start: usize, i: nat, j: nat)
    requires
        i < j <= usize::MAX,
    ensures
        window_counter_after_calls(start, i) != window_counter_after_calls(start, j),
        start == 0 ==> window_counter_after_calls(start, i) == i,
{
    lemma_window_counter_closed_form(start, i);
    lemma_window_counter_closed_form(start, j);
    lemma_offsets_distinct(start as int, i as int, j as int, usize::MAX + 1);
    if start == 0 {
        lemma_small_mod(i, (usize::MAX + 1) as nat);
    }
}

} // verus!
