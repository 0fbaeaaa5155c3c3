//! The data-source modules and what they share: the capability interface
//! that the orchestrator polls, and the dwell-and-advance rotation used by
//! the modules that cycle through entries.
use vstd::prelude::*;
use vstd::arithmetic::div_mod::{lemma_add_mod_noop, lemma_small_mod};

pub mod afk;
pub mod heartrate;
pub mod media;
pub mod network;
pub mod stats;
pub mod status;
pub mod system_details;
pub mod time;

verus! {

/// Ticks that a rotating module holds one entry before it advances.
pub const DWELL_TICKS: usize = 4;

/// The text of an optional `String`.
pub open spec fn opt_view(o: Option<String>) -> Option<Seq<char>> {
    match o {
        Some(s) => Some(s@),
        None => None,
    }
}

/// A data source polled once per tick.
pub trait Module: Sized {
    /// Whether the module is switched on.
    spec fn spec_enabled(&self) -> bool;

    /// This module with its switch set to `enabled` and all else kept.
    spec fn with_enabled(&self, enabled: bool) -> Self;

    /// What one tick at time `now_ms` may do: from state `self` to state
    /// `next`, with output `out`.
    spec fn ticked(&self, now_ms: u64, next: &Self, out: Option<Seq<char>>) -> bool;

    fn name(&self) -> &'static str;

    fn enabled(&self) -> (r: bool)
        ensures
            r == self.spec_enabled(),
    ;

    fn set_enabled(&mut self, enabled: bool)
        ensures
            final(self).spec_enabled() == enabled,
            *final(self) == old(self).with_enabled(enabled),
    ;

    /// Polls the module. A disabled module yields nothing and keeps its state.
    fn tick(&mut self, now_ms: u64) -> (r: Option<String>)
        ensures
            old(self).ticked(now_ms, final(self), opt_view(r)),
            !old(self).spec_enabled() ==> r is None && *final(self) == *old(self),
    ;
}

/// The entry shown by a rotation at cursor `index` over `n` entries: the
/// cursor itself, or the first entry where it has fallen out of range.
pub open spec fn rotation_shown(index: nat, n: nat) -> nat {
    if index >= n {
        0
    } else {
        index
    }
}

/// Cursor and dwell count after one tick over `n` entries.
pub open spec fn rotation_next(index: nat, count: nat, n: nat) -> (nat, nat) {
    let i = rotation_shown(index, n);
    let c = if index >= n {
        0
    } else {
        count
    };
    if c + 1 >= DWELL_TICKS {
        ((i + 1) % (n as int) as nat, 0)
    } else {
        (i, c + 1)
    }
}

/// Cursor and dwell count after `k` ticks over `n` entries, from the start.
pub open spec fn rotation_after(n: nat, k: nat) -> (nat, nat)
    decreases k,
{
    if k == 0 {
        (0, 0)
    } else {
        let p = rotation_after(n, (k - 1) as nat);
        rotation_next(p.0, p.1, n)
    }
}

/// One tick of a rotation over `n` entries: returns the entry to show, then
/// the new cursor and dwell count.
pub fn rotate(index: usize, count: usize, n: usize) -> (r: (usize, usize, usize))
    requires
        n > 0,
    ensures
        r.0 as nat == rotation_shown(index as nat, n as nat),
        (r.1 as nat, r.2 as nat) == rotation_next(index as nat, count as nat, n as nat),
        r.0 < n,
        r.1 < n,
{
    let (i, c) = if index >= n {
        (0, 0)
    } else {
        (index, count)
    };
    if c >= DWELL_TICKS - 1 {
        (i, (i + 1) % n, 0)
    } else {
        (i, i, c + 1)
    }
}

/// After `k` ticks from the start, a rotation over `n` entries is on entry
/// `(k / 4) mod n` with `k mod 4` ticks of dwell.
pub proof fn lemma_rotation_after(n: nat, k: nat)
    requires
        n > 0,
    ensures
        rotation_after(n, k) == ((k / 4) % n, k % 4),
    decreases k,
{
    if k > 0 {
        let km = (k - 1) as nat;
        lemma_rotation_after(n, km);
        let q = km / 4;
        assert((q % n) < n) by (nonlinear_arith)
            requires n > 0;
        let p = rotation_after(n, km);
        assert(p == (q % n, km % 4));
        assert(rotation_after(n, k) == rotation_next(p.0, p.1, n));
        if km % 4 == 3 {
            assert(k / 4 == q + 1 && k % 4 == 0);
            lemma_add_mod_noop(q as int, 1, n as int);
            if n == 1 {
                assert((q + 1) % 1 == 0 && (q % 1 + 1) % 1 == 0);
            } else {
                lemma_small_mod(1, n);
            }
            assert(((q % n) + 1) % n == (q + 1) % n);
            assert(rotation_next(p.0, p.1, n) == (((q % n) + 1) % n, 0nat));
        } else {
            assert(k / 4 == q && k % 4 == km % 4 + 1);
            assert(rotation_next(p.0, p.1, n) == (q % n, km % 4 + 1));
        }
    } else {
        lemma_small_mod(0, n);
    }
}

/// A rotation over `n` entries is back on the first entry, with no dwell,
/// after exactly `4 * n` ticks.
pub proof fn lemma_rotation_cycle(n: nat)
    requires
        n > 0,
    ensures
        rotation_after(n, 4 * n) == (0nat, 0nat),
{
    lemma_rotation_after(n, 4 * n);
    assert((4 * n) / 4 == n && (4 * n) % 4 == 0);
    assert(n % n == 0) by (nonlinear_arith)
        requires n > 0;
}

/// A cursor that has fallen out of range shows the first entry on the next
/// tick, and the rotation continues from there.
pub proof fn lemma_rotation_reset(index: nat, count: nat, n: nat)
    requires
        n > 0,
        index >= n,
    ensures
        rotation_shown(index, n) == 0,
        rotation_next(index, count, n) == rotation_next(0, 0, n),
{
}

} // verus!
