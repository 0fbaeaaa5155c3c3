//! The user's status: up to six configured lines, of which the non-empty ones
//! are shown in turn, each for a few ticks.
use vstd::prelude::*;
use crate::modules::{lemma_rotation_after, lemma_rotation_cycle, rotate, rotation_after, rotation_next, rotation_shown, Module};
use vstd::string::StrSliceExecFns;

verus! {

/// Number of configurable status lines.
pub const STATUS_LINES: usize = 6;

pub struct StatusModule {
    enabled: bool,
    lines: [String; 6],
    index: usize,
    tick_count: usize,
}

/// The non-empty lines of `lines`, in order.
pub open spec fn nonempty_lines(lines: Seq<Seq<char>>) -> Seq<Seq<char>>
    decreases lines.len(),
{
    if lines.len() == 0 {
        seq![]
    } else {
        let rest = nonempty_lines(lines.drop_last());
        if lines.last().len() > 0 {
            rest.push(lines.last())
        } else {
            rest
        }
    }
}

impl StatusModule {
    pub closed spec fn spec_lines(&self) -> Seq<Seq<char>> {
        self.lines@.map_values(|s: String| s@)
    }

    pub closed spec fn spec_index(&self) -> nat {
        self.index as nat
    }

    pub closed spec fn spec_tick_count(&self) -> nat {
        self.tick_count as nat
    }

    /// There are always `STATUS_LINES` lines.
    pub proof fn lemma_line_count(&self)
        ensures
            self.spec_lines().len() == STATUS_LINES,
    {
    }

    /// Disabled, with all lines empty and the rotation at its start.
    pub fn new() -> (r: Self)
        ensures
            !r.spec_enabled(),
            r.spec_lines() == Seq::new(6, |i: int| Seq::<char>::empty()),
            r.spec_index() == 0,
            r.spec_tick_count() == 0,
    {
        let lines: [String; 6] = [String::new(), String::new(), String::new(), String::new(), String::new(), String::new()];
        let r = StatusModule { enabled: false, lines, index: 0, tick_count: 0 };
        assert(r.spec_lines() =~= Seq::new(6, |i: int| Seq::<char>::empty()));
        r
    }

    /// Replaces line `index` with `text`; an index of `STATUS_LINES` or more
    /// changes nothing.
    pub fn set_line(&mut self, index: usize, text: String)
        ensures
            final(self).spec_lines() == if index < STATUS_LINES {
                old(self).spec_lines().update(index as int, text@)
            } else {
                old(self).spec_lines()
            },
            final(self).spec_enabled() == old(self).spec_enabled(),
            final(self).spec_index() == old(self).spec_index(),
            final(self).spec_tick_count() == old(self).spec_tick_count(),
    {
        if index < STATUS_LINES {
            let ghost t = text@;
            self.lines[index] = text;
            assert(self.spec_lines() =~= old(self).spec_lines().update(index as int, t));
        }
    }

    /// The non-empty lines, in order.
    fn active_lines(&self) -> (r: Vec<String>)
        ensures
            r@.map_values(|s: String| s@) == nonempty_lines(self.spec_lines()),
    {
        let mut out: Vec<String> = Vec::new();
        let mut i: usize = 0;
        while i < self.lines.len()
            invariant
                i <= self.lines@.len(),
                out@.map_values(|s: String| s@) == nonempty_lines(self.spec_lines().take(i as int)),
            decreases self.lines@.len() - i,
        {
            let ghost before = out@;
            let line = &self.lines[i];
            assert(self.spec_lines().take(i + 1).drop_last() =~= self.spec_lines().take(i as int));
            if line.as_str().unicode_len() > 0 {
                out.push(line.clone());
                assert(out@.map_values(|s: String| s@) =~= before.map_values(|s: String| s@).push(line@));
            }
            i = i + 1;
        }
        assert(self.spec_lines().take(self.lines@.len() as int) =~= self.spec_lines());
        out
    }
}

impl Module for StatusModule {
    closed spec fn spec_enabled(&self) -> bool {
        self.enabled
    }

    closed spec fn with_enabled(&self, enabled: bool) -> Self {
        StatusModule { enabled, ..*self }
    }

    /// Shows the line under the cursor among the non-empty lines, then moves
    /// the rotation on by one tick; with no non-empty line, shows nothing and
    /// keeps the state.
    open spec fn ticked(&self, now_ms: u64, next: &Self, out: Option<Seq<char>>) -> bool {
        let act = nonempty_lines(self.spec_lines());
        if !self.spec_enabled() || act.len() == 0 {
            out is None && *next == *self
        } else {
            let n = act.len();
            let nx = rotation_next(self.spec_index(), self.spec_tick_count(), n);
            &&& out == Some(act[rotation_shown(self.spec_index(), n) as int])
            &&& next.spec_enabled() == self.spec_enabled()
            &&& next.spec_lines() == self.spec_lines()
            &&& next.spec_index() == nx.0
            &&& next.spec_tick_count() == nx.1
        }
    }

    fn name(&self) -> &'static str {
        "Status"
    }

    fn enabled(&self) -> (r: bool) {
        self.enabled
    }

    fn set_enabled(&mut self, enabled: bool) {
        self.enabled = enabled;
    }

    fn tick(&mut self, now_ms: u64) -> (r: Option<String>) {
        if !self.enabled {
            return None;
        }
        let active = self.active_lines();
        if active.len() == 0 {
            return None;
        }
        let (shown, index, count) = rotate(self.index, self.tick_count, active.len());
        self.index = index;
        self.tick_count = count;
        let line = active[shown].clone();
        assert(active@.map_values(|s: String| s@)[shown as int] == active@[shown as int]@);
        Some(line)
    }
}

/// Along a run of enabled ticks from the start of the rotation, the
/// status lines stay as they are, the cursor after `k` ticks is where
/// `rotation_after` puts it, and tick `k` shows entry `((k - 1) / 4) mod n`.
pub proof fn lemma_status_run(states: Seq<StatusModule>, times: Seq<u64>, outs: Seq<Option<Seq<char>>>, k: nat)
    requires
        k < states.len(),
        times.len() == states.len() - 1,
        outs.len() == states.len() - 1,
        states[0].spec_enabled(),
        nonempty_lines(states[0].spec_lines()).len() > 0,
        states[0].spec_index() == 0,
        states[0].spec_tick_count() == 0,
        forall|j: int| 0 <= j < states.len() - 1 ==> #[trigger] states[j].ticked(times[j], &states[j + 1], outs[j]),
    ensures
        states[k as int].spec_enabled(),
        states[k as int].spec_lines() == states[0].spec_lines(),
        (states[k as int].spec_index(), states[k as int].spec_tick_count()) == rotation_after(nonempty_lines(states[0].spec_lines()).len(), k),
        k > 0 ==> outs[k - 1] == Some(nonempty_lines(states[0].spec_lines())[(((k - 1) as nat / 4) % nonempty_lines(states[0].spec_lines()).len()) as int]),
    decreases k,
{
    if k > 0 {
        lemma_status_run(states, times, outs, (k - 1) as nat);
        let j = k - 1;
        assert(states[j].ticked(times[j], &states[j + 1], outs[j]));
        assert(j + 1 == k);
        let n = nonempty_lines(states[0].spec_lines()).len();
        lemma_rotation_after(n, j as nat);
        assert((j as nat / 4) % n < n) by (nonlinear_arith)
            requires n > 0;
    }
}

/// Enabled, from the start of the rotation over `n` entries, the cursor is
/// back on the first entry with no dwell after exactly `4 * n` ticks.
pub proof fn lemma_status_cycle(states: Seq<StatusModule>, times: Seq<u64>, outs: Seq<Option<Seq<char>>>)
    requires
        states.len() == 4 * nonempty_lines(states[0].spec_lines()).len() + 1,
        times.len() == states.len() - 1,
        outs.len() == states.len() - 1,
        states[0].spec_enabled(),
        nonempty_lines(states[0].spec_lines()).len() > 0,
        states[0].spec_index() == 0,
        states[0].spec_tick_count() == 0,
        forall|j: int| 0 <= j < states.len() - 1 ==> #[trigger] states[j].ticked(times[j], &states[j + 1], outs[j]),
    ensures
        states.last().spec_index() == 0,
        states.last().spec_tick_count() == 0,
{
    let n = nonempty_lines(states[0].spec_lines()).len();
    lemma_status_run(states, times, outs, 4 * n);
    lemma_rotation_cycle(n);
}

impl StatusModule {
    /// Switching the module off and on again gives back the module as it
    /// was switched on; as disabled ticks change nothing, a disabled period
    /// moves no rotation.
    pub proof fn lemma_pause(&self)
        ensures
            self.with_enabled(false).with_enabled(true) == self.with_enabled(true),
    {
    }

    /// Switching the module on or off changes nothing else.
    pub proof fn lemma_with_enabled(&self, enabled: bool)
        ensures
            self.with_enabled(enabled).spec_enabled() == enabled,
            self.with_enabled(enabled).spec_lines() == self.spec_lines(),
            self.with_enabled(enabled).spec_index() == self.spec_index(),
            self.with_enabled(enabled).spec_tick_count() == self.spec_tick_count(),
    {
    }
}

} // verus!
