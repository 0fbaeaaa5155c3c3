//! Idle detection: once no activity has been reported for the configured
//! timeout, the module shows its AFK text on every tick until poked.
use vstd::prelude::*;
use crate::modules::Module;

verus! {

/// Default idle timeout, in seconds.
pub const DEFAULT_AFK_TIMEOUT_SECS: u64 = 300;

/// Times are milliseconds on the orchestrator's clock.
pub struct AfkModule {
    enabled: bool,
    timeout_secs: u64,
    last_activity_ms: u64,
    afk_text: String,
    is_afk: bool,
}

/// Whether a module last poked at `last_ms` is idle at `now_ms` under a
/// timeout of `timeout_secs` seconds. A clock reading before the poke counts
/// as no time elapsed.
pub open spec fn idle_at(last_ms: u64, now_ms: u64, timeout_secs: u64) -> bool {
    let elapsed: int = if now_ms >= last_ms { now_ms - last_ms } else { 0 };
    elapsed >= timeout_secs * 1000
}

impl AfkModule {
    pub closed spec fn spec_timeout_secs(&self) -> u64 {
        self.timeout_secs
    }

    pub closed spec fn spec_last_activity(&self) -> u64 {
        self.last_activity_ms
    }

    pub closed spec fn spec_afk_text(&self) -> Seq<char> {
        self.afk_text@
    }

    pub closed spec fn spec_is_afk(&self) -> bool {
        self.is_afk
    }

    /// Disabled, with a timeout of `DEFAULT_AFK_TIMEOUT_SECS`, the text
    /// "AFK", and activity at time 0.
    pub fn new() -> (r: Self)
        ensures
            !r.spec_enabled(),
            r.spec_timeout_secs() == DEFAULT_AFK_TIMEOUT_SECS,
            r.spec_afk_text() == seq!['A', 'F', 'K'],
            r.spec_last_activity() == 0,
            !r.spec_is_afk(),
    {
        let mut text: Vec<char> = Vec::new();
        text.push('A');
        text.push('F');
        text.push('K');
        let afk_text = crate::text::string_from_chars(&text);
        assert(afk_text@ =~= seq!['A', 'F', 'K']);
        AfkModule {
            enabled: false,
            timeout_secs: DEFAULT_AFK_TIMEOUT_SECS,
            last_activity_ms: 0,
            afk_text,
            is_afk: false,
        }
    }

    pub fn set_timeout_secs(&mut self, secs: u64)
        ensures
            final(self).spec_timeout_secs() == secs,
            final(self).spec_enabled() == old(self).spec_enabled(),
            final(self).spec_last_activity() == old(self).spec_last_activity(),
            final(self).spec_afk_text() == old(self).spec_afk_text(),
            final(self).spec_is_afk() == old(self).spec_is_afk(),
    {
        self.timeout_secs = secs;
    }

    pub fn set_afk_text(&mut self, text: String)
        ensures
            final(self).spec_afk_text() == text@,
            final(self).spec_enabled() == old(self).spec_enabled(),
            final(self).spec_timeout_secs() == old(self).spec_timeout_secs(),
            final(self).spec_last_activity() == old(self).spec_last_activity(),
            final(self).spec_is_afk() == old(self).spec_is_afk(),
    {
        self.afk_text = text;
    }

    /// Records activity at `now_ms` and clears the AFK state.
    pub fn poke(&mut self, now_ms: u64)
        ensures
            final(self).spec_last_activity() == now_ms,
            !final(self).spec_is_afk(),
            final(self).spec_enabled() == old(self).spec_enabled(),
            final(self).spec_timeout_secs() == old(self).spec_timeout_secs(),
            final(self).spec_afk_text() == old(self).spec_afk_text(),
    {
        self.last_activity_ms = now_ms;
        self.is_afk = false;
    }

    pub fn is_afk(&self) -> (r: bool)
        ensures
            r == self.spec_is_afk(),
    {
        self.is_afk
    }
}

impl Module for AfkModule {
    closed spec fn spec_enabled(&self) -> bool {
        self.enabled
    }

    closed spec fn with_enabled(&self, enabled: bool) -> Self {
        AfkModule { enabled, ..*self }
    }

    /// An enabled module shows its AFK text exactly when it is idle, and
    /// records whether it is; nothing else changes.
    open spec fn ticked(&self, now_ms: u64, next: &Self, out: Option<Seq<char>>) -> bool {
        if !self.spec_enabled() {
            out is None && *next == *self
        } else {
            let idle = idle_at(self.spec_last_activity(), now_ms, self.spec_timeout_secs());
            &&& out == if idle { Some(self.spec_afk_text()) } else { None }
            &&& next.spec_is_afk() == idle
            &&& next.spec_enabled() == self.spec_enabled()
            &&& next.spec_timeout_secs() == self.spec_timeout_secs()
            &&& next.spec_last_activity() == self.spec_last_activity()
            &&& next.spec_afk_text() == self.spec_afk_text()
        }
    }

    fn name(&self) -> &'static str {
        "AFK"
    }

    fn enabled(&self) -> (r: bool) {
        self.enabled
    }

    fn set_enabled(&mut self, enabled: bool) {
        self.enabled = enabled;
    }

    fn tick(&mut self, now_ms: u64) -> (r: Option<String>) {
        if !self.enabled {
            return None;
        }
        let elapsed_secs = now_ms.saturating_sub(self.last_activity_ms) / 1000;
        if elapsed_secs >= self.timeout_secs {
            self.is_afk = true;
            Some(self.afk_text.clone())
        } else {
            self.is_afk = false;
            None
        }
    }
}

/// After a poke at `poked_ms`, an enabled module is silent on every tick
/// before the timeout has elapsed, and from then on shows its AFK text on
/// every tick; ticks never move the time of the last activity, so this lasts
/// until the next poke.
pub proof fn lemma_afk_after_poke(m: AfkModule, poked_ms: u64, now_ms: u64, next: AfkModule, out: Option<Seq<char>>)
    requires
        m.spec_enabled(),
        m.spec_last_activity() == poked_ms,
        m.ticked(now_ms, &next, out),
    ensures
        now_ms >= poked_ms && now_ms - poked_ms < m.spec_timeout_secs() * 1000 ==> out is None,
        now_ms >= poked_ms && now_ms - poked_ms >= m.spec_timeout_secs() * 1000 ==> out == Some(m.spec_afk_text()),
        next.spec_is_afk() == idle_at(poked_ms, now_ms, m.spec_timeout_secs()),
        next.spec_last_activity() == poked_ms,
        next.spec_enabled(),
        next.spec_timeout_secs() == m.spec_timeout_secs(),
        next.spec_afk_text() == m.spec_afk_text(),
{
}

impl AfkModule {
    /// Switching the module on or off changes nothing else.
    pub proof fn lemma_with_enabled(&self, enabled: bool)
        ensures
            self.with_enabled(enabled).spec_enabled() == enabled,
            self.with_enabled(enabled).spec_timeout_secs() == self.spec_timeout_secs(),
            self.with_enabled(enabled).spec_last_activity() == self.spec_last_activity(),
            self.with_enabled(enabled).spec_afk_text() == self.spec_afk_text(),
            self.with_enabled(enabled).spec_is_afk() == self.spec_is_afk(),
    {
    }
}

} // verus!
