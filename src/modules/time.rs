//! The local time of day, formatted with a user-supplied chrono pattern.
use vstd::prelude::*;
use crate::modules::Module;
use std::fmt::Write;

verus! {

pub struct TimeModule {
    enabled: bool,
    format: String,
}

/// Relies on `chrono::Local::now` and `DelayedFormat`'s `Display`: the local
/// time now, written with the pattern `fmt`, or `None` where the pattern is
/// invalid and formatting fails. The result depends on the clock.
#[verifier::external_body]
fn format_local_now(fmt: &str) -> Option<String> {
    let mut out = String::new();
    match write!(out, "{}", chrono::Local::now().format(fmt)) {
        Ok(()) => Some(out),
        Err(_) => None,
    }
}

impl TimeModule {
    pub closed spec fn spec_format(&self) -> Seq<char> {
        self.format@
    }

    /// Disabled, with the pattern "%H:%M".
    pub fn new() -> (r: Self)
        ensures
            !r.spec_enabled(),
            r.spec_format() == seq!['%', 'H', ':', '%', 'M'],
    {
        let mut f: Vec<char> = Vec::new();
        f.push('%');
        f.push('H');
        f.push(':');
        f.push('%');
        f.push('M');
        let format = crate::text::string_from_chars(&f);
        assert(format@ =~= seq!['%', 'H', ':', '%', 'M']);
        TimeModule { enabled: false, format }
    }

    pub fn set_format(&mut self, format: String)
        ensures
            final(self).spec_format() == format@,
            final(self).spec_enabled() == old(self).spec_enabled(),
    {
        self.format = format;
    }
}

impl Module for TimeModule {
    closed spec fn spec_enabled(&self) -> bool {
        self.enabled
    }

    closed spec fn with_enabled(&self, enabled: bool) -> Self {
        TimeModule { enabled, ..*self }
    }

    /// An enabled module shows the local time as the clock gives it; the
    /// state never changes.
    open spec fn ticked(&self, now_ms: u64, next: &Self, out: Option<Seq<char>>) -> bool {
        &&& *next == *self
        &&& (!self.spec_enabled() ==> out is None)
    }

    fn name(&self) -> &'static str {
        "Time"
    }

    fn enabled(&self) -> (r: bool) {
        self.enabled
    }

    fn set_enabled(&mut self, enabled: bool) {
        self.enabled = enabled;
    }

    fn tick(&mut self, now_ms: u64) -> (r: Option<String>) {
        if !self.enabled {
            return None;
        }
        format_local_now(self.format.as_str())
    }
}

impl TimeModule {
    /// Switching the module on or off changes nothing else.
    pub proof fn lemma_with_enabled(&self, enabled: bool)
        ensures
            self.with_enabled(enabled).spec_enabled() == enabled,
            self.with_enabled(enabled).spec_format() == self.spec_format(),
    {
    }
}

} // verus!
