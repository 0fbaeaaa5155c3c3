//! CPU utilisation and memory use, as sampled by `sysinfo`.
use vstd::prelude::*;
use crate::modules::{opt_view, Module};
use crate::smalltext::{push_superscript, superscript};
use crate::text::{decimal, push_decimal, push_str, string_from_chars};

verus! {

/// `sysinfo::System`, carried opaquely as the handle that samples are read
/// from.
#[verifier::external_type_specification]
#[verifier::external_body]
pub struct ExSystem(sysinfo::System);

/// Relies on `sysinfo::System::used_memory`: bytes of memory in use, as of
/// the last refresh.
pub assume_specification[ sysinfo::System::used_memory ](s: &sysinfo::System) -> u64;

/// Relies on `sysinfo::System::total_memory`: bytes of memory in all, as of
/// the last refresh.
pub assume_specification[ sysinfo::System::total_memory ](s: &sysinfo::System) -> u64;

/// Relies on `sysinfo::System::new_all`: a system handle with every kind of
/// information refreshed once.
#[verifier::external_body]
pub(crate) fn new_system() -> sysinfo::System {
    sysinfo::System::new_all()
}

/// Relies on `sysinfo::System::refresh_cpu_usage`: samples CPU usage again.
#[verifier::external_body]
fn refresh_cpu_usage(sys: &mut sysinfo::System) {
    sys.refresh_cpu_usage()
}

/// Relies on `sysinfo::System::refresh_memory`: samples memory use again.
#[verifier::external_body]
fn refresh_memory(sys: &mut sysinfo::System) {
    sys.refresh_memory()
}

/// Relies on `sysinfo::System::global_cpu_usage`: the CPU usage over all
/// cores as a percentage, written with no decimals.
#[verifier::external_body]
fn global_cpu_usage_text(sys: &sysinfo::System) -> String {
    format!("{:.0}", sys.global_cpu_usage())
}

pub struct StatsModule {
    enabled: bool,
    system: sysinfo::System,
    show_cpu: bool,
    show_ram: bool,
}

/// "CPU " and the superscript of the percentage with its sign.
pub open spec fn cpu_part(cpu_percent: Seq<char>) -> Seq<char> {
    seq!['C', 'P', 'U', ' '] + superscript(cpu_percent.push('%'))
}

/// "RAM " and the superscript of "<used>/<total>mb", in MiB.
pub open spec fn ram_part(used_mib: u64, total_mib: u64) -> Seq<char> {
    seq!['R', 'A', 'M', ' '] + superscript(
        decimal(used_mib as nat) + seq!['/'] + decimal(total_mib as nat) + seq!['m', 'b'],
    )
}

/// The text of the module: the parts that are switched on, joined by " | ".
pub open spec fn stats_text(
    show_cpu: bool,
    show_ram: bool,
    cpu_percent: Seq<char>,
    used_mib: u64,
    total_mib: u64,
) -> Option<Seq<char>> {
    if show_cpu && show_ram {
        Some(cpu_part(cpu_percent) + seq![' ', '|', ' '] + ram_part(used_mib, total_mib))
    } else if show_cpu {
        Some(cpu_part(cpu_percent))
    } else if show_ram {
        Some(ram_part(used_mib, total_mib))
    } else {
        None
    }
}

fn push_cpu_part(out: &mut Vec<char>, cpu_percent: &str)
    ensures
        final(out)@ == old(out)@ + cpu_part(cpu_percent@),
{
    push_str(out, "CPU ");
    proof { reveal_strlit("CPU "); }
    let mut t: Vec<char> = Vec::new();
    push_str(&mut t, cpu_percent);
    t.push('%');
    push_superscript(out, &t);
    assert(final(out)@ =~= old(out)@ + cpu_part(cpu_percent@));
}

fn push_ram_part(out: &mut Vec<char>, used_mib: u64, total_mib: u64)
    ensures
        final(out)@ == old(out)@ + ram_part(used_mib, total_mib),
{
    push_str(out, "RAM ");
    proof { reveal_strlit("RAM "); }
    let mut t: Vec<char> = Vec::new();
    push_decimal(&mut t, used_mib);
    t.push('/');
    push_decimal(&mut t, total_mib);
    t.push('m');
    t.push('b');
    push_superscript(out, &t);
    assert(t@ =~= decimal(used_mib as nat) + seq!['/'] + decimal(total_mib as nat) + seq!['m', 'b']);
    assert(final(out)@ =~= old(out)@ + ram_part(used_mib, total_mib));
}

/// The text for a CPU usage written as `cpu_percent` and `used_mib` of
/// `total_mib` MiB of memory in use, under the two switches.
pub fn render_stats(show_cpu: bool, show_ram: bool, cpu_percent: &str, used_mib: u64, total_mib: u64) -> (r: Option<String>)
    ensures
        opt_view(r) == stats_text(show_cpu, show_ram, cpu_percent@, used_mib, total_mib),
{
    if !show_cpu && !show_ram {
        return None;
    }
    let mut out: Vec<char> = Vec::new();
    if show_cpu {
        push_cpu_part(&mut out, cpu_percent);
    }
    if show_cpu && show_ram {
        out.push(' ');
        out.push('|');
        out.push(' ');
    }
    if show_ram {
        push_ram_part(&mut out, used_mib, total_mib);
    }
    proof {
        if show_cpu && show_ram {
            assert(out@ =~= cpu_part(cpu_percent@) + seq![' ', '|', ' '] + ram_part(used_mib, total_mib));
        } else if show_cpu {
            assert(out@ =~= cpu_part(cpu_percent@));
        } else {
            assert(out@ =~= ram_part(used_mib, total_mib));
        }
    }
    Some(string_from_chars(&out))
}


impl StatsModule {
    pub closed spec fn spec_show_cpu(&self) -> bool {
        self.show_cpu
    }

    pub closed spec fn spec_show_ram(&self) -> bool {
        self.show_ram
    }

    /// Disabled, with both parts switched on.
    pub fn new() -> (r: Self)
        ensures
            !r.spec_enabled(),
            r.spec_show_cpu(),
            r.spec_show_ram(),
    {
        StatsModule { enabled: false, system: new_system(), show_cpu: true, show_ram: true }
    }

    pub fn set_show_cpu(&mut self, show: bool)
        ensures
            final(self).spec_show_cpu() == show,
            final(self).spec_show_ram() == old(self).spec_show_ram(),
            final(self).spec_enabled() == old(self).spec_enabled(),
    {
        self.show_cpu = show;
    }

    pub fn set_show_ram(&mut self, show: bool)
        ensures
            final(self).spec_show_ram() == show,
            final(self).spec_show_cpu() == old(self).spec_show_cpu(),
            final(self).spec_enabled() == old(self).spec_enabled(),
    {
        self.show_ram = show;
    }
}

impl Module for StatsModule {
    closed spec fn spec_enabled(&self) -> bool {
        self.enabled
    }

    closed spec fn with_enabled(&self, enabled: bool) -> Self {
        StatsModule { enabled, ..*self }
    }

    /// An enabled module samples again and shows the parts that are switched
    /// on, for some CPU reading and some memory use; only the samples change.
    open spec fn ticked(&self, now_ms: u64, next: &Self, out: Option<Seq<char>>) -> bool {
        &&& next.spec_enabled() == self.spec_enabled()
        &&& next.spec_show_cpu() == self.spec_show_cpu()
        &&& next.spec_show_ram() == self.spec_show_ram()
        &&& (!self.spec_enabled() ==> out is None)
        &&& (self.spec_enabled() ==> exists|cpu: Seq<char>, used: u64, total: u64|
            out == #[trigger] stats_text(self.spec_show_cpu(), self.spec_show_ram(), cpu, used, total))
    }

    fn name(&self) -> &'static str {
        "Stats"
    }

    fn enabled(&self) -> (r: bool) {
        self.enabled
    }

    fn set_enabled(&mut self, enabled: bool) {
        self.enabled = enabled;
    }

    fn tick(&mut self, now_ms: u64) -> (r: Option<String>) {
        if !self.enabled {
            return None;
        }
        refresh_cpu_usage(&mut self.system);
        refresh_memory(&mut self.system);
        let cpu = global_cpu_usage_text(&self.system);
        let used = self.system.used_memory() / 1024 / 1024;
        let total = self.system.total_memory() / 1024 / 1024;
        let r = render_stats(self.show_cpu, self.show_ram, cpu.as_str(), used, total);
        assert(opt_view(r) == stats_text(self.spec_show_cpu(), self.spec_show_ram(), cpu@, used, total));
        r
    }
}

impl StatsModule {
    /// Switching the module on or off changes nothing else.
    pub proof fn lemma_with_enabled(&self, enabled: bool)
        ensures
            self.with_enabled(enabled).spec_enabled() == enabled,
            self.with_enabled(enabled).spec_show_cpu() == self.spec_show_cpu(),
            self.with_enabled(enabled).spec_show_ram() == self.spec_show_ram(),
    {
    }
}

} // verus!
