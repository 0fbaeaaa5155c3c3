//! Network throughput: the growth of the interfaces' cumulative byte
//! counters since the previous tick, shown as a rate.
use vstd::prelude::*;
use crate::modules::Module;
use crate::smalltext::{push_superscript, superscript};
use crate::text::{decimal, digit, digit_char, push_decimal, push_str, string_from_chars};

verus! {

/// `sysinfo::Networks`, carried opaquely as the handle that counters are
/// read from.
#[verifier::external_type_specification]
#[verifier::external_body]
pub struct ExNetworks(sysinfo::Networks);

/// `sysinfo::NetworkData`, one interface's counters, never read directly.
#[verifier::external_type_specification]
#[verifier::external_body]
pub struct ExNetworkData(sysinfo::NetworkData);

/// Relies on `sysinfo::Networks::new_with_refreshed_list`: the interfaces
/// with their counters read once.
#[verifier::external_body]
fn new_networks() -> sysinfo::Networks {
    sysinfo::Networks::new_with_refreshed_list()
}

/// Relies on `sysinfo::Networks::refresh`: reads the counters again and
/// drops the interfaces that are gone.
#[verifier::external_body]
fn refresh_networks(networks: &mut sysinfo::Networks) {
    networks.refresh(true)
}

/// Relies on `sysinfo::Networks::list` with `NetworkData::total_received`
/// and `total_transmitted`: each interface's cumulative received and
/// transmitted bytes, in no particular order.
#[verifier::external_body]
fn interface_counters(networks: &sysinfo::Networks) -> Vec<(u64, u64)> {
    networks.list().values().map(|d| (d.total_received(), d.total_transmitted())).collect()
}

pub struct NetworkModule {
    enabled: bool,
    networks: sysinfo::Networks,
    prev_rx: u64,
    prev_tx: u64,
}

/// Sum of the received (`tx == false`) or transmitted (`tx == true`) counters.
pub open spec fn counter_sum(c: Seq<(u64, u64)>, tx: bool) -> nat
    decreases c.len(),
{
    if c.len() == 0 {
        0
    } else {
        counter_sum(c.drop_last(), tx) + if tx { c.last().1 as nat } else { c.last().0 as nat }
    }
}

/// `n`, or `u64::MAX` where it is larger.
pub open spec fn clamp_u64(n: nat) -> u64 {
    if n > u64::MAX { u64::MAX } else { n as u64 }
}

/// The rate between two samples of a counter: the growth, or 0 where the
/// counter went back (it was reset).
pub open spec fn sample_rate(current: u64, previous: u64) -> nat {
    if current >= previous { (current - previous) as nat } else { 0 }
}

/// `n / d` rounded to the nearest integer, ties to even.
pub open spec fn div_round_even(n: nat, d: nat) -> nat {
    let q = n / d;
    let r = n % d;
    if 2 * r > d || (2 * r == d && q % 2 == 1) { q + 1 } else { q }
}

/// The rate `bytes` per second in the unit that fits: bytes, whole KiB above
/// 1024 bytes, and MiB with one decimal above 1 MiB.
pub open spec fn rate_text(bytes: u64) -> Seq<char> {
    if bytes > 1048576 {
        let tenths = div_round_even(bytes as nat * 10, 1048576);
        decimal(tenths / 10) + seq!['.', digit_char(tenths % 10), 'm', 'b', '/', 's']
    } else if bytes > 1024 {
        decimal(div_round_even(bytes as nat, 1024)) + seq!['k', 'b', '/', 's']
    } else {
        decimal(bytes as nat) + seq!['b', '/', 's']
    }
}

/// The module's text for the two rates.
pub open spec fn network_text(rx_rate: u64, tx_rate: u64) -> Seq<char> {
    seq!['N', 'E', 'T', ' '] + superscript(seq!['d', 'o', 'w', 'n', ':'] + rate_text(rx_rate)) + seq![' ']
        + superscript(seq!['u', 'p', ':'] + rate_text(tx_rate))
}

fn div_round_even_u128(n: u128, d: u128) -> (r: u128)
    requires
        0 < d < 0x1_0000_0000_0000_0000,
        n < 0x1_0000_0000_0000_0000_0000,
    ensures
        r as nat == div_round_even(n as nat, d as nat),
{
    let q = n / d;
    let r = n % d;
    assert(r < d);
    if 2 * r > d || (2 * r == d && q % 2 == 1) {
        q + 1
    } else {
        q
    }
}

/// Appends the rate `bytes` per second in the unit that fits.
pub fn push_rate(out: &mut Vec<char>, bytes: u64)
    ensures
        final(out)@ == old(out)@ + rate_text(bytes),
{
    if bytes > 1048576 {
        let tenths = div_round_even_u128(bytes as u128 * 10, 1048576);
        assert(tenths <= u64::MAX) by (nonlinear_arith)
            requires tenths as nat == div_round_even(bytes as nat * 10, 1048576), bytes <= u64::MAX;
        let t = tenths as u64;
        push_decimal(out, t / 10);
        out.push('.');
        out.push(digit(t % 10));
        out.push('m');
        out.push('b');
        out.push('/');
        out.push('s');
        assert(final(out)@ =~= old(out)@ + rate_text(bytes));
    } else if bytes > 1024 {
        let k = div_round_even_u128(bytes as u128, 1024);
        assert(k <= u64::MAX) by (nonlinear_arith)
            requires k as nat == div_round_even(bytes as nat, 1024), bytes <= u64::MAX;
        push_decimal(out, k as u64);
        out.push('k');
        out.push('b');
        out.push('/');
        out.push('s');
        assert(final(out)@ =~= old(out)@ + rate_text(bytes));
    } else {
        push_decimal(out, bytes);
        out.push('b');
        out.push('/');
        out.push('s');
        assert(final(out)@ =~= old(out)@ + rate_text(bytes));
    }
}

/// The rate `bytes` per second in the unit that fits.
pub fn format_rate(bytes: u64) -> (r: String)
    ensures
        r@ == rate_text(bytes),
{
    let mut out: Vec<char> = Vec::new();
    push_rate(&mut out, bytes);
    assert(out@ =~= rate_text(bytes));
    string_from_chars(&out)
}

/// The received and transmitted totals over all interfaces, each capped at
/// `u64::MAX`.
pub fn total_counters(c: &Vec<(u64, u64)>) -> (r: (u64, u64))
    ensures
        r.0 == clamp_u64(counter_sum(c@, false)),
        r.1 == clamp_u64(counter_sum(c@, true)),
{
    let mut rx: u64 = 0;
    let mut tx: u64 = 0;
    let mut i: usize = 0;
    while i < c.len()
        invariant
            i <= c@.len(),
            rx == clamp_u64(counter_sum(c@.take(i as int), false)),
            tx == clamp_u64(counter_sum(c@.take(i as int), true)),
        decreases c@.len() - i,
    {
        assert(c@.take(i + 1).drop_last() =~= c@.take(i as int));
        rx = rx.saturating_add(c[i].0);
        tx = tx.saturating_add(c[i].1);
        i = i + 1;
    }
    assert(c@.take(c@.len() as int) =~= c@);
    (rx, tx)
}

impl NetworkModule {
    pub closed spec fn spec_prev_rx(&self) -> u64 {
        self.prev_rx
    }

    pub closed spec fn spec_prev_tx(&self) -> u64 {
        self.prev_tx
    }

    /// Disabled, with both previous counters at zero.
    pub fn new() -> (r: Self)
        ensures
            !r.spec_enabled(),
            r.spec_prev_rx() == 0,
            r.spec_prev_tx() == 0,
    {
        NetworkModule { enabled: false, networks: new_networks(), prev_rx: 0, prev_tx: 0 }
    }

    /// Takes the counters `total_rx` and `total_tx` of this tick: returns the
    /// text for the rates since the previous sample and keeps the counters
    /// for the next one.
    pub fn record_sample(&mut self, total_rx: u64, total_tx: u64) -> (r: String)
        ensures
            r@ == network_text(
                sample_rate(total_rx, old(self).spec_prev_rx()) as u64,
                sample_rate(total_tx, old(self).spec_prev_tx()) as u64,
            ),
            final(self).spec_prev_rx() == total_rx,
            final(self).spec_prev_tx() == total_tx,
            final(self).spec_enabled() == old(self).spec_enabled(),
    {
        let rx_rate = total_rx.saturating_sub(self.prev_rx);
        let tx_rate = total_tx.saturating_sub(self.prev_tx);
        self.prev_rx = total_rx;
        self.prev_tx = total_tx;
        let mut out: Vec<char> = Vec::new();
        push_str(&mut out, "NET ");
        proof { reveal_strlit("NET "); }
        let mut down: Vec<char> = Vec::new();
        push_str(&mut down, "down:");
        proof { reveal_strlit("down:"); }
        push_rate(&mut down, rx_rate);
        push_superscript(&mut out, &down);
        out.push(' ');
        let mut up: Vec<char> = Vec::new();
        push_str(&mut up, "up:");
        proof { reveal_strlit("up:"); }
        push_rate(&mut up, tx_rate);
        push_superscript(&mut out, &up);
        assert(out@ =~= network_text(rx_rate, tx_rate));
        string_from_chars(&out)
    }
}

/// A counter that went back between samples (it was reset) gives a rate of
/// zero, never a negative one.
pub proof fn lemma_rate_after_reset(current: u64, previous: u64)
    requires
        current < previous,
    ensures
        sample_rate(current, previous) == 0,
{
}

impl Module for NetworkModule {
    closed spec fn spec_enabled(&self) -> bool {
        self.enabled
    }

    closed spec fn with_enabled(&self, enabled: bool) -> Self {
        NetworkModule { enabled, ..*self }
    }

    /// An enabled module reads new counters, shows the rates since the
    /// previous ones, and keeps the new ones.
    open spec fn ticked(&self, now_ms: u64, next: &Self, out: Option<Seq<char>>) -> bool {
        if !self.spec_enabled() {
            out is None && *next == *self
        } else {
            &&& next.spec_enabled() == self.spec_enabled()
            &&& out == Some(network_text(
                sample_rate(next.spec_prev_rx(), self.spec_prev_rx()) as u64,
                sample_rate(next.spec_prev_tx(), self.spec_prev_tx()) as u64,
            ))
        }
    }

    fn name(&self) -> &'static str {
        "Network"
    }

    fn enabled(&self) -> (r: bool) {
        self.enabled
    }

    fn set_enabled(&mut self, enabled: bool) {
        self.enabled = enabled;
    }

    fn tick(&mut self, now_ms: u64) -> (r: Option<String>) {
        if !self.enabled {
            return None;
        }
        refresh_networks(&mut self.networks);
        let counters = interface_counters(&self.networks);
        let (rx, tx) = total_counters(&counters);
        Some(self.record_sample(rx, tx))
    }
}

impl NetworkModule {
    /// Switching the module on or off changes nothing else.
    pub proof fn lemma_with_enabled(&self, enabled: bool)
        ensures
            self.with_enabled(enabled).spec_enabled() == enabled,
            self.with_enabled(enabled).spec_prev_rx() == self.spec_prev_rx(),
            self.with_enabled(enabled).spec_prev_tx() == self.spec_prev_tx(),
    {
    }
}

} // verus!
