//! Heart rate: shows the latest reading that an outside provider has put in
//! a shared cell, without waiting for a fresh one.
use vstd::prelude::*;
use crate::modules::{opt_view, Module};
use crate::text::{decimal, push_decimal, string_from_chars};

verus! {

/// `std::sync::Mutex`, carried opaquely inside the reading cell.
#[verifier::external_type_specification]
#[verifier::external_body]
#[verifier::reject_recursive_types(T)]
pub struct ExMutex<T: ?Sized>(std::sync::Mutex<T>);

/// A cell that holds the latest heart-rate reading, if any, shared with the
/// provider that writes it.
pub type BpmCell = std::sync::Arc<std::sync::Mutex<Option<u32>>>;

pub struct HeartrateModule {
    enabled: bool,
    bpm: BpmCell,
    last_bpm: Option<u32>,
    token: String,
}

/// The text shown for a reading of `bpm` beats per minute.
pub open spec fn bpm_text(bpm: u32) -> Seq<char> {
    decimal(bpm as nat) + seq![' ', 'B', 'P', 'M']
}

/// Relies on `Mutex::new` and `Arc::new`: a fresh cell with no reading.
#[verifier::external_body]
fn new_bpm_cell() -> BpmCell {
    std::sync::Arc::new(std::sync::Mutex::new(None))
}

/// Relies on `Mutex::try_lock`: the value the cell holds now, or `None`
/// where the writer holds the lock or the lock is poisoned; it never blocks.
/// It can change between calls, as another thread writes.
#[verifier::external_body]
fn try_read_bpm_cell(cell: &BpmCell) -> Option<Option<u32>> {
    match cell.try_lock() {
        Ok(guard) => Some(*guard),
        Err(_) => None,
    }
}

/// Relies on `Mutex::lock`: stores `value` unless the lock is poisoned.
#[verifier::external_body]
fn write_bpm_cell(cell: &BpmCell, value: Option<u32>) {
    if let Ok(mut guard) = cell.lock() {
        *guard = value;
    }
}

/// Relies on `Arc::clone`: another handle to the same cell.
#[verifier::external_body]
fn share_bpm_cell(cell: &BpmCell) -> BpmCell {
    std::sync::Arc::clone(cell)
}

/// The text shown for an optional reading.
pub open spec fn bpm_output(bpm: Option<u32>) -> Option<Seq<char>> {
    match bpm {
        Some(v) => Some(bpm_text(v)),
        None => None,
    }
}

/// The text for a reading: "<bpm> BPM", or nothing when there is no reading.
pub fn render_bpm(bpm: Option<u32>) -> (r: Option<String>)
    ensures
        opt_view(r) == bpm_output(bpm),
{
    match bpm {
        Some(v) => {
            let mut out: Vec<char> = Vec::new();
            push_decimal(&mut out, v as u64);
            out.push(' ');
            out.push('B');
            out.push('P');
            out.push('M');
            assert(out@ =~= bpm_text(v));
            Some(string_from_chars(&out))
        },
        None => None,
    }
}

impl HeartrateModule {
    pub closed spec fn spec_token(&self) -> Seq<char> {
        self.token@
    }

    /// The latest reading that a tick observed in the cell.
    pub closed spec fn spec_last_bpm(&self) -> Option<u32> {
        self.last_bpm
    }

    /// Disabled, with an empty token and a fresh cell with no reading.
    pub fn new() -> (r: Self)
        ensures
            !r.spec_enabled(),
            r.spec_token() == Seq::<char>::empty(),
            r.spec_last_bpm() is None,
    {
        HeartrateModule { enabled: false, bpm: new_bpm_cell(), last_bpm: None, token: String::new() }
    }

    pub fn set_token(&mut self, token: String)
        ensures
            final(self).spec_token() == token@,
            final(self).spec_enabled() == old(self).spec_enabled(),
            final(self).spec_last_bpm() == old(self).spec_last_bpm(),
    {
        self.token = token;
    }

    pub fn token(&self) -> (r: &str)
        ensures
            r@ == self.spec_token(),
    {
        self.token.as_str()
    }

    /// A handle to the reading cell, for the provider that writes it.
    pub fn bpm_handle(&self) -> BpmCell {
        share_bpm_cell(&self.bpm)
    }

    /// Stores the latest reading.
    pub fn set_bpm(&self, value: Option<u32>) {
        write_bpm_cell(&self.bpm, value);
    }
}

impl Module for HeartrateModule {
    closed spec fn spec_enabled(&self) -> bool {
        self.enabled
    }

    closed spec fn with_enabled(&self, enabled: bool) -> Self {
        HeartrateModule { enabled, ..*self }
    }

    /// An enabled module shows "<bpm> BPM" for whatever reading the cell
    /// holds, or nothing when it holds none; it never changes its state.
    /// An enabled module reads the cell without waiting: it keeps what it
    /// finds there, or its last reading where the cell is busy, and shows
    /// "<bpm> BPM" for that reading, or nothing when there is none.
    open spec fn ticked(&self, now_ms: u64, next: &Self, out: Option<Seq<char>>) -> bool {
        if !self.spec_enabled() {
            out is None && *next == *self
        } else {
            &&& next.spec_enabled() == self.spec_enabled()
            &&& next.spec_token() == self.spec_token()
            &&& out == bpm_output(next.spec_last_bpm())
        }
    }

    fn name(&self) -> &'static str {
        "Heart Rate"
    }

    fn enabled(&self) -> (r: bool) {
        self.enabled
    }

    fn set_enabled(&mut self, enabled: bool) {
        self.enabled = enabled;
    }

    fn tick(&mut self, now_ms: u64) -> (r: Option<String>) {
        if !self.enabled {
            return None;
        }
        match try_read_bpm_cell(&self.bpm) {
            Some(v) => {
                self.last_bpm = v;
            },
            None => {},
        }
        render_bpm(self.last_bpm)
    }
}

impl HeartrateModule {
    /// Switching the module on or off changes nothing else.
    pub proof fn lemma_with_enabled(&self, enabled: bool)
        ensures
            self.with_enabled(enabled).spec_enabled() == enabled,
            self.with_enabled(enabled).spec_token() == self.spec_token(),
            self.with_enabled(enabled).spec_last_bpm() == self.spec_last_bpm(),
    {
    }
}

} // verus!
