//! Facts about the machine, worked out once: operating system, CPU, GPU and
//! installed memory, shown in turn like the status lines.
use vstd::prelude::*;
use crate::modules::{lemma_rotation_after, lemma_rotation_cycle, opt_view, rotate, rotation_after, rotation_next, rotation_shown, Module};
use crate::modules::stats::new_system;
use crate::smalltext::{superscript, to_superscript};
use crate::text::{
    chars_of, collapse_white_space, collapsed_white_space, decimal, find_line_with_prefix, has_prefix,
    is_digit, is_first_prefixed, lines_of, occurs_at, push_chars, push_decimal, remove_all, removed_all,
    split_lines, string_from_chars, trim, trim_end, trimmed, trimmed_end, views,
};

verus! {

/// The lowercase form of a string, as `str::to_lowercase` gives it.
pub uninterp spec fn lowercase_of(s: Seq<char>) -> Seq<char>;

/// Relies on `str::to_lowercase`: the Unicode lowercase mapping, which
/// depends on the characters alone.
#[verifier::external_body]
fn lowercase(s: &str) -> (r: String)
    ensures
        r@ == lowercase_of(s@),
{
    s.to_lowercase()
}

/// Relies on `sysinfo::System::name`: the operating system's name, where
/// known.
#[verifier::external_body]
fn os_name() -> Option<String> {
    sysinfo::System::name()
}

/// Relies on `sysinfo::System::os_version`: the operating system's version,
/// where known.
#[verifier::external_body]
fn os_version() -> Option<String> {
    sysinfo::System::os_version()
}

/// Relies on `sysinfo::System::cpus` and `sysinfo::Cpu::brand`: the brand
/// string of the first CPU, where there is one.
#[verifier::external_body]
fn first_cpu_brand(sys: &sysinfo::System) -> Option<String> {
    sys.cpus().first().map(|c| c.brand().to_string())
}

pub struct SystemDetailsModule {
    enabled: bool,
    parts: Vec<String>,
    index: usize,
    tick_count: usize,
}

/// A GPU model name without vendor words and brackets, its words joined by
/// single spaces.
pub open spec fn clean_gpu(name: Seq<char>) -> Seq<char> {
    let s = remove_all(name, "NVIDIA"@);
    let s = remove_all(s, "GeForce"@);
    let s = remove_all(s, "Advanced Micro Devices, Inc."@);
    let s = remove_all(s, "Advanced Micro Devices"@);
    let s = remove_all(s, "AMD"@);
    let s = remove_all(s, "["@);
    let s = remove_all(s, "]"@);
    collapse_white_space(s)
}

fn remove_word(s: &Vec<char>, word: &str) -> (r: Vec<char>)
    ensures
        r@ == remove_all(s@, word@),
{
    let w = chars_of(word);
    removed_all(s, &w)
}

pub fn clean_gpu_name(name: &str) -> (r: String)
    ensures
        r@ == clean_gpu(name@),
{
    let s = chars_of(name);
    let s = remove_word(&s, "NVIDIA");
    let s = remove_word(&s, "GeForce");
    let s = remove_word(&s, "Advanced Micro Devices, Inc.");
    let s = remove_word(&s, "Advanced Micro Devices");
    let s = remove_word(&s, "AMD");
    let s = remove_word(&s, "[");
    let s = remove_word(&s, "]");
    let s = collapsed_white_space(&s);
    string_from_chars(&s)
}

/// `s` without any number of leading copies of `p`.
pub open spec fn strip_prefixes(s: Seq<char>, p: Seq<char>) -> Seq<char>
    decreases s.len(),
{
    if p.len() > 0 && has_prefix(s, p) {
        strip_prefixes(s.skip(p.len() as int), p)
    } else {
        s
    }
}

fn stripped_prefixes(s: &Vec<char>, p: &Vec<char>) -> (r: Vec<char>)
    ensures
        r@ == strip_prefixes(s@, p@),
{
    let mut i: usize = 0;
    assert(s@.skip(0) =~= s@);
    while p.len() > 0 && i <= s.len() && occurs_at(s, p, i)
        invariant
            i <= s@.len(),
            strip_prefixes(s@, p@) == strip_prefixes(s@.skip(i as int), p@),
        decreases s@.len() - i,
    {
        assert(s@.skip(i as int).skip(p@.len() as int) =~= s@.skip(i + p@.len()));
        i = i + p.len();
    }
    let mut r: Vec<char> = Vec::new();
    let mut j: usize = i;
    while j < s.len()
        invariant
            i <= j <= s@.len(),
            r@ == s@.subrange(i as int, j as int),
        decreases s@.len() - j,
    {
        r.push(s[j]);
        j = j + 1;
        assert(r@ =~= s@.subrange(i as int, j as int));
    }
    assert(r@ =~= s@.skip(i as int));
    r
}

/// The GPU model from the NVIDIA driver's information file: the first line
/// that starts with "Model:", without that label, trimmed and cleaned.
pub open spec fn nvidia_gpu_model(info: Seq<char>) -> Option<Seq<char>> {
    let ls = lines_of(info);
    if exists|i: int| is_first_prefixed(ls, "Model:"@, i) {
        let i = choose|i: int| is_first_prefixed(ls, "Model:"@, i);
        Some(clean_gpu(trim(strip_prefixes(ls[i], "Model:"@))))
    } else {
        None
    }
}

pub fn gpu_from_nvidia_info(info: &str) -> (r: Option<String>)
    ensures
        opt_view(r) == nvidia_gpu_model(info@),
{
    let lines = split_lines(info);
    let label = chars_of("Model:");
    let ghost ls = views(lines@);
    match find_line_with_prefix(&lines, &label) {
        Some(i) => {
            let ghost k = choose|k: int| is_first_prefixed(ls, "Model:"@, k);
            assert(k == i) by {
                if k < i {
                    assert(!has_prefix(ls[k], label@));
                } else if k > i {
                    assert(!has_prefix(ls[i as int], label@));
                }
            }
            assert(ls[i as int] == lines@[i as int]@);
            let raw = stripped_prefixes(&lines[i], &label);
            let raw = trimmed(&raw);
            let raw = string_from_chars(&raw);
            Some(clean_gpu_name(raw.as_str()))
        },
        None => {
            assert(!exists|k: int| is_first_prefixed(ls, "Model:"@, k));
            None
        },
    }
}

/// `p` occurs in `s` at index `i`.
pub open spec fn occurs(s: Seq<char>, p: Seq<char>, i: int) -> bool {
    0 <= i <= s.len() && has_prefix(s.skip(i), p)
}

/// The first occurrence of `p` in `s` is at index `i`.
pub open spec fn is_first_occurrence(s: Seq<char>, p: Seq<char>, i: int) -> bool {
    occurs(s, p, i) && forall|j: int| 0 <= j < i ==> !occurs(s, p, j)
}

pub open spec fn contains(s: Seq<char>, p: Seq<char>) -> bool {
    exists|i: int| occurs(s, p, i)
}

/// The index of the first occurrence of `p` in `s`.
pub fn find_sub(s: &Vec<char>, p: &Vec<char>) -> (r: Option<usize>)
    ensures
        match r {
            Some(i) => is_first_occurrence(s@, p@, i as int),
            None => !contains(s@, p@),
        },
{
    let n = s.len();
    let mut i: usize = 0;
    while i < n
        invariant
            n == s@.len(),
            i <= n,
            forall|j: int| 0 <= j < i ==> !occurs(s@, p@, j),
        decreases n - i,
    {
        if occurs_at(s, p, i) {
            return Some(i);
        }
        i = i + 1;
    }
    if occurs_at(s, p, n) {
        return Some(n);
    }
    assert forall|j: int| !occurs(s@, p@, j) by {
        if 0 <= j <= s@.len() && j != n {
            assert(j < i);
        }
    }
    None
}

/// An `lspci` line that names a display controller, with a ": " before its
/// description.
pub open spec fn is_gpu_line(line: Seq<char>) -> bool {
    (contains(line, "VGA"@) || contains(line, "3D controller"@)) && contains(line, ": "@)
}

pub open spec fn is_first_gpu_line(ls: Seq<Seq<char>>, i: int) -> bool {
    0 <= i < ls.len() && is_gpu_line(ls[i]) && forall|j: int| 0 <= j < i ==> !is_gpu_line(#[trigger] ls[j])
}

/// The GPU from `lspci` output: the description after the first ": " of the
/// first line that names a VGA or 3D controller, cleaned.
pub open spec fn lspci_gpu_model(text: Seq<char>) -> Option<Seq<char>> {
    let ls = lines_of(text);
    if exists|i: int| is_first_gpu_line(ls, i) {
        let line = ls[choose|i: int| is_first_gpu_line(ls, i)];
        let k = choose|k: int| is_first_occurrence(line, ": "@, k);
        Some(clean_gpu(line.skip(k + 2)))
    } else {
        None
    }
}

proof fn lemma_first_occurrence_unique(s: Seq<char>, p: Seq<char>, a: int, b: int)
    requires
        is_first_occurrence(s, p, a),
        is_first_occurrence(s, p, b),
    ensures
        a == b,
{
}

pub fn gpu_from_lspci(text: &str) -> (r: Option<String>)
    ensures
        opt_view(r) == lspci_gpu_model(text@),
{
    let lines = split_lines(text);
    let ghost ls = views(lines@);
    let vga = chars_of("VGA");
    let ctl = chars_of("3D controller");
    let sep = chars_of(": ");
    proof { reveal_strlit(": "); }
    let mut i: usize = 0;
    while i < lines.len()
        invariant
            i <= lines@.len(),
            ls == views(lines@),
            ls == lines_of(text@),
            vga@ == "VGA"@,
            ctl@ == "3D controller"@,
            sep@ == ": "@,
            sep@.len() == 2,
            forall|j: int| 0 <= j < i ==> !is_gpu_line(#[trigger] ls[j]),
        decreases lines@.len() - i,
    {
        let line = &lines[i];
        assert(ls[i as int] == line@);
        let has_vga = find_sub(line, &vga);
        let has_ctl = find_sub(line, &ctl);
        if has_vga.is_some() || has_ctl.is_some() {
            match find_sub(line, &sep) {
                Some(pos) => {
                    assert(is_first_gpu_line(ls, i as int));
                    let ghost c = choose|c: int| is_first_gpu_line(ls, c);
                    assert(c == i) by {
                        if c < i {
                            assert(!is_gpu_line(ls[c]));
                        } else if c > i {
                            assert(!is_gpu_line(ls[i as int]));
                        }
                    }
                    let ghost k = choose|k: int| is_first_occurrence(line@, ": "@, k);
                    proof { lemma_first_occurrence_unique(line@, ": "@, k, pos as int); }
                    let ll = line.len();
                    assert(has_prefix(line@.skip(pos as int), sep@));
                    assert(pos + 2 <= line@.len());
                    let mut rest: Vec<char> = Vec::new();
                    let mut j: usize = pos + 2;
                    while j < line.len()
                        invariant
                            pos + 2 <= j <= line@.len(),
                            rest@ == line@.subrange(pos + 2, j as int),
                        decreases line@.len() - j,
                    {
                        rest.push(line[j]);
                        j = j + 1;
                        assert(rest@ =~= line@.subrange(pos + 2, j as int));
                    }
                    assert(rest@ =~= line@.skip(pos + 2));
                    let rest = string_from_chars(&rest);
                    let r = clean_gpu_name(rest.as_str());
                    assert(lspci_gpu_model(text@) == Some(clean_gpu(line@.skip(pos + 2))));
                    return Some(r);
                },
                None => {},
            }
        }
        i = i + 1;
    }
    assert(!exists|c: int| is_first_gpu_line(ls, c));
    None
}

/// `c` equals the lowercase pattern character `l`, ignoring ASCII case.
pub open spec fn char_matches_ci(c: char, l: char) -> bool {
    c == l || ('a' <= l && l <= 'z' && c as u32 == l as u32 - 32)
}

/// The lowercase pattern `p` occurs in `s` at index `i`, ignoring ASCII case.
pub open spec fn occurs_ci(s: Seq<char>, p: Seq<char>, i: int) -> bool {
    &&& 0 <= i
    &&& i + p.len() <= s.len()
    &&& forall|k: int| 0 <= k < p.len() ==> char_matches_ci(#[trigger] s[i + k], p[k])
}

pub open spec fn is_first_occurrence_ci(s: Seq<char>, p: Seq<char>, i: int) -> bool {
    occurs_ci(s, p, i) && forall|j: int| 0 <= j < i ==> !occurs_ci(s, p, j)
}

fn occurs_ci_at(s: &Vec<char>, p: &Vec<char>, i: usize) -> (r: bool)
    requires
        i <= s@.len(),
    ensures
        r == occurs_ci(s@, p@, i as int),
{
    let n = s.len();
    if p.len() > n - i {
        return false;
    }
    let mut k: usize = 0;
    while k < p.len()
        invariant
            n == s@.len(),
            i + p@.len() <= n,
            k <= p@.len(),
            forall|m: int| 0 <= m < k ==> char_matches_ci(#[trigger] s@[i + m], p@[m]),
        decreases p@.len() - k,
    {
        let c = s[i + k];
        let l = p[k];
        if !(c == l || ('a' <= l && l <= 'z' && c as u32 == l as u32 - 32)) {
            assert(!char_matches_ci(s@[i + k], p@[k as int]));
            return false;
        }
        k = k + 1;
    }
    true
}

fn find_ci(s: &Vec<char>, p: &Vec<char>) -> (r: Option<usize>)
    ensures
        match r {
            Some(i) => is_first_occurrence_ci(s@, p@, i as int),
            None => forall|j: int| !occurs_ci(s@, p@, j),
        },
{
    let n = s.len();
    let mut i: usize = 0;
    while i < n
        invariant
            n == s@.len(),
            i <= n,
            forall|j: int| 0 <= j < i ==> !occurs_ci(s@, p@, j),
        decreases n - i,
    {
        if occurs_ci_at(s, p, i) {
            return Some(i);
        }
        i = i + 1;
    }
    if occurs_ci_at(s, p, n) {
        return Some(n);
    }
    assert forall|j: int| !occurs_ci(s@, p@, j) by {
        if 0 <= j < n {
            assert(j < i);
        }
    }
    None
}

/// `s` without its trailing ASCII digits.
pub open spec fn trim_end_digits(s: Seq<char>) -> Seq<char>
    decreases s.len(),
{
    if s.len() > 0 && is_digit(s.last()) {
        trim_end_digits(s.drop_last())
    } else {
        s
    }
}

fn trimmed_end_digits(s: &Vec<char>) -> (r: Vec<char>)
    ensures
        r@ == trim_end_digits(s@),
{
    let mut n: usize = s.len();
    assert(s@.take(n as int) =~= s@);
    while n > 0 && '0' <= s[n - 1] && s[n - 1] <= '9'
        invariant
            n <= s@.len(),
            trim_end_digits(s@) == trim_end_digits(s@.take(n as int)),
        decreases n,
    {
        assert(s@.take(n as int).drop_last() =~= s@.take(n - 1));
        n = n - 1;
    }
    let mut r: Vec<char> = Vec::new();
    let mut j: usize = 0;
    while j < n
        invariant
            j <= n <= s@.len(),
            r@ == s@.take(j as int),
        decreases n - j,
    {
        r.push(s[j]);
        j = j + 1;
        assert(r@ =~= s@.take(j as int));
    }
    r
}

/// The CPU name shown for a brand string: trimmed, and cut before a core
/// count such as "12-Core Processor" where something is left; "Unknown" for
/// a blank brand.
pub open spec fn cpu_name(brand: Seq<char>) -> Seq<char> {
    let b = trim(brand);
    if b.len() == 0 {
        "Unknown"@
    } else if exists|i: int| is_first_occurrence_ci(b, "-core"@, i) {
        let i = choose|i: int| is_first_occurrence_ci(b, "-core"@, i);
        let t = trim_end(trim_end_digits(b.take(i)));
        if t.len() > 0 {
            t
        } else {
            b
        }
    } else {
        b
    }
}

proof fn lemma_first_occurrence_ci_unique(s: Seq<char>, p: Seq<char>, a: int, b: int)
    requires
        is_first_occurrence_ci(s, p, a),
        is_first_occurrence_ci(s, p, b),
    ensures
        a == b,
{
}

pub fn cpu_name_from_brand(brand: &str) -> (r: String)
    ensures
        r@ == cpu_name(brand@),
{
    let all = chars_of(brand);
    let b = trimmed(&all);
    if b.len() == 0 {
        let u = chars_of("Unknown");
        return string_from_chars(&u);
    }
    let core = chars_of("-core");
    match find_ci(&b, &core) {
        Some(pos) => {
            let ghost k = choose|k: int| is_first_occurrence_ci(b@, "-core"@, k);
            proof { lemma_first_occurrence_ci_unique(b@, core@, k, pos as int); }
            let mut prefix: Vec<char> = Vec::new();
            let mut j: usize = 0;
            while j < pos
                invariant
                    pos <= b@.len(),
                    j <= pos,
                    prefix@ == b@.take(j as int),
                decreases pos - j,
            {
                prefix.push(b[j]);
                j = j + 1;
                assert(prefix@ =~= b@.take(j as int));
            }
            let t = trimmed_end_digits(&prefix);
            let t = trimmed_end(&t);
            if t.len() > 0 {
                string_from_chars(&t)
            } else {
                string_from_chars(&b)
            }
        },
        None => string_from_chars(&b),
    }
}

/// Bytes in a GiB.
pub const GIB: u64 = 1073741824;

pub open spec fn pow2_nat(k: nat) -> nat
    decreases k,
{
    if k == 0 {
        1
    } else {
        2 * pow2_nat((k - 1) as nat)
    }
}

/// `gb` is the installed memory of `bytes` in GiB, rounded up to a power of
/// two: the least power of two (1 or more) whose GiB hold `bytes`.
pub open spec fn is_rounded_ram_gb(bytes: u64, gb: nat) -> bool {
    exists|k: nat|
        #![trigger pow2_nat(k)]
        gb == pow2_nat(k) && bytes <= gb * GIB && (k == 0 || pow2_nat((k - 1) as nat) * GIB < bytes)
}

pub fn ram_gb(bytes: u64) -> (r: u64)
    ensures
        is_rounded_ram_gb(bytes, r as nat),
{
    let mut p: u64 = 1;
    let ghost mut k: nat = 0;
    while (p as u128) * (GIB as u128) < bytes as u128
        invariant
            p as nat == pow2_nat(k),
            k == 0 || pow2_nat((k - 1) as nat) * GIB < bytes,
            1 <= p <= 0x8_0000_0000,
        decreases 0x8_0000_0000 - p,
    {
        assert(p < 0x4_0000_0000) by (nonlinear_arith)
            requires (p as int) * (GIB as int) < bytes as int, bytes <= u64::MAX, GIB == 1073741824;
        p = p * 2;
        proof {
            k = k + 1;
        }
    }
    assert(pow2_nat(k) == p);
    p
}

/// The four facts shown, in order.
pub open spec fn details_parts(
    os_name: Seq<char>,
    os_version: Seq<char>,
    cpu_brand: Seq<char>,
    gpu: Seq<char>,
    gb: nat,
) -> Seq<Seq<char>> {
    seq![
        superscript(lowercase_of(os_name + seq![' '] + trim(remove_all(os_version, "Rolling"@)))),
        superscript(lowercase_of(cpu_name(cpu_brand))),
        superscript(lowercase_of(gpu)),
        superscript(decimal(gb) + seq!['g', 'b']),
    ]
}


impl SystemDetailsModule {
    pub closed spec fn spec_parts(&self) -> Seq<Seq<char>> {
        self.parts@.map_values(|s: String| s@)
    }

    pub closed spec fn spec_index(&self) -> nat {
        self.index as nat
    }

    pub closed spec fn spec_tick_count(&self) -> nat {
        self.tick_count as nat
    }

    /// Disabled, at the start of its rotation, with the facts worked out from
    /// the given readings: OS name and version, CPU brand string, GPU name,
    /// and installed memory in bytes.
    pub fn from_facts(os_name: &str, os_version: &str, cpu_brand: &str, gpu: &str, total_memory_bytes: u64) -> (r: Self)
        ensures
            !r.spec_enabled(),
            r.spec_index() == 0,
            r.spec_tick_count() == 0,
            exists|gb: nat|
                is_rounded_ram_gb(total_memory_bytes, gb) && r.spec_parts() == #[trigger] details_parts(
                    os_name@,
                    os_version@,
                    cpu_brand@,
                    gpu@,
                    gb,
                ),
    {
        let mut os_chars: Vec<char> = chars_of(os_name);
        os_chars.push(' ');
        let version = chars_of(os_version);
        let version = remove_word(&version, "Rolling");
        let version = trimmed(&version);
        push_chars(&mut os_chars, &version);
        assert(os_chars@ =~= os_name@ + seq![' '] + trim(remove_all(os_version@, "Rolling"@)));
        let os = string_from_chars(&os_chars);
        let os = lowercase(os.as_str());
        let cpu = cpu_name_from_brand(cpu_brand);
        let cpu = lowercase(cpu.as_str());
        let gpu_lower = lowercase(gpu);
        let gb = ram_gb(total_memory_bytes);
        let mut ram: Vec<char> = Vec::new();
        push_decimal(&mut ram, gb);
        ram.push('g');
        ram.push('b');
        let ram = string_from_chars(&ram);
        let mut parts: Vec<String> = Vec::new();
        parts.push(to_superscript(os.as_str()));
        parts.push(to_superscript(cpu.as_str()));
        parts.push(to_superscript(gpu_lower.as_str()));
        parts.push(to_superscript(ram.as_str()));
        let r = SystemDetailsModule { enabled: false, parts, index: 0, tick_count: 0 };
        assert(ram@ =~= decimal(gb as nat) + seq!['g', 'b']);
        assert(r.spec_parts() =~= details_parts(os_name@, os_version@, cpu_brand@, gpu@, gb as nat));
        r
    }

    /// Works out the facts from this machine, with the GPU name found by the
    /// caller.
    pub fn new(gpu: &str) -> (r: Self)
        ensures
            !r.spec_enabled(),
            r.spec_index() == 0,
            r.spec_tick_count() == 0,
            r.spec_parts().len() == 4,
            exists|name: Seq<char>, version: Seq<char>, brand: Seq<char>, bytes: u64, gb: nat|
                #![trigger is_rounded_ram_gb(bytes, gb), details_parts(name, version, brand, gpu@, gb)]
                is_rounded_ram_gb(bytes, gb) && r.spec_parts() == details_parts(name, version, brand, gpu@, gb),
    {
        let sys = new_system();
        let name = match os_name() {
            Some(n) => n,
            None => String::new(),
        };
        let version = match os_version() {
            Some(v) => v,
            None => String::new(),
        };
        let brand = match first_cpu_brand(&sys) {
            Some(b) => b,
            None => String::new(),
        };
        let total = sys.total_memory();
        let r = SystemDetailsModule::from_facts(name.as_str(), version.as_str(), brand.as_str(), gpu, total);
        r
    }
}

impl Module for SystemDetailsModule {
    closed spec fn spec_enabled(&self) -> bool {
        self.enabled
    }

    closed spec fn with_enabled(&self, enabled: bool) -> Self {
        SystemDetailsModule { enabled, ..*self }
    }

    /// Shows the fact under the cursor, then moves the rotation on by one
    /// tick.
    open spec fn ticked(&self, now_ms: u64, next: &Self, out: Option<Seq<char>>) -> bool {
        let parts = self.spec_parts();
        if !self.spec_enabled() || parts.len() == 0 {
            out is None && *next == *self
        } else {
            let n = parts.len();
            let nx = rotation_next(self.spec_index(), self.spec_tick_count(), n);
            &&& out == Some(parts[rotation_shown(self.spec_index(), n) as int])
            &&& next.spec_enabled() == self.spec_enabled()
            &&& next.spec_parts() == self.spec_parts()
            &&& next.spec_index() == nx.0
            &&& next.spec_tick_count() == nx.1
        }
    }

    fn name(&self) -> &'static str {
        "System Details"
    }

    fn enabled(&self) -> (r: bool) {
        self.enabled
    }

    fn set_enabled(&mut self, enabled: bool) {
        self.enabled = enabled;
    }

    fn tick(&mut self, now_ms: u64) -> (r: Option<String>) {
        if !self.enabled || self.parts.len() == 0 {
            return None;
        }
        let (shown, index, count) = rotate(self.index, self.tick_count, self.parts.len());
        self.index = index;
        self.tick_count = count;
        let part = self.parts[shown].clone();
        assert(self.spec_parts()[shown as int] == self.parts@[shown as int]@);
        Some(part)
    }
}

/// Along a run of enabled ticks from the start of the rotation, the
/// facts stay as they are, the cursor after `k` ticks is where
/// `rotation_after` puts it, and tick `k` shows entry `((k - 1) / 4) mod n`.
pub proof fn lemma_details_run(states: Seq<SystemDetailsModule>, times: Seq<u64>, outs: Seq<Option<Seq<char>>>, k: nat)
    requires
        k < states.len(),
        times.len() == states.len() - 1,
        outs.len() == states.len() - 1,
        states[0].spec_enabled(),
        states[0].spec_parts().len() > 0,
        states[0].spec_index() == 0,
        states[0].spec_tick_count() == 0,
        forall|j: int| 0 <= j < states.len() - 1 ==> #[trigger] states[j].ticked(times[j], &states[j + 1], outs[j]),
    ensures
        states[k as int].spec_enabled(),
        states[k as int].spec_parts() == states[0].spec_parts(),
        (states[k as int].spec_index(), states[k as int].spec_tick_count()) == rotation_after(states[0].spec_parts().len(), k),
        k > 0 ==> outs[k - 1] == Some(states[0].spec_parts()[(((k - 1) as nat / 4) % states[0].spec_parts().len()) as int]),
    decreases k,
{
    if k > 0 {
        lemma_details_run(states, times, outs, (k - 1) as nat);
        let j = k - 1;
        assert(states[j].ticked(times[j], &states[j + 1], outs[j]));
        assert(j + 1 == k);
        let n = states[0].spec_parts().len();
        lemma_rotation_after(n, j as nat);
        assert((j as nat / 4) % n < n) by (nonlinear_arith)
            requires n > 0;
    }
}

/// Enabled, from the start of the rotation over `n` entries, the cursor is
/// back on the first entry with no dwell after exactly `4 * n` ticks.
pub proof fn lemma_details_cycle(states: Seq<SystemDetailsModule>, times: Seq<u64>, outs: Seq<Option<Seq<char>>>)
    requires
        states.len() == 4 * states[0].spec_parts().len() + 1,
        times.len() == states.len() - 1,
        outs.len() == states.len() - 1,
        states[0].spec_enabled(),
        states[0].spec_parts().len() > 0,
        states[0].spec_index() == 0,
        states[0].spec_tick_count() == 0,
        forall|j: int| 0 <= j < states.len() - 1 ==> #[trigger] states[j].ticked(times[j], &states[j + 1], outs[j]),
    ensures
        states.last().spec_index() == 0,
        states.last().spec_tick_count() == 0,
{
    let n = states[0].spec_parts().len();
    lemma_details_run(states, times, outs, 4 * n);
    lemma_rotation_cycle(n);
}

impl SystemDetailsModule {
    /// Switching the module off and on again gives back the module as it
    /// was switched on; as disabled ticks change nothing, a disabled period
    /// moves no rotation.
    pub proof fn lemma_pause(&self)
        ensures
            self.with_enabled(false).with_enabled(true) == self.with_enabled(true),
    {
    }

    /// Switching the module on or off changes nothing else.
    pub proof fn lemma_with_enabled(&self, enabled: bool)
        ensures
            self.with_enabled(enabled).spec_enabled() == enabled,
            self.with_enabled(enabled).spec_parts() == self.spec_parts(),
            self.with_enabled(enabled).spec_index() == self.spec_index(),
            self.with_enabled(enabled).spec_tick_count() == self.spec_tick_count(),
    {
    }
}

} // verus!
