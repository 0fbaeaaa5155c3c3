//! Now playing: the media player to ask, what `playerctl` reports of it, and
//! the two lines shown for it (status, artist and title; a progress bar with
//! position and length).
use vstd::prelude::*;
use crate::modules::{opt_view, Module};
use crate::text::{
    chars_of, decimal, decimal2, find_line_with_prefix, has_prefix, is_first_prefixed, lines_of, parse_decimal, parse_u64, push_chars,
    push_decimal, push_decimal2, split_lines, starts_with, string_from_chars, trim, trimmed, views,
};

verus! {

/// Segments of the progress bar.
pub const BAR_LENGTH: usize = 10;

/// What the player reports of the current track; times in microseconds.
pub struct MediaInfo {
    pub artist: String,
    pub title: String,
    pub status: String,
    pub position_us: u64,
    pub length_us: u64,
}

pub struct MediaModule {
    enabled: bool,
    info: Option<MediaInfo>,
}

/// The trimmed first line of `ls` that starts with `p`, if any.
pub open spec fn first_prefixed(ls: Seq<Seq<char>>, p: Seq<char>) -> Option<Seq<char>> {
    if exists|i: int| is_first_prefixed(ls, p, i) {
        Some(trim(ls[choose|i: int| is_first_prefixed(ls, p, i)]))
    } else {
        None
    }
}

/// The player to ask, from the list of players, one per line: the first
/// whose name starts with "spotify", then the first that starts with
/// "spotifyd", else the first line where it is not blank.
pub open spec fn chosen_player(list: Seq<char>) -> Option<Seq<char>> {
    let ls = lines_of(list);
    if first_prefixed(ls, "spotify"@) is Some {
        first_prefixed(ls, "spotify"@)
    } else if first_prefixed(ls, "spotifyd"@) is Some {
        first_prefixed(ls, "spotifyd"@)
    } else if ls.len() > 0 && trim(ls[0]).len() > 0 {
        Some(trim(ls[0]))
    } else {
        None
    }
}

fn find_prefixed(lines: &Vec<Vec<char>>, p: &Vec<char>) -> (r: Option<Vec<char>>)
    ensures
        match r {
            Some(name) => first_prefixed(views(lines@), p@) == Some(name@),
            None => first_prefixed(views(lines@), p@) is None,
        },
{
    let ghost ls = views(lines@);
    match find_line_with_prefix(lines, p) {
        Some(i) => {
            let ghost k = choose|k: int| is_first_prefixed(ls, p@, k);
            assert(k == i) by {
                if k < i {
                    assert(!has_prefix(ls[k], p@));
                } else if k > i {
                    assert(!has_prefix(ls[i as int], p@));
                }
            }
            Some(trimmed(&lines[i]))
        },
        None => {
            assert(!exists|k: int| is_first_prefixed(ls, p@, k));
            None
        },
    }
}

/// The player to ask, from `playerctl -l`'s list of players.
pub fn choose_player(list: &str) -> (r: Option<String>)
    ensures
        opt_view(r) == chosen_player(list@),
{
    let lines = split_lines(list);
    let spotify = chars_of("spotify");
    match find_prefixed(&lines, &spotify) {
        Some(name) => {
            return Some(string_from_chars(&name));
        },
        None => {},
    }
    let spotifyd = chars_of("spotifyd");
    match find_prefixed(&lines, &spotifyd) {
        Some(name) => {
            return Some(string_from_chars(&name));
        },
        None => {},
    }
    if lines.len() > 0 {
        let first = trimmed(&lines[0]);
        assert(views(lines@)[0] == lines@[0]@);
        if first.len() > 0 {
            return Some(string_from_chars(&first));
        }
    }
    None
}

/// A number field: its value, or 0 where it does not parse.
pub open spec fn number_or_zero(s: Seq<char>) -> u64 {
    match parse_u64(s) {
        Some(v) => v,
        None => 0,
    }
}

/// Reads `playerctl metadata` output of five lines: artist, title, status,
/// position and length (microseconds). Fewer lines give `None`.
pub fn parse_media_info(output: &str) -> (r: Option<MediaInfo>)
    ensures
        r is None <==> lines_of(output@).len() < 5,
        match r {
            Some(info) => {
                let ls = lines_of(output@);
                &&& info.artist@ == ls[0]
                &&& info.title@ == ls[1]
                &&& info.status@ == ls[2]
                &&& info.position_us == number_or_zero(ls[3])
                &&& info.length_us == number_or_zero(ls[4])
            },
            None => true,
        },
{
    let lines = split_lines(output);
    if lines.len() < 5 {
        return None;
    }
    let ghost ls = views(lines@);
    assert(ls[0] == lines@[0]@ && ls[1] == lines@[1]@ && ls[2] == lines@[2]@ && ls[3] == lines@[3]@ && ls[4] == lines@[4]@);
    let position_us = match parse_decimal(&lines[3]) {
        Some(v) => v,
        None => 0,
    };
    let length_us = match parse_decimal(&lines[4]) {
        Some(v) => v,
        None => 0,
    };
    Some(MediaInfo {
        artist: string_from_chars(&lines[0]),
        title: string_from_chars(&lines[1]),
        status: string_from_chars(&lines[2]),
        position_us,
        length_us,
    })
}

/// `"<minutes>:<seconds>"` for `us` microseconds, seconds with two digits.
pub open spec fn time_text(us: u64) -> Seq<char> {
    let secs = us as nat / 1_000_000;
    decimal(secs / 60) + seq![':'] + decimal2(secs % 60)
}

pub fn format_time(us: u64) -> (r: String)
    ensures
        r@ == time_text(us),
{
    let total_secs = us / 1_000_000;
    let mut out: Vec<char> = Vec::new();
    push_decimal(&mut out, total_secs / 60);
    out.push(':');
    push_decimal2(&mut out, total_secs % 60);
    assert(out@ =~= time_text(us));
    string_from_chars(&out)
}

/// Filled segments of the bar: `position / length * BAR_LENGTH` rounded to
/// the nearest integer (halves up), at most `BAR_LENGTH`.
pub open spec fn filled_segments(position: u64, length: u64) -> nat {
    let f = (20 * position as nat + length as nat) / (2 * length as nat);
    if f > 10 { 10 } else { f }
}

/// The progress bar: filled segments, then empty ones, ten in all; all empty
/// where the length is 0.
pub open spec fn bar_text(position: u64, length: u64) -> Seq<char> {
    let filled: nat = if length == 0 { 0 } else { filled_segments(position, length) };
    Seq::new(filled, |i: int| '\u{2501}') + Seq::new((10 - filled) as nat, |i: int| '\u{2015}')
}

pub fn progress_bar(position: u64, length: u64) -> (r: String)
    ensures
        r@ == bar_text(position, length),
        r@.len() == BAR_LENGTH,
{
    let filled: usize = if length == 0 {
        0
    } else {
        let f = (20 * position as u128 + length as u128) / (2 * length as u128);
        if f > 10 { 10 } else { f as usize }
    };
    let mut out: Vec<char> = Vec::new();
    let mut i: usize = 0;
    while i < BAR_LENGTH
        invariant
            filled <= BAR_LENGTH,
            i <= BAR_LENGTH,
            out@.len() == i,
            forall|k: int| 0 <= k < i ==> out@[k] == if k < filled { '\u{2501}' } else { '\u{2015}' },
        decreases BAR_LENGTH - i,
    {
        out.push(if i < filled { '\u{2501}' } else { '\u{2015}' });
        i = i + 1;
    }
    assert(out@ =~= bar_text(position, length));
    string_from_chars(&out)
}

/// The glyph for a player status: play, pause, or stop for anything else.
pub open spec fn status_icon(status: Seq<char>) -> char {
    if status == "Playing"@ {
        '\u{25B6}'
    } else if status == "Paused"@ {
        '\u{23F8}'
    } else {
        '\u{25A0}'
    }
}

/// The two lines shown for a track, or nothing where both artist and title
/// are empty.
pub open spec fn media_text(info: MediaInfo) -> Option<Seq<char>> {
    if info.artist@.len() == 0 && info.title@.len() == 0 {
        None
    } else {
        Some(seq![status_icon(info.status@), ' '] + info.artist@ + seq![' ', '-', ' '] + info.title@ + seq!['\n']
            + bar_text(info.position_us, info.length_us) + seq![' '] + time_text(info.position_us) + seq!['/']
            + time_text(info.length_us))
    }
}

fn same_chars(a: &Vec<char>, b: &Vec<char>) -> (r: bool)
    ensures
        r == (a@ == b@),
{
    if a.len() != b.len() {
        return false;
    }
    let r = starts_with(a, b);
    assert(r ==> a@ =~= b@);
    assert(a@ == b@ ==> a@.take(b@.len() as int) =~= b@);
    r
}

fn icon_for(status: &String) -> (c: char)
    ensures
        c == status_icon(status@),
{
    let s = chars_of(status.as_str());
    let playing = chars_of("Playing");
    let paused = chars_of("Paused");
    if same_chars(&s, &playing) {
        '\u{25B6}'
    } else if same_chars(&s, &paused) {
        '\u{23F8}'
    } else {
        '\u{25A0}'
    }
}

/// The text for a track.
pub fn render_media(info: &MediaInfo) -> (r: Option<String>)
    ensures
        opt_view(r) == media_text(*info),
{
    let artist = chars_of(info.artist.as_str());
    let title = chars_of(info.title.as_str());
    if artist.len() == 0 && title.len() == 0 {
        return None;
    }
    let mut out: Vec<char> = Vec::new();
    out.push(icon_for(&info.status));
    out.push(' ');
    push_chars(&mut out, &artist);
    out.push(' ');
    out.push('-');
    out.push(' ');
    push_chars(&mut out, &title);
    out.push('\n');
    let bar = chars_of(progress_bar(info.position_us, info.length_us).as_str());
    push_chars(&mut out, &bar);
    out.push(' ');
    let pos = chars_of(format_time(info.position_us).as_str());
    push_chars(&mut out, &pos);
    out.push('/');
    let len = chars_of(format_time(info.length_us).as_str());
    push_chars(&mut out, &len);
    assert(out@ =~= media_text(*info).unwrap());
    Some(string_from_chars(&out))
}

impl MediaModule {
    pub closed spec fn spec_info(&self) -> Option<MediaInfo> {
        self.info
    }

    /// Disabled, with no track.
    pub fn new() -> (r: Self)
        ensures
            !r.spec_enabled(),
            r.spec_info() is None,
    {
        MediaModule { enabled: false, info: None }
    }

    /// Keeps the latest report of the player, or `None` where there is no
    /// player or no metadata.
    pub fn set_info(&mut self, info: Option<MediaInfo>)
        ensures
            final(self).spec_info() == info,
            final(self).spec_enabled() == old(self).spec_enabled(),
    {
        self.info = info;
    }
}

impl Module for MediaModule {
    closed spec fn spec_enabled(&self) -> bool {
        self.enabled
    }

    closed spec fn with_enabled(&self, enabled: bool) -> Self {
        MediaModule { enabled, ..*self }
    }

    /// An enabled module shows the latest track, if any; the state never
    /// changes.
    open spec fn ticked(&self, now_ms: u64, next: &Self, out: Option<Seq<char>>) -> bool {
        &&& *next == *self
        &&& out == if !self.spec_enabled() {
            None
        } else {
            match self.spec_info() {
                Some(info) => media_text(info),
                None => None,
            }
        }
    }

    fn name(&self) -> &'static str {
        "Media"
    }

    fn enabled(&self) -> (r: bool) {
        self.enabled
    }

    fn set_enabled(&mut self, enabled: bool) {
        self.enabled = enabled;
    }

    fn tick(&mut self, now_ms: u64) -> (r: Option<String>) {
        if !self.enabled {
            return None;
        }
        match &self.info {
            Some(info) => render_media(info),
            None => None,
        }
    }
}

impl MediaModule {
    /// Switching the module on or off changes nothing else.
    pub proof fn lemma_with_enabled(&self, enabled: bool)
        ensures
            self.with_enabled(enabled).spec_enabled() == enabled,
            self.with_enabled(enabled).spec_info() == self.spec_info(),
    {
    }
}

} // verus!
