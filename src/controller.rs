//! The controller that an embedding user interface drives: it holds the
//! configuration, starts and stops the orchestrator, and pushes the
//! configuration into the live modules on request.
use vstd::prelude::*;
use crate::modules::Module;
use crate::modules::afk::DEFAULT_AFK_TIMEOUT_SECS;
use crate::orchestrator::{tick_step, Orchestrator};
use crate::osc::{typing_datagram, EncodeError};
use crate::text::string_from_chars;

verus! {

/// The configuration of every module, applied to the live modules only by
/// `ChatboxController::apply_settings`.
pub struct Settings {
    pub osc_address: String,
    pub status_enabled: bool,
    pub status_lines: [String; 6],
    pub time_enabled: bool,
    pub time_format: String,
    pub stats_enabled: bool,
    pub stats_show_cpu: bool,
    pub stats_show_ram: bool,
    pub network_enabled: bool,
    pub media_enabled: bool,
    pub afk_enabled: bool,
    pub afk_timeout_secs: i32,
    pub afk_text: String,
    pub system_details_enabled: bool,
    pub heartrate_enabled: bool,
    pub heartrate_token: String,
}

fn text_of(chars: &[char]) -> (r: String)
    ensures
        r@ == chars@,
{
    let mut v: Vec<char> = Vec::new();
    let mut i: usize = 0;
    while i < chars.len()
        invariant
            i <= chars@.len(),
            v@ == chars@.take(i as int),
        decreases chars@.len() - i,
    {
        v.push(chars[i]);
        i = i + 1;
        assert(v@ =~= chars@.take(i as int));
    }
    assert(chars@.take(chars@.len() as int) =~= chars@);
    string_from_chars(&v)
}

/// The settings a controller starts with: every module off, target
/// 127.0.0.1:9000, time pattern "%H:%M", both stats parts on, and an AFK
/// timeout of 300 seconds with the text "AFK".
pub open spec fn default_settings(s: &Settings) -> bool {
    &&& s.osc_address@ == seq!['1', '2', '7', '.', '0', '.', '0', '.', '1', ':', '9', '0', '0', '0']
    &&& !s.status_enabled
    &&& forall|i: int| 0 <= i < 6 ==> (#[trigger] s.status_lines@[i])@.len() == 0
    &&& !s.time_enabled
    &&& s.time_format@ == seq!['%', 'H', ':', '%', 'M']
    &&& !s.stats_enabled
    &&& s.stats_show_cpu
    &&& s.stats_show_ram
    &&& !s.network_enabled
    &&& !s.media_enabled
    &&& !s.afk_enabled
    &&& s.afk_timeout_secs == 300
    &&& s.afk_text@ == seq!['A', 'F', 'K']
    &&& !s.system_details_enabled
    &&& !s.heartrate_enabled
    &&& s.heartrate_token@.len() == 0
}

impl Default for Settings {
    /// The settings that `default_settings` describes.
    fn default() -> (r: Settings)
        ensures
            default_settings(&r),
    {
        Settings {
            osc_address: text_of(&['1', '2', '7', '.', '0', '.', '0', '.', '1', ':', '9', '0', '0', '0']),
            status_enabled: false,
            status_lines: [String::new(), String::new(), String::new(), String::new(), String::new(), String::new()],
            time_enabled: false,
            time_format: text_of(&['%', 'H', ':', '%', 'M']),
            stats_enabled: false,
            stats_show_cpu: true,
            stats_show_ram: true,
            network_enabled: false,
            media_enabled: false,
            afk_enabled: false,
            afk_timeout_secs: DEFAULT_AFK_TIMEOUT_SECS as i32,
            afk_text: text_of(&['A', 'F', 'K']),
            system_details_enabled: false,
            heartrate_enabled: false,
            heartrate_token: String::new(),
        }
    }
}

/// Every module of `o` is configured as `s` says.
pub open spec fn settings_applied(o: &Orchestrator, s: &Settings) -> bool {
    &&& o.status.spec_enabled() == s.status_enabled
    &&& o.status.spec_lines() == s.status_lines@.map_values(|l: String| l@)
    &&& o.time.spec_enabled() == s.time_enabled
    &&& o.time.spec_format() == s.time_format@
    &&& o.stats.spec_enabled() == s.stats_enabled
    &&& o.stats.spec_show_cpu() == s.stats_show_cpu
    &&& o.stats.spec_show_ram() == s.stats_show_ram
    &&& o.network.spec_enabled() == s.network_enabled
    &&& o.media.spec_enabled() == s.media_enabled
    &&& o.afk.spec_enabled() == s.afk_enabled
    &&& o.afk.spec_timeout_secs() == #[verifier::truncate] (s.afk_timeout_secs as u64)
    &&& o.afk.spec_afk_text() == s.afk_text@
    &&& o.system_details.spec_enabled() == s.system_details_enabled
    &&& o.heartrate.spec_enabled() == s.heartrate_enabled
    &&& o.heartrate.spec_token() == s.heartrate_token@
}

pub struct ChatboxController {
    pub settings: Settings,
    pub running: bool,
    pub orchestrator: Option<Orchestrator>,
}

impl ChatboxController {
    /// Stopped, with the default settings.
    pub fn new() -> (r: Self)
        ensures
            !r.running,
            r.orchestrator is None,
            default_settings(&r.settings),
    {
        ChatboxController { settings: Settings::default(), running: false, orchestrator: None }
    }

    /// Starts a fresh orchestrator (with `gpu` as the GPU name) and applies
    /// the settings to it.
    pub fn start(&mut self, gpu: &str)
        ensures
            final(self).running,
            final(self).settings == old(self).settings,
            final(self).orchestrator matches Some(o) && o.spec_pending() is None && settings_applied(
                &o,
                &final(self).settings,
            ),
    {
        self.orchestrator = Some(Orchestrator::new(gpu));
        self.running = true;
        self.apply_settings();
    }

    /// Drops the orchestrator with its modules and pending message.
    pub fn stop(&mut self)
        ensures
            !final(self).running,
            final(self).orchestrator is None,
            final(self).settings == old(self).settings,
    {
        self.orchestrator = None;
        self.running = false;
    }

    /// Makes `text` the pending chat message, where the orchestrator runs.
    pub fn send_message(&mut self, text: String, now_ms: u64)
        ensures
            final(self).running == old(self).running,
            final(self).orchestrator is Some == old(self).orchestrator is Some,
            final(self).orchestrator matches Some(o) ==> o.spec_pending() == Some((text@, now_ms)),
    {
        match &mut self.orchestrator {
            Some(orch) => orch.set_chat_message(text, now_ms),
            None => {},
        }
    }

    /// The typing-indicator datagram to send, where the orchestrator runs.
    pub fn set_typing(&self, typing: bool) -> (r: Option<Result<Vec<u8>, EncodeError>>)
        ensures
            r is Some == self.orchestrator is Some,
            match r {
                Some(Ok(b)) => b@ == typing_datagram(typing),
                Some(Err(_)) => false,
                None => true,
            },
    {
        match &self.orchestrator {
            Some(orch) => Some(orch.send_typing(typing)),
            None => None,
        }
    }

    /// One tick of the orchestrator, where it runs: the datagram to send, if
    /// any.
    pub fn tick(&mut self, now_ms: u64) -> (r: Option<Result<Vec<u8>, EncodeError>>)
        ensures
            old(self).orchestrator is None ==> r is None && *final(self) == *old(self),
            final(self).orchestrator is Some == old(self).orchestrator is Some,
            final(self).running == old(self).running,
            final(self).settings == old(self).settings,
            old(self).orchestrator is Some ==> tick_step(
                &old(self).orchestrator.unwrap(),
                now_ms,
                &final(self).orchestrator.unwrap(),
                r,
            ),
    {
        match &mut self.orchestrator {
            Some(orch) => orch.tick(now_ms),
            None => None,
        }
    }

    /// Pushes every setting into the live modules, where the orchestrator
    /// runs.
    pub fn apply_settings(&mut self)
        ensures
            final(self).settings == old(self).settings,
            final(self).running == old(self).running,
            final(self).orchestrator is Some == old(self).orchestrator is Some,
            final(self).orchestrator matches Some(o) ==> settings_applied(&o, &final(self).settings),
            old(self).orchestrator matches Some(o) ==> final(self).orchestrator.unwrap().spec_pending()
                == o.spec_pending(),
    {
        let s = &self.settings;
        match &mut self.orchestrator {
            Some(orch) => {
                orch.status.set_enabled(s.status_enabled);
                proof { orch.status.lemma_line_count(); }
                let ghost pending = orch.spec_pending();
                let mut i: usize = 0;
                while i < 6
                    invariant
                        i <= 6,
                        forall|j: int| 0 <= j < i ==> (#[trigger] orch.status.spec_lines()[j]) == s.status_lines@[j]@,
                        orch.status.spec_lines().len() == 6,
                        orch.status.spec_enabled() == s.status_enabled,
                        orch.spec_pending() == pending,
                    decreases 6 - i,
                {
                    orch.status.set_line(i, s.status_lines[i].clone());
                    i = i + 1;
                }
                assert(orch.status.spec_lines() =~= s.status_lines@.map_values(|l: String| l@));
                orch.time.set_enabled(s.time_enabled);
                orch.time.set_format(s.time_format.clone());
                orch.stats.set_enabled(s.stats_enabled);
                orch.stats.set_show_cpu(s.stats_show_cpu);
                orch.stats.set_show_ram(s.stats_show_ram);
                orch.network.set_enabled(s.network_enabled);
                orch.media.set_enabled(s.media_enabled);
                orch.afk.set_enabled(s.afk_enabled);
                orch.afk.set_timeout_secs(#[verifier::truncate] (s.afk_timeout_secs as u64));
                orch.afk.set_afk_text(s.afk_text.clone());
                orch.system_details.set_enabled(s.system_details_enabled);
                orch.heartrate.set_enabled(s.heartrate_enabled);
                orch.heartrate.set_token(s.heartrate_token.clone());
            },
            None => {},
        }
    }
}

} // verus!
