//! The composition engine: it owns every module and the pending chat
//! message, and on each tick turns their output into one chatbox datagram.
use vstd::prelude::*;
use crate::modules::afk::AfkModule;
use crate::modules::heartrate::HeartrateModule;
use crate::modules::media::MediaModule;
use crate::modules::network::NetworkModule;
use crate::modules::stats::StatsModule;
use crate::modules::status::StatusModule;
use crate::modules::system_details::{details_parts, is_rounded_ram_gb, SystemDetailsModule};
use crate::modules::time::TimeModule;
use crate::modules::{opt_view, Module};
use crate::osc::{chatbox_datagram, encode_chatbox_message, encode_typing_indicator, typing_datagram, EncodeError};
use crate::text::{push_str, string_from_chars};

verus! {

/// How long a chat message stays on top of the module output, in
/// milliseconds.
pub const CHAT_MESSAGE_TTL_MS: u64 = 20_000;

/// Times are milliseconds on a monotonic clock chosen by the caller.
pub struct Orchestrator {
    pub status: StatusModule,
    pub time: TimeModule,
    pub stats: StatsModule,
    pub network: NetworkModule,
    pub media: MediaModule,
    pub afk: AfkModule,
    pub heartrate: HeartrateModule,
    pub system_details: SystemDetailsModule,
    pub pending_chat_message: Option<(String, u64)>,
}

/// A message sent at `created_ms` has had its time by `now_ms`.
pub open spec fn message_expired(created_ms: u64, now_ms: u64) -> bool {
    now_ms >= created_ms && now_ms - created_ms >= CHAT_MESSAGE_TTL_MS
}

/// The pending message that a tick at `now_ms` keeps.
pub open spec fn pending_after(pending: Option<(Seq<char>, u64)>, now_ms: u64) -> Option<(Seq<char>, u64)> {
    match pending {
        Some((text, created)) => if message_expired(created, now_ms) {
            None
        } else {
            pending
        },
        None => None,
    }
}

/// The texts of the modules that produced one, in order.
pub open spec fn present(parts: Seq<Option<Seq<char>>>) -> Seq<Seq<char>>
    decreases parts.len(),
{
    if parts.len() == 0 {
        seq![]
    } else {
        match parts.last() {
            Some(t) => present(parts.drop_last()).push(t),
            None => present(parts.drop_last()),
        }
    }
}

/// `lines` joined by newlines.
pub open spec fn join_lines(lines: Seq<Seq<char>>) -> Seq<char>
    decreases lines.len(),
{
    if lines.len() == 0 {
        seq![]
    } else if lines.len() == 1 {
        lines[0]
    } else {
        join_lines(lines.drop_last()) + seq!['\n'] + lines.last()
    }
}

/// The message for a tick: the pending message over the joined module
/// output, either of them alone, or nothing to send.
pub open spec fn compose(pending: Option<Seq<char>>, parts: Seq<Option<Seq<char>>>) -> Option<Seq<char>> {
    let body = join_lines(present(parts));
    match pending {
        Some(m) => if body.len() > 0 {
            Some(m + seq!['\n'] + body)
        } else {
            Some(m)
        },
        None => if body.len() > 0 {
            Some(body)
        } else {
            None
        },
    }
}

/// The text of a pending message.
pub open spec fn pending_text(pending: Option<(Seq<char>, u64)>) -> Option<Seq<char>> {
    match pending {
        Some((text, _)) => Some(text),
        None => None,
    }
}

/// What a tick sends for the pending message `pending` (after expiry) and
/// the module output `parts`: the chatbox datagram of the composed message,
/// sent at once, with a sound while a chat message is pending.
pub open spec fn tick_datagram(pending: Option<(Seq<char>, u64)>, parts: Seq<Option<Seq<char>>>) -> Option<Seq<u8>> {
    match compose(pending_text(pending), parts) {
        Some(text) => Some(chatbox_datagram(text, true, pending is Some)),
        None => None,
    }
}

pub open spec fn sent_view(r: Option<Result<Vec<u8>, EncodeError>>) -> Option<Seq<u8>> {
    match r {
        Some(Ok(b)) => Some(b@),
        _ => None,
    }
}

/// Composes the message for a pending message and the modules' output.
pub fn compose_message(pending: Option<&str>, parts: &Vec<Option<String>>) -> (r: Option<String>)
    ensures
        opt_view(r) == compose(
            match pending {
                Some(m) => Some(m@),
                None => None,
            },
            parts@.map_values(|p: Option<String>| opt_view(p)),
        ),
{
    let ghost views = parts@.map_values(|p: Option<String>| opt_view(p));
    let mut body: Vec<char> = Vec::new();
    let mut count: usize = 0;
    let mut i: usize = 0;
    while i < parts.len()
        invariant
            i <= parts@.len(),
            views == parts@.map_values(|p: Option<String>| opt_view(p)),
            count as nat == present(views.take(i as int)).len(),
            count <= i,
            body@ == join_lines(present(views.take(i as int))),
        decreases parts@.len() - i,
    {
        assert(views.take(i + 1).drop_last() =~= views.take(i as int));
        match &parts[i] {
            Some(t) => {
                let ghost prev = present(views.take(i as int));
                assert(views[i as int] == Some(t@));
                assert(present(views.take(i + 1)) == prev.push(t@));
                assert(prev.push(t@).drop_last() =~= prev);
                if count > 0 {
                    body.push('\n');
                }
                push_str(&mut body, t.as_str());
                count = count + 1;
                assert(body@ =~= join_lines(prev.push(t@)));
            },
            None => {},
        }
        i = i + 1;
    }
    assert(views.take(parts@.len() as int) =~= views);
    proof {
        lemma_join_lines_empty(present(views));
    }
    let mut out: Vec<char> = Vec::new();
    match pending {
        Some(m) => {
            push_str(&mut out, m);
            if body.len() > 0 {
                out.push('\n');
                crate::text::push_chars(&mut out, &body);
            }
            Some(string_from_chars(&out))
        },
        None => {
            if body.len() > 0 {
                Some(string_from_chars(&body))
            } else {
                None
            }
        },
    }
}

/// Joined lines are empty only where there are none or all of them are.
proof fn lemma_join_lines_empty(lines: Seq<Seq<char>>)
    ensures
        join_lines(lines).len() == 0 ==> forall|i: int| 0 <= i < lines.len() ==> (#[trigger] lines[i]).len() == 0,
    decreases lines.len(),
{
    if lines.len() > 1 {
        lemma_join_lines_empty(lines.drop_last());
    }
}

/// One tick at `now_ms` from `before` to `after`, sending `r`: the pending
/// message is dropped once it has had its time; each module ticks once, in
/// order; and what is sent is the datagram for the module output and the
/// pending message that is kept. Encoding never fails.
pub open spec fn tick_step(
    before: &Orchestrator,
    now_ms: u64,
    after: &Orchestrator,
    r: Option<Result<Vec<u8>, EncodeError>>,
) -> bool {
    &&& after.spec_pending() == pending_after(before.spec_pending(), now_ms)
    &&& match r {
        Some(Err(_)) => false,
        _ => true,
    }
    &&& exists|parts: Seq<Option<Seq<char>>>|
        #![trigger tick_datagram(after.spec_pending(), parts)]
        {
            &&& parts.len() == 8
            &&& before.status.ticked(now_ms, &after.status, parts[0])
            &&& before.time.ticked(now_ms, &after.time, parts[1])
            &&& before.stats.ticked(now_ms, &after.stats, parts[2])
            &&& before.network.ticked(now_ms, &after.network, parts[3])
            &&& before.media.ticked(now_ms, &after.media, parts[4])
            &&& before.heartrate.ticked(now_ms, &after.heartrate, parts[5])
            &&& before.system_details.ticked(now_ms, &after.system_details, parts[6])
            &&& before.afk.ticked(now_ms, &after.afk, parts[7])
            &&& sent_view(r) == tick_datagram(after.spec_pending(), parts)
        }
}

impl Orchestrator {
    pub open spec fn spec_pending(&self) -> Option<(Seq<char>, u64)> {
        match &self.pending_chat_message {
            Some((text, created)) => Some((text@, *created)),
            None => None,
        }
    }

    /// Every module in its initial, disabled state, and no pending message.
    /// `gpu` is the GPU name for the system details.
    pub fn new(gpu: &str) -> (r: Self)
        ensures
            r.spec_pending() is None,
            !r.status.spec_enabled(),
            !r.time.spec_enabled(),
            !r.stats.spec_enabled(),
            !r.network.spec_enabled(),
            !r.media.spec_enabled(),
            !r.afk.spec_enabled(),
            !r.heartrate.spec_enabled(),
            !r.system_details.spec_enabled(),
            exists|name: Seq<char>, version: Seq<char>, brand: Seq<char>, bytes: u64, gb: nat|
                #![trigger is_rounded_ram_gb(bytes, gb), details_parts(name, version, brand, gpu@, gb)]
                is_rounded_ram_gb(bytes, gb) && r.system_details.spec_parts() == details_parts(
                    name,
                    version,
                    brand,
                    gpu@,
                    gb,
                ),
    {
        Orchestrator {
            status: StatusModule::new(),
            time: TimeModule::new(),
            stats: StatsModule::new(),
            network: NetworkModule::new(),
            media: MediaModule::new(),
            afk: AfkModule::new(),
            heartrate: HeartrateModule::new(),
            system_details: SystemDetailsModule::new(gpu),
            pending_chat_message: None,
        }
    }

    /// Makes `text`, sent at `now_ms`, the pending message, in place of any
    /// earlier one.
    pub fn set_chat_message(&mut self, text: String, now_ms: u64)
        ensures
            final(self).spec_pending() == Some((text@, now_ms)),
            final(self).status == old(self).status,
            final(self).time == old(self).time,
            final(self).stats == old(self).stats,
            final(self).network == old(self).network,
            final(self).media == old(self).media,
            final(self).afk == old(self).afk,
            final(self).heartrate == old(self).heartrate,
            final(self).system_details == old(self).system_details,
    {
        self.pending_chat_message = Some((text, now_ms));
    }

    /// The datagram that sets the typing indicator.
    pub fn send_typing(&self, typing: bool) -> (r: Result<Vec<u8>, EncodeError>)
        ensures
            match r {
                Ok(b) => b@ == typing_datagram(typing),
                Err(_) => false,
            },
    {
        encode_typing_indicator(typing)
    }

    /// One tick at `now_ms`: drops the pending message once it has had its
    /// time, polls the modules in order (status, time, stats, network,
    /// media, heart rate, system details, AFK), and returns the datagram to
    /// send, or `None` when there is nothing to send.
    pub fn tick(&mut self, now_ms: u64) -> (r: Option<Result<Vec<u8>, EncodeError>>)
        ensures
            tick_step(old(self), now_ms, final(self), r),
    {
        let expired = match &self.pending_chat_message {
            Some((_, created)) => now_ms >= *created && now_ms - *created >= CHAT_MESSAGE_TTL_MS,
            None => false,
        };
        if expired {
            self.pending_chat_message = None;
        }
        let mut parts: Vec<Option<String>> = Vec::new();
        parts.push(self.status.tick(now_ms));
        parts.push(self.time.tick(now_ms));
        parts.push(self.stats.tick(now_ms));
        parts.push(self.network.tick(now_ms));
        parts.push(self.media.tick(now_ms));
        parts.push(self.heartrate.tick(now_ms));
        parts.push(self.system_details.tick(now_ms));
        parts.push(self.afk.tick(now_ms));
        let ghost views = parts@.map_values(|p: Option<String>| opt_view(p));
        let play_sound = self.pending_chat_message.is_some();
        let composed = match &self.pending_chat_message {
            Some((msg, _)) => compose_message(Some(msg.as_str()), &parts),
            None => compose_message(None, &parts),
        };
        let r = match composed {
            Some(text) => Some(encode_chatbox_message(text.as_str(), true, play_sound)),
            None => None,
        };
        assert(sent_view(r) == tick_datagram(self.spec_pending(), views));
        assert(tick_step(old(self), now_ms, self, r));
        r
    }
}

/// A chat message set at `created_ms` tops every message composed while it
/// is younger than the time to live; from then on the tick drops it and the
/// module output alone is composed.
pub proof fn lemma_chat_message_ttl(text: Seq<char>, created_ms: u64, now_ms: u64, parts: Seq<Option<Seq<char>>>)
    ensures
        now_ms >= created_ms && now_ms - created_ms < CHAT_MESSAGE_TTL_MS ==> {
            let c = compose(pending_text(pending_after(Some((text, created_ms)), now_ms)), parts);
            c is Some && c.unwrap().take(text.len() as int) == text
        },
        now_ms >= created_ms && now_ms - created_ms >= CHAT_MESSAGE_TTL_MS ==> compose(
            pending_text(pending_after(Some((text, created_ms)), now_ms)),
            parts,
        ) == compose(None, parts),
{
    let body = join_lines(present(parts));
    assert((text + seq!['\n'] + body).take(text.len() as int) =~= text);
    assert(text.take(text.len() as int) =~= text);
}

} // verus!
