//! The datagrams sent to the chatbox endpoint: an OSC 1.0 message per
//! datagram, encoded by `rosc`, and the truncation and suffix rules that the
//! endpoint expects of the chatbox text.
use vstd::prelude::*;
use vstd::utf8::{encode_utf8, encode_utf8_decode_utf8, is_ascii_chars, is_ascii_chars_encode_utf8};
use crate::text::string_from_chars;

verus! {

/// `rosc::OscError`, carried opaquely as the error of an encode.
#[verifier::external_type_specification]
#[verifier::external_body]
pub struct ExOscError(rosc::OscError);

/// Address pattern of a chatbox text message.
pub const CHATBOX_INPUT_ADDR: &'static str = "/chatbox/input";

/// Address pattern of the typing indicator.
pub const CHATBOX_TYPING_ADDR: &'static str = "/chatbox/typing";

/// The most Unicode scalar values of composed text that a datagram carries.
pub const MAX_CHATBOX_CHARS: usize = 142;

/// An argument of an OSC message, as this library sends them.
pub enum OscArg {
    Str(String),
    Bool(bool),
}

/// What an argument holds, in mathematical terms.
pub enum OscArgView {
    Str(Seq<char>),
    Bool(bool),
}

impl View for OscArg {
    type V = OscArgView;

    open spec fn view(&self) -> OscArgView {
        match self {
            OscArg::Str(s) => OscArgView::Str(s@),
            OscArg::Bool(b) => OscArgView::Bool(*b),
        }
    }
}

/// The error reported when a message cannot be encoded.
#[derive(Debug, PartialEq, Eq, Structural)]
pub enum EncodeError {
    Encoding,
}

/// The NUL bytes that end an OSC string of `len` bytes: between one and four,
/// so that the total is a multiple of four.
pub open spec fn nul_padding(len: nat) -> Seq<u8> {
    Seq::new((4 - len % 4) as nat, |i: int| 0u8)
}

/// An OSC string: its UTF-8 bytes, NUL-terminated and padded to four bytes.
pub open spec fn osc_string(s: Seq<char>) -> Seq<u8> {
    encode_utf8(s) + nul_padding(encode_utf8(s).len())
}

pub open spec fn arg_tag(a: OscArgView) -> char {
    match a {
        OscArgView::Str(_) => 's',
        OscArgView::Bool(true) => 'T',
        OscArgView::Bool(false) => 'F',
    }
}

/// The type-tag string: a comma, then one tag per argument.
pub open spec fn type_tags(args: Seq<OscArgView>) -> Seq<char> {
    seq![','] + args.map_values(|a: OscArgView| arg_tag(a))
}

/// The data bytes of an argument: a string's OSC string; nothing for a boolean.
pub open spec fn arg_data(a: OscArgView) -> Seq<u8> {
    match a {
        OscArgView::Str(s) => osc_string(s),
        OscArgView::Bool(_) => seq![],
    }
}

pub open spec fn args_data(args: Seq<OscArgView>) -> Seq<u8>
    decreases args.len(),
{
    if args.len() == 0 {
        seq![]
    } else {
        arg_data(args[0]) + args_data(args.drop_first())
    }
}

/// The OSC 1.0 encoding of a message with address pattern `addr`.
pub open spec fn osc_message(addr: Seq<char>, args: Seq<OscArgView>) -> Seq<u8> {
    osc_string(addr) + osc_string(type_tags(args)) + args_data(args)
}

/// The text a datagram carries for composed text `text`: at most
/// `MAX_CHATBOX_CHARS` scalar values of it, then ETX and Unit Separator.
pub open spec fn chatbox_text(text: Seq<char>) -> Seq<char> {
    let n = if text.len() <= 142 { text.len() } else { 142 };
    text.take(n as int) + seq!['\u{3}', '\u{1F}']
}

/// The datagram that carries `text` to the chatbox.
pub open spec fn chatbox_datagram(text: Seq<char>, send_immediately: bool, play_sound: bool) -> Seq<u8> {
    osc_message(
        "/chatbox/input"@,
        seq![
            OscArgView::Str(chatbox_text(text)),
            OscArgView::Bool(send_immediately),
            OscArgView::Bool(play_sound),
        ],
    )
}

/// The datagram that sets the typing indicator.
pub open spec fn typing_datagram(is_typing: bool) -> Seq<u8> {
    osc_message("/chatbox/typing"@, seq![OscArgView::Bool(is_typing)])
}

/// Relies on `rosc::encoder::encode` on an `OscPacket::Message`: the address
/// pattern and the type-tag string are written as OSC strings, then each
/// string argument as an OSC string, while a boolean has its tag only; the
/// output is a `Vec`, whose writes cannot fail, so the result is always `Ok`.
#[verifier::external_body]
fn rosc_encode(addr: &str, args: &Vec<OscArg>) -> (r: Result<Vec<u8>, rosc::OscError>)
    ensures
        match r {
            Ok(b) => b@ == osc_message(addr@, args@.map_values(|a: OscArg| a@)),
            Err(_) => false,
        },
{
    let args = args.iter().map(|a| match a {
        OscArg::Str(s) => rosc::OscType::String(s.clone()),
        OscArg::Bool(b) => rosc::OscType::Bool(*b),
    }).collect();
    let msg = rosc::OscMessage { addr: addr.to_string(), args };
    rosc::encoder::encode(&rosc::OscPacket::Message(msg))
}

/// The chatbox text for `text`: its first `MAX_CHATBOX_CHARS` scalar values,
/// followed by ETX (U+0003) and Unit Separator (U+001F).
pub fn truncate_for_chatbox(text: &str) -> (r: String)
    ensures
        r@ == chatbox_text(text@),
        r@.len() == if text@.len() <= 142 { text@.len() + 2 } else { 144 },
{
    let len = text.unicode_len();
    let n: usize = if len <= MAX_CHATBOX_CHARS { len } else { MAX_CHATBOX_CHARS };
    let mut out: Vec<char> = Vec::new();
    let mut i: usize = 0;
    while i < n
        invariant
            len == text@.len(),
            n <= len,
            i <= n,
            out@ == text@.take(i as int),
        decreases n - i,
    {
        out.push(text.get_char(i));
        i = i + 1;
        assert(out@ =~= text@.take(i as int));
    }
    out.push('\u{3}');
    out.push('\u{1F}');
    assert(out@ =~= chatbox_text(text@));
    string_from_chars(&out)
}

/// Encodes `/chatbox/input` with the chatbox text for `text` and the two
/// flags.
pub fn encode_chatbox_message(text: &str, send_immediately: bool, play_sound: bool) -> (r: Result<
    Vec<u8>,
    EncodeError,
>)
    ensures
        match r {
            Ok(b) => b@ == chatbox_datagram(text@, send_immediately, play_sound),
            Err(_) => false,
        },
{
    let payload = truncate_for_chatbox(text);
    let args = vec![OscArg::Str(payload), OscArg::Bool(send_immediately), OscArg::Bool(play_sound)];
    let addr = CHATBOX_INPUT_ADDR;
    proof {
        assert(args@.map_values(|a: OscArg| a@) =~= seq![
            OscArgView::Str(chatbox_text(text@)),
            OscArgView::Bool(send_immediately),
            OscArgView::Bool(play_sound),
        ]);
    }
    match rosc_encode(addr, &args) {
        Ok(b) => Ok(b),
        Err(_) => Err(EncodeError::Encoding),
    }
}

/// Encodes `/chatbox/typing` with the one flag.
pub fn encode_typing_indicator(is_typing: bool) -> (r: Result<Vec<u8>, EncodeError>)
    ensures
        match r {
            Ok(b) => b@ == typing_datagram(is_typing),
            Err(_) => false,
        },
{
    let args = vec![OscArg::Bool(is_typing)];
    proof {
        assert(args@.map_values(|a: OscArg| a@) =~= seq![OscArgView::Bool(is_typing)]);
    }
    match rosc_encode(CHATBOX_TYPING_ADDR, &args) {
        Ok(b) => Ok(b),
        Err(_) => Err(EncodeError::Encoding),
    }
}

/// UTF-8 encoding distributes over concatenation.
pub proof fn lemma_encode_utf8_concat(a: Seq<char>, b: Seq<char>)
    ensures
        encode_utf8(a + b) == encode_utf8(a) + encode_utf8(b),
    decreases a.len(),
{
    if a.len() > 0 {
        assert((a + b).drop_first() =~= a.drop_first() + b);
        assert((a + b)[0] == a[0]);
        lemma_encode_utf8_concat(a.drop_first(), b);
        assert(encode_utf8(a + b) =~= encode_utf8(a) + encode_utf8(b));
    } else {
        assert(a + b =~= b);
        assert(encode_utf8(a) + encode_utf8(b) =~= encode_utf8(b));
    }
}

/// The bytes of a chatbox datagram: the address, eight bytes of type tags,
/// then the OSC string of the chatbox text.
proof fn lemma_chatbox_layout(text: Seq<char>, send_immediately: bool, play_sound: bool)
    ensures
        ({
            let tags = seq![',', 's', if send_immediately { 'T' } else { 'F' }, if play_sound { 'T' } else { 'F' }];
            &&& encode_utf8(tags).len() == 4
            &&& osc_string(tags).len() == 8
            &&& osc_string(tags).take(4) == encode_utf8(tags)
            &&& chatbox_datagram(text, send_immediately, play_sound) == osc_string("/chatbox/input"@) + osc_string(tags)
                + osc_string(chatbox_text(text))
        }),
{
    let args = seq![
        OscArgView::Str(chatbox_text(text)),
        OscArgView::Bool(send_immediately),
        OscArgView::Bool(play_sound),
    ];
    let tags = seq![',', 's', if send_immediately { 'T' } else { 'F' }, if play_sound { 'T' } else { 'F' }];
    assert(type_tags(args) =~= tags);
    assert(is_ascii_chars(tags));
    is_ascii_chars_encode_utf8(tags);
    assert(osc_string(tags).take(4) =~= encode_utf8(tags));
    let rest = args.drop_first();
    assert(rest.drop_first().drop_first() =~= Seq::<OscArgView>::empty());
    assert(args_data(rest.drop_first().drop_first()) =~= Seq::<u8>::empty());
    assert(rest.drop_first()[0] == OscArgView::Bool(play_sound));
    assert(rest[0] == OscArgView::Bool(send_immediately));
    assert(args_data(rest.drop_first()) =~= Seq::<u8>::empty());
    assert(args_data(rest) =~= Seq::<u8>::empty());
    assert(args_data(args) =~= osc_string(chatbox_text(text)));
}

/// The encoding of a chatbox text ends in the Unit Separator byte.
proof fn lemma_chatbox_text_last_byte(text: Seq<char>)
    ensures
        encode_utf8(chatbox_text(text)).len() > 0,
        encode_utf8(chatbox_text(text)).last() != 0,
{
    let n = if text.len() <= 142 { text.len() } else { 142 };
    let tail = seq!['\u{3}', '\u{1F}'];
    lemma_encode_utf8_concat(text.take(n as int), tail);
    assert(is_ascii_chars(tail));
    is_ascii_chars_encode_utf8(tail);
    assert(tail[1] as u8 == 31u8);
}

/// A datagram decodes to one chatbox text and one pair of flags: two
/// datagrams that are byte for byte equal carry the same truncated text and
/// the same flags.
pub proof fn lemma_chatbox_datagram_injective(
    text1: Seq<char>,
    send1: bool,
    sound1: bool,
    text2: Seq<char>,
    send2: bool,
    sound2: bool,
)
    requires
        chatbox_datagram(text1, send1, sound1) == chatbox_datagram(text2, send2, sound2),
    ensures
        chatbox_text(text1) == chatbox_text(text2),
        send1 == send2,
        sound1 == sound2,
{
    lemma_chatbox_layout(text1, send1, sound1);
    lemma_chatbox_layout(text2, send2, sound2);
    let addr = osc_string("/chatbox/input"@);
    let tags1 = seq![',', 's', if send1 { 'T' } else { 'F' }, if sound1 { 'T' } else { 'F' }];
    let tags2 = seq![',', 's', if send2 { 'T' } else { 'F' }, if sound2 { 'T' } else { 'F' }];
    let o1 = osc_string(chatbox_text(text1));
    let o2 = osc_string(chatbox_text(text2));
    let d = chatbox_datagram(text1, send1, sound1);
    let a = addr.len() as int;
    assert(d.subrange(a, a + 8) =~= osc_string(tags1));
    assert(d.subrange(a, a + 8) =~= osc_string(tags2));
    assert(d.skip(a + 8) =~= o1);
    assert(d.skip(a + 8) =~= o2);
    encode_utf8_decode_utf8(tags1);
    encode_utf8_decode_utf8(tags2);
    assert(tags1 == tags2);
    assert(tags1[2] == tags2[2] && tags1[3] == tags2[3]);
    let e1 = encode_utf8(chatbox_text(text1));
    let e2 = encode_utf8(chatbox_text(text2));
    lemma_chatbox_text_last_byte(text1);
    lemma_chatbox_text_last_byte(text2);
    if e1.len() < e2.len() {
        assert(o2[e2.len() - 1] == e2.last());
        assert(o1[e2.len() - 1] == 0);
    } else if e2.len() < e1.len() {
        assert(o1[e1.len() - 1] == e1.last());
        assert(o2[e1.len() - 1] == 0);
    }
    assert(e1 =~= o1.take(e1.len() as int));
    assert(e2 =~= o2.take(e2.len() as int));
    encode_utf8_decode_utf8(chatbox_text(text1));
    encode_utf8_decode_utf8(chatbox_text(text2));
}

/// The chatbox text is at most `MAX_CHATBOX_CHARS` scalar values of the
/// composed text, in order, then ETX and Unit Separator.
pub proof fn lemma_chatbox_text_shape(text: Seq<char>)
    ensures
        chatbox_text(text).len() == (if text.len() <= 142 { text.len() } else { 142 }) + 2,
        forall|i: int| 0 <= i < chatbox_text(text).len() - 2 ==> chatbox_text(text)[i] == text[i],
        chatbox_text(text)[chatbox_text(text).len() - 2] == '\u{3}',
        chatbox_text(text).last() == '\u{1F}',
{
}

} // verus!
