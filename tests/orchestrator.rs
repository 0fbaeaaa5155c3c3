use osc_chatbox::controller::{ChatboxController, Settings};
use osc_chatbox::modules::Module;
use osc_chatbox::orchestrator::{compose_message, Orchestrator};
use rosc::{OscPacket, OscType};

fn sent_text(datagram: Vec<u8>) -> (String, bool, bool) {
    let (_, packet) = rosc::decoder::decode_udp(&datagram).unwrap();
    match packet {
        OscPacket::Message(m) => {
            assert_eq!(m.addr, "/chatbox/input");
            match (&m.args[0], &m.args[1], &m.args[2]) {
                (OscType::String(s), OscType::Bool(now), OscType::Bool(sound)) => {
                    let s = s.strip_suffix("\u{3}\u{1F}").unwrap().to_string();
                    (s, *now, *sound)
                }
                _ => panic!("unexpected arguments"),
            }
        }
        OscPacket::Bundle(_) => panic!("expected a message"),
    }
}

#[test]
fn composition_orders_and_joins() {
    let parts = vec![Some("a".to_string()), None, Some("b".to_string())];
    assert_eq!(compose_message(None, &parts).as_deref(), Some("a\nb"));
    assert_eq!(compose_message(Some("hi"), &parts).as_deref(), Some("hi\na\nb"));
    assert_eq!(compose_message(Some("hi"), &vec![None, None]).as_deref(), Some("hi"));
    assert_eq!(compose_message(None, &vec![None, None]), None);
    assert_eq!(compose_message(None, &vec![Some(String::new())]), None);
}

#[test]
fn override_message_lives_twenty_seconds() {
    let mut orch = Orchestrator::new("Unknown");
    orch.status.set_line(0, "status".to_string());
    orch.status.set_enabled(true);
    orch.set_chat_message("hi".to_string(), 1_000);
    let (text, now, sound) = sent_text(orch.tick(20_900).unwrap().unwrap());
    assert_eq!(text, "hi\nstatus");
    assert!(now);
    assert!(sound);
    let (text, _, sound) = sent_text(orch.tick(21_100).unwrap().unwrap());
    assert_eq!(text, "status");
    assert!(!sound);
}

#[test]
fn nothing_is_sent_without_text() {
    let mut orch = Orchestrator::new("Unknown");
    assert!(orch.tick(0).is_none());
    orch.set_chat_message("only".to_string(), 0);
    let (text, _, sound) = sent_text(orch.tick(5_000).unwrap().unwrap());
    assert_eq!(text, "only");
    assert!(sound);
    assert!(orch.tick(20_000).is_none());
}

#[test]
fn modules_are_polled_in_fixed_order() {
    let mut orch = Orchestrator::new("Unknown");
    orch.status.set_line(0, "S".to_string());
    orch.status.set_enabled(true);
    orch.heartrate.set_bpm(Some(60));
    orch.heartrate.set_enabled(true);
    orch.afk.set_enabled(true);
    orch.afk.set_timeout_secs(1);
    let (text, _, _) = sent_text(orch.tick(5_000).unwrap().unwrap());
    assert_eq!(text, "S\n60 BPM\nAFK");
}

#[test]
fn controller_applies_settings_and_stops() {
    let mut c = ChatboxController::new();
    assert!(c.tick(0).is_none());
    assert!(c.set_typing(true).is_none());
    let mut settings = Settings::default();
    settings.status_enabled = true;
    settings.status_lines[1] = "second".to_string();
    c.settings = settings;
    c.start("Unknown");
    assert!(c.running);
    let (text, _, _) = sent_text(c.tick(0).unwrap().unwrap());
    assert_eq!(text, "second");
    c.send_message("msg".to_string(), 0);
    let (text, _, _) = sent_text(c.tick(1).unwrap().unwrap());
    assert_eq!(text, "msg\nsecond");
    assert!(c.set_typing(true).unwrap().is_ok());
    c.settings.status_enabled = false;
    c.apply_settings();
    assert!(!c.orchestrator.as_ref().unwrap().status.enabled());
    c.stop();
    assert!(!c.running);
    assert!(c.tick(2).is_none());
}
