use osc_chatbox::modules::afk::AfkModule;
use osc_chatbox::modules::heartrate::{render_bpm, HeartrateModule};
use osc_chatbox::modules::media::{
    choose_player, format_time, parse_media_info, progress_bar, render_media, MediaInfo, MediaModule,
};
use osc_chatbox::modules::network::{format_rate, total_counters, NetworkModule};
use osc_chatbox::modules::stats::render_stats;
use osc_chatbox::modules::status::StatusModule;
use osc_chatbox::modules::system_details::{
    clean_gpu_name, cpu_name_from_brand, gpu_from_lspci, gpu_from_nvidia_info, ram_gb, SystemDetailsModule,
};
use osc_chatbox::modules::time::TimeModule;
use osc_chatbox::modules::Module;

fn status_with(lines: &[&str]) -> StatusModule {
    let mut m = StatusModule::new();
    for (i, l) in lines.iter().enumerate() {
        m.set_line(i, l.to_string());
    }
    m.set_enabled(true);
    m
}

#[test]
fn disabled_status_yields_nothing_and_keeps_its_place() {
    let mut m = status_with(&["a", "b"]);
    assert_eq!(m.tick(0).as_deref(), Some("a"));
    m.set_enabled(false);
    for t in 0..20 {
        assert_eq!(m.tick(t), None);
    }
    m.set_enabled(true);
    // three more ticks on "a" before it advances
    assert_eq!(m.tick(0).as_deref(), Some("a"));
    assert_eq!(m.tick(0).as_deref(), Some("a"));
    assert_eq!(m.tick(0).as_deref(), Some("a"));
    assert_eq!(m.tick(0).as_deref(), Some("b"));
}

#[test]
fn status_rotation_returns_to_first_after_four_ticks_per_line() {
    let mut m = status_with(&["one", "", "two", "three"]);
    let mut seen = Vec::new();
    for _ in 0..12 {
        seen.push(m.tick(0).unwrap());
    }
    let expected: Vec<String> = ["one", "two", "three"]
        .iter()
        .flat_map(|s| std::iter::repeat(s.to_string()).take(4))
        .collect();
    assert_eq!(seen, expected);
    assert_eq!(m.tick(0).as_deref(), Some("one"));
}

#[test]
fn status_with_no_lines_yields_nothing() {
    let mut m = status_with(&[]);
    assert_eq!(m.tick(0), None);
    m.set_line(9, "ignored".to_string());
    assert_eq!(m.tick(0), None);
}

#[test]
fn status_shrinking_resets_to_first_line() {
    let mut m = status_with(&["a", "b", "c"]);
    for _ in 0..8 {
        m.tick(0);
    }
    assert_eq!(m.tick(0).as_deref(), Some("c"));
    m.set_line(2, String::new());
    assert_eq!(m.tick(0).as_deref(), Some("a"));
}

#[test]
fn system_details_rotate_through_four_facts() {
    let mut m = SystemDetailsModule::from_facts("Arch", "Rolling", "AMD Ryzen 9 5900X 12-Core Processor", "RTX 3080", 16 * 1024 * 1024 * 1024);
    assert_eq!(m.tick(0), None);
    m.set_enabled(true);
    let mut seen = Vec::new();
    for _ in 0..16 {
        seen.push(m.tick(0).unwrap());
    }
    assert_eq!(seen[0], "arch ");
    assert_eq!(seen[4], "amd ryzen ⁹ ⁵⁹⁰⁰x");
    assert_eq!(seen[8], "rtx ³⁰⁸⁰");
    assert_eq!(seen[12], "¹⁶gb");
    for i in 0..16 {
        assert_eq!(seen[i], seen[i - i % 4]);
    }
    assert_eq!(m.tick(0), Some(seen[0].clone()));
}

#[test]
fn gpu_names_are_cleaned() {
    assert_eq!(clean_gpu_name("NVIDIA GeForce RTX 3080"), "RTX 3080");
    assert_eq!(
        clean_gpu_name("Advanced Micro Devices, Inc. [AMD/ATI] Navi 21 [Radeon RX 6800]"),
        "/ATI Navi 21 Radeon RX 6800"
    );
    assert_eq!(clean_gpu_name("  Intel   UHD  "), "Intel UHD");
}

#[test]
fn gpu_from_driver_and_lspci_text() {
    let info = "Model: \t NVIDIA GeForce RTX 4070\nIRQ: 42\n";
    assert_eq!(gpu_from_nvidia_info(info).as_deref(), Some("RTX 4070"));
    assert_eq!(gpu_from_nvidia_info("IRQ: 1\n"), None);
    let lspci = "00:00.0 Host bridge: Intel\n01:00.0 VGA compatible controller: NVIDIA Corporation GA104 [GeForce RTX 3070]\n";
    assert_eq!(gpu_from_lspci(lspci).as_deref(), Some("Corporation GA104 RTX 3070"));
    assert_eq!(gpu_from_lspci("00:00.0 Host bridge: Intel\n"), None);
}

#[test]
fn cpu_brand_is_cleaned() {
    assert_eq!(cpu_name_from_brand("AMD Ryzen 9 5900X 12-Core Processor"), "AMD Ryzen 9 5900X");
    assert_eq!(cpu_name_from_brand("  Intel(R) Core(TM) i7-9700K CPU @ 3.60GHz "), "Intel(R) Core(TM) i7-9700K CPU @ 3.60GHz");
    assert_eq!(cpu_name_from_brand("AMD Ryzen 5 3600 6-Core Processor"), "AMD Ryzen 5 3600");
    assert_eq!(cpu_name_from_brand("12-Core"), "12-Core");
    assert_eq!(cpu_name_from_brand("   "), "Unknown");
}

#[test]
fn ram_rounds_up_to_power_of_two_gib() {
    let gib: u64 = 1024 * 1024 * 1024;
    assert_eq!(ram_gb(0), 1);
    assert_eq!(ram_gb(gib / 2), 1);
    assert_eq!(ram_gb(gib), 1);
    assert_eq!(ram_gb(gib + 1), 2);
    assert_eq!(ram_gb(15 * gib + gib / 2), 16);
    assert_eq!(ram_gb(16 * gib), 16);
    assert_eq!(ram_gb(u64::MAX), 1 << 34);
}

#[test]
fn afk_after_timeout_until_poked() {
    let mut m = AfkModule::new();
    m.set_enabled(true);
    m.set_timeout_secs(5);
    m.set_afk_text("away".to_string());
    m.poke(10_000);
    for s in 0..5u64 {
        assert_eq!(m.tick(10_000 + s * 1000), None);
        assert!(!m.is_afk());
    }
    assert_eq!(m.tick(14_999), None);
    for s in 5..9u64 {
        assert_eq!(m.tick(10_000 + s * 1000).as_deref(), Some("away"));
        assert!(m.is_afk());
    }
    m.poke(20_000);
    assert!(!m.is_afk());
    assert_eq!(m.tick(21_000), None);
    m.set_enabled(false);
    assert_eq!(m.tick(100_000), None);
}

#[test]
fn afk_defaults() {
    let mut m = AfkModule::new();
    assert_eq!(m.tick(1_000_000), None);
    m.set_enabled(true);
    assert_eq!(m.tick(299_999), None);
    assert_eq!(m.tick(300_000).as_deref(), Some("AFK"));
}

#[test]
fn network_rate_never_negative_after_counter_reset() {
    let mut m = NetworkModule::new();
    assert_eq!(m.record_sample(5000, 300), "NET down:⁵kb/s up:³⁰⁰b/s");
    assert_eq!(m.record_sample(100, 200), "NET down:⁰b/s up:⁰b/s");
    assert_eq!(m.record_sample(1124, 200), "NET down:¹⁰²⁴b/s up:⁰b/s");
}

#[test]
fn rates_use_three_units() {
    assert_eq!(format_rate(0), "0b/s");
    assert_eq!(format_rate(1024), "1024b/s");
    assert_eq!(format_rate(1025), "1kb/s");
    assert_eq!(format_rate(1536), "2kb/s");
    assert_eq!(format_rate(2560), "2kb/s");
    assert_eq!(format_rate(1_048_576), "1024kb/s");
    assert_eq!(format_rate(1_048_577), "1.0mb/s");
    assert_eq!(format_rate(1_572_864), "1.5mb/s");
    assert_eq!(format_rate(10 * 1_048_576), "10.0mb/s");
}

#[test]
fn counters_are_summed_with_saturation() {
    assert_eq!(total_counters(&vec![]), (0, 0));
    assert_eq!(total_counters(&vec![(1, 2), (3, 4)]), (4, 6));
    assert_eq!(total_counters(&vec![(u64::MAX, 1), (5, 1)]), (u64::MAX, 2));
}

#[test]
fn stats_text_for_cpu_and_ram() {
    assert_eq!(
        render_stats(true, true, "37", 8192, 16384).as_deref(),
        Some("CPU ³⁷﹪ | RAM ⁸¹⁹²/¹⁶³⁸⁴mb")
    );
    assert_eq!(render_stats(true, false, "5", 1, 2).as_deref(), Some("CPU ⁵﹪"));
    assert_eq!(render_stats(false, true, "5", 1, 2).as_deref(), Some("RAM ¹/²mb"));
    assert_eq!(render_stats(false, false, "5", 1, 2), None);
}

#[test]
fn media_progress_bar_and_times() {
    assert_eq!(progress_bar(30_000_000, 200_000_000), "━━――――――――");
    assert_eq!(progress_bar(0, 0), "――――――――――");
    assert_eq!(progress_bar(500, 100), "━━━━━━━━━━");
    assert_eq!(progress_bar(5, 100), "━―――――――――");
    assert_eq!(format_time(0), "0:00");
    assert_eq!(format_time(65_000_000), "1:05");
    assert_eq!(format_time(200_000_000), "3:20");
}

#[test]
fn media_text_for_a_playing_track() {
    let info = MediaInfo {
        artist: "Artist".to_string(),
        title: "Song".to_string(),
        status: "Playing".to_string(),
        position_us: 30_000_000,
        length_us: 200_000_000,
    };
    assert_eq!(render_media(&info).as_deref(), Some("▶ Artist - Song\n━━―――――――― 0:30/3:20"));
    let paused = MediaInfo { status: "Paused".to_string(), ..info };
    assert!(render_media(&paused).unwrap().starts_with("⏸ "));
    let stopped = MediaInfo { status: "Stopped".to_string(), ..paused };
    assert!(render_media(&stopped).unwrap().starts_with("■ "));
    let empty = MediaInfo { artist: String::new(), title: String::new(), ..stopped };
    assert_eq!(render_media(&empty), None);
}

#[test]
fn media_module_shows_latest_track_when_enabled() {
    let mut m = MediaModule::new();
    m.set_info(parse_media_info("A\nT\nPaused\n1000000\n2000000\n"));
    assert_eq!(m.tick(0), None);
    m.set_enabled(true);
    assert_eq!(m.tick(0).as_deref(), Some("⏸ A - T\n━━━━━――――― 0:01/0:02"));
    m.set_info(None);
    assert_eq!(m.tick(0), None);
}

#[test]
fn player_choice_prefers_spotify() {
    assert_eq!(choose_player("vlc\nspotify.instance1\n").as_deref(), Some("spotify.instance1"));
    assert_eq!(choose_player("firefox\r\nmpv\n").as_deref(), Some("firefox"));
    assert_eq!(choose_player("  \nmpv\n"), None);
    assert_eq!(choose_player(""), None);
}

#[test]
fn metadata_parsing() {
    let info = parse_media_info("Artist\nTitle\nPlaying\n+15\nbad\n").unwrap();
    assert_eq!(info.artist, "Artist");
    assert_eq!(info.title, "Title");
    assert_eq!(info.status, "Playing");
    assert_eq!(info.position_us, 15);
    assert_eq!(info.length_us, 0);
    assert!(parse_media_info("a\nb\nc\n1\n").is_none());
    let big = parse_media_info("a\nb\nc\n18446744073709551616\n18446744073709551615").unwrap();
    assert_eq!(big.position_us, 0);
    assert_eq!(big.length_us, u64::MAX);
}

#[test]
fn heartrate_text() {
    assert_eq!(render_bpm(Some(72)).as_deref(), Some("72 BPM"));
    assert_eq!(render_bpm(None), None);
    let mut m = HeartrateModule::new();
    m.set_bpm(Some(80));
    assert_eq!(m.tick(0), None);
    m.set_enabled(true);
    assert_eq!(m.tick(0).as_deref(), Some("80 BPM"));
    let handle = m.bpm_handle();
    *handle.lock().unwrap() = Some(91);
    assert_eq!(m.tick(0).as_deref(), Some("91 BPM"));
    m.set_bpm(None);
    assert_eq!(m.tick(0), None);
    m.set_token("abc".to_string());
    assert_eq!(m.token(), "abc");
}

#[test]
fn heartrate_keeps_last_reading_while_cell_is_busy() {
    let mut m = HeartrateModule::new();
    m.set_enabled(true);
    m.set_bpm(Some(70));
    assert_eq!(m.tick(0).as_deref(), Some("70 BPM"));
    let handle = m.bpm_handle();
    let mut guard = handle.lock().unwrap();
    *guard = Some(99);
    assert_eq!(m.tick(0).as_deref(), Some("70 BPM"));
    drop(guard);
    assert_eq!(m.tick(0).as_deref(), Some("99 BPM"));
}

#[test]
fn time_module_formats_when_enabled() {
    let mut m = TimeModule::new();
    assert_eq!(m.tick(0), None);
    m.set_enabled(true);
    let t = m.tick(0).unwrap();
    assert_eq!(t.len(), 5);
    assert_eq!(&t[2..3], ":");
    m.set_format("%Y".to_string());
    assert_eq!(m.tick(0).unwrap().len(), 4);
}
