use mouse_tracker::command::{command_for_key, Command, Key};
use mouse_tracker::config::{
    parse_flag, parse_rate, parse_u64, resolve_config, sleep_interval_micros, ConfigError,
    RunConfig,
};
use mouse_tracker::session::{
    Action, MousePosition, Notice, Sampler, StreamSample, Telemetry, Toggles,
};

fn config(rate: u64, streaming: bool) -> RunConfig {
    RunConfig { sample_rate_hz: rate, streaming_requested: streaming }
}

fn step(s: &mut Sampler, key: Option<Key>, pos: MousePosition) -> Option<mouse_tracker::session::TickOutput> {
    s.handle_input(key);
    if s.action() == Action::Acquire {
        Some(s.tick(pos))
    } else {
        None
    }
}

#[test]
fn interval_is_one_second_over_rate() {
    assert_eq!(sleep_interval_micros(100), Ok(10_000));
    assert_eq!(sleep_interval_micros(10), Ok(100_000));
    assert_eq!(sleep_interval_micros(3), Ok(333_333));
    assert_eq!(sleep_interval_micros(1), Ok(1_000_000));
    assert_eq!(sleep_interval_micros(2_000_000), Ok(0));
}

#[test]
fn zero_rate_is_rejected() {
    assert_eq!(sleep_interval_micros(0), Err(ConfigError::ZeroRate));
    assert_eq!(parse_rate("0"), Err(ConfigError::ZeroRate));
    assert_eq!(resolve_config(Some("0"), None), Err(ConfigError::ZeroRate));
}

#[test]
fn parse_u64_reads_decimal_text() {
    assert_eq!(parse_u64("0"), Some(0));
    assert_eq!(parse_u64("0042"), Some(42));
    assert_eq!(parse_u64("18446744073709551615"), Some(u64::MAX));
    assert_eq!(parse_u64("18446744073709551616"), None);
    assert_eq!(parse_u64(""), None);
    assert_eq!(parse_u64("12a"), None);
    assert_eq!(parse_u64("-1"), None);
}

#[test]
fn parse_rate_accepts_positive_numbers_only() {
    assert_eq!(parse_rate("100"), Ok(100));
    assert_eq!(parse_rate("7"), Ok(7));
    assert_eq!(parse_rate("fast"), Err(ConfigError::InvalidRate));
    assert_eq!(parse_rate(""), Err(ConfigError::InvalidRate));
    assert_eq!(parse_rate("99999999999999999999"), Err(ConfigError::InvalidRate));
}

#[test]
fn parse_flag_enables_on_one_only() {
    assert_eq!(parse_flag("1"), Ok(true));
    assert_eq!(parse_flag("0"), Ok(false));
    assert_eq!(parse_flag("2"), Ok(false));
    assert_eq!(parse_flag("yes"), Err(ConfigError::InvalidFlag));
}

#[test]
fn resolve_config_defaults_and_errors() {
    assert_eq!(resolve_config(None, None), Ok(config(100, true)));
    assert_eq!(resolve_config(Some("10"), Some("0")), Ok(config(10, false)));
    assert_eq!(resolve_config(Some("x"), Some("y")), Err(ConfigError::InvalidRate));
    assert_eq!(resolve_config(Some("5"), Some("y")), Err(ConfigError::InvalidFlag));
}

#[test]
fn key_table() {
    assert_eq!(command_for_key(Key::Esc), Command::Exit);
    assert_eq!(command_for_key(Key::Char('q')), Command::Exit);
    assert_eq!(command_for_key(Key::Char('p')), Command::Pause);
    assert_eq!(command_for_key(Key::Char('s')), Command::ChangeRate);
    assert_eq!(command_for_key(Key::Char('l')), Command::ToggleStream);
    assert_eq!(command_for_key(Key::Char('d')), Command::ToggleDisplay);
    assert_eq!(command_for_key(Key::Char('Q')), Command::NoOp);
    assert_eq!(command_for_key(Key::Null), Command::NoOp);
    assert_eq!(command_for_key(Key::Other), Command::NoOp);
}

#[test]
fn toggling_twice_restores_both_switches() {
    let start = Toggles::new(true);
    let mut t = start;
    t.toggle_stream();
    assert!(!t.streaming_enabled);
    assert!(t.display_enabled);
    t.toggle_stream();
    assert_eq!(t, start);
    t.toggle_display();
    assert!(!t.display_enabled);
    assert!(t.streaming_enabled);
    t.toggle_display();
    assert_eq!(t, start);
}

#[test]
fn stream_tag_follows_streaming() {
    assert_eq!(Toggles::new(true).stream_tag(), "[+lsl]");
    assert_eq!(Toggles::new(false).stream_tag(), "[-lsl]");
}

#[test]
fn stream_sample_channels_are_x_then_y() {
    assert_eq!(StreamSample { x: 3, y: -4 }.channels(), vec![3, -4]);
}

#[test]
fn streaming_off_never_publishes() {
    let mut s = Sampler::new(config(100, false));
    for i in 0..50 {
        let out = s.tick(MousePosition::new(i, i as i32, -(i as i32)));
        assert_eq!(out.published, None);
    }
    assert_eq!(s.sample_count, 50);
}

#[test]
fn display_off_shows_no_line() {
    let mut s = Sampler::new(config(100, true));
    assert_eq!(s.handle_input(Some(Key::Char('d'))), Notice::DisplayOff);
    let out = s.tick(MousePosition::new(5, 1, 2));
    assert_eq!(out.telemetry, None);
    assert_eq!(out.published, Some(StreamSample { x: 1, y: 2 }));
    assert_eq!(s.handle_input(Some(Key::Char('d'))), Notice::Silent);
    assert!(s.tick(MousePosition::new(6, 1, 2)).telemetry.is_some());
}

#[test]
fn pause_blocks_until_one_key() {
    let mut s = Sampler::new(config(100, true));
    assert_eq!(s.handle_input(Some(Key::Char('p'))), Notice::PausePrompt);
    assert_eq!(s.action(), Action::WaitForKey);
    let out = s.tick(MousePosition::new(1, 1, 1));
    assert_eq!(out.published, None);
    assert_eq!(out.telemetry, None);
    assert_eq!(s.sample_count, 0);
    assert_eq!(s.handle_input(None), Notice::Silent);
    assert_eq!(s.action(), Action::WaitForKey);
    // the key that ends the pause is consumed and not dispatched
    assert_eq!(s.handle_input(Some(Key::Char('l'))), Notice::Silent);
    assert_eq!(s.action(), Action::Acquire);
    assert!(s.toggles.streaming_enabled);
    let out = s.tick(MousePosition::new(2, 8, 9));
    assert_eq!(out.published, Some(StreamSample { x: 8, y: 9 }));
    assert_eq!(s.sample_count, 1);
}

#[test]
fn exit_stops_before_any_acquisition() {
    for key in [Key::Esc, Key::Char('q')] {
        let mut s = Sampler::new(config(100, true));
        assert_eq!(s.handle_input(Some(key)), Notice::Farewell);
        assert_eq!(s.action(), Action::Exit);
        let out = s.tick(MousePosition::new(1, 1, 1));
        assert_eq!(out.published, None);
        assert_eq!(out.telemetry, None);
        assert_eq!(s.sample_count, 0);
        assert_eq!(s.handle_input(Some(Key::Char('p'))), Notice::Silent);
        assert_eq!(s.action(), Action::Exit);
    }
}

#[test]
fn rate_change_key_is_reported_unavailable() {
    let mut s = Sampler::new(config(100, true));
    let before = s;
    assert_eq!(s.handle_input(Some(Key::Char('s'))), Notice::RateChangeUnavailable);
    assert_eq!(s, before);
}

#[test]
fn first_tick_publishes_acquired_sample_at_rate_100() {
    let cfg = resolve_config(Some("100"), None).unwrap();
    assert_eq!(sleep_interval_micros(cfg.sample_rate_hz), Ok(10_000));
    let mut s = Sampler::new(cfg);
    let out = step(&mut s, None, MousePosition::new(0, 640, 480)).unwrap();
    assert_eq!(out.published, Some(StreamSample { x: 640, y: 480 }));
    assert_eq!(out.published.unwrap().channels(), vec![640, 480]);
    assert_eq!(
        out.telemetry,
        Some(Telemetry { count: 1, timestamp: 0, x: 640, y: 480, streaming: true })
    );
}

#[test]
fn streaming_disabled_at_start_publishes_nothing_over_five_ticks() {
    let cfg = resolve_config(Some("10"), Some("0")).unwrap();
    assert_eq!(sleep_interval_micros(cfg.sample_rate_hz), Ok(100_000));
    let mut s = Sampler::new(cfg);
    let mut published = 0;
    let mut lines = 0;
    for i in 0..5u128 {
        let out = step(&mut s, None, MousePosition::new(i * 100, 10, 20)).unwrap();
        if out.published.is_some() {
            published += 1;
        }
        if let Some(line) = out.telemetry {
            assert!(!line.streaming);
            assert_eq!(line.count, (i + 1) as u64);
            lines += 1;
        }
    }
    assert_eq!(published, 0);
    assert_eq!(lines, 5);
}

#[test]
fn toggling_streaming_off_and_on_pauses_publishing() {
    let mut s = Sampler::new(config(100, true));
    let mut calls = Vec::new();
    let keys = [None, Some(Key::Char('l')), None, None, Some(Key::Char('l')), None];
    for (i, key) in keys.iter().enumerate() {
        let out = step(&mut s, *key, MousePosition::new(i as u128, i as i32, 0)).unwrap();
        calls.push(out.published.is_some());
    }
    assert_eq!(calls, vec![true, false, false, false, true, true]);
    let mut t = Sampler::new(config(100, true));
    assert_eq!(t.handle_input(Some(Key::Char('l'))), Notice::StreamingSet(false));
    assert_eq!(t.handle_input(Some(Key::Char('l'))), Notice::StreamingSet(true));
}

#[test]
fn count_holds_at_largest_value() {
    let mut s = Sampler::new(config(100, false));
    s.sample_count = u64::MAX - 1;
    s.tick(MousePosition::new(0, 0, 0));
    assert_eq!(s.sample_count, u64::MAX);
    let out = s.tick(MousePosition::new(0, 0, 0));
    assert_eq!(s.sample_count, u64::MAX);
    assert_eq!(out.telemetry.unwrap().count, u64::MAX);
}
