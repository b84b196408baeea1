use std::sync::atomic::{AtomicBool, Ordering};
use std::sync::Arc;

use mooncap::alarm::{stop_alarm, AlarmCoordinator};
use mooncap::app::{App, UiMode, DEFAULT_INTERVAL_SECS, DEFAULT_TARGET_CENTS};
use mooncap::clock::ClockTime;
use mooncap::input::{
    handle_modal_input, handle_modal_input_at, handle_normal_input, handle_normal_input_at, Key,
};
use mooncap::market::{Liquidity, PairData, PriceChange, Token, TxnCount, Txns, Volume};
use mooncap::scheduler::{apply_fetch_outcome, apply_fetch_outcome_at, should_fetch_now};

fn at(hour: u32, minute: u32, second: u32) -> ClockTime {
    ClockTime { hour, minute, second }
}

fn record(market_cap: Option<u64>) -> PairData {
    PairData {
        chain_id: Some("solana".to_string()),
        dex_id: None,
        pair_address: None,
        base_token: Some(Token {
            address: None,
            name: Some("Moon".to_string()),
            symbol: Some("MOON".to_string()),
        }),
        quote_token: None,
        price_native: None,
        price_usd: Some("0.00004200".to_string()),
        fdv: Some(7_000_000),
        market_cap,
        txns: Some(Txns {
            m5: None,
            h1: None,
            h6: None,
            h24: Some(TxnCount { buys: Some(420), sells: Some(69) }),
        }),
        volume: Some(Volume { h24: Some(690_000), h6: None, h1: None, m5: None }),
        price_change: Some(PriceChange { h1: Some(420), h6: None, h24: Some(-1337) }),
        liquidity: Some(Liquidity { usd: Some(850_000), base: None, quote: None }),
    }
}

fn configured(target_cents: u64) -> App {
    App::new_with_config_at(
        at(12, 0, 0),
        "PAIR".to_string(),
        "solana".to_string(),
        target_cents,
        180,
        None,
        300,
    )
}

#[test]
fn scenario_progress_and_target_hit() {
    let mut app = configured(10_000_000);
    app.update_from_pair_data_at(at(12, 0, 1), &record(Some(5_000_000)));
    assert_eq!(app.progress(), 5000);
    assert!(!app.target_hit);
    let before = app.log_messages.len();
    app.update_from_pair_data_at(at(12, 0, 2), &record(Some(15_000_000)));
    assert_eq!(app.progress(), 10000);
    assert!(app.target_hit);
    assert!(app.alarm_active);
    assert_eq!(app.log_messages.len(), before + 2);
    let hits = app.log_messages.iter().filter(|l| l.contains("TARGET HIT")).count();
    assert_eq!(hits, 1);
    assert_eq!(
        app.log_messages[app.log_messages.len() - 1],
        "[12:00:02] 🔥 TARGET HIT! Market cap reached $150000 🔥"
    );
}

#[test]
fn fetch_log_line_and_metrics() {
    let mut app = configured(10_000_000);
    app.update_from_pair_data_at(at(9, 5, 7), &record(Some(4_200_012)));
    assert_eq!(
        app.log_messages[app.log_messages.len() - 1],
        "[09:05:07] MCap: $42000 | Price: $0.00004200 | 1h: +4.20%"
    );
    assert_eq!(app.token_name, "Moon");
    assert_eq!(app.token_symbol, "MOON");
    assert_eq!(app.current_price, 420_000);
    assert_eq!(app.market_cap, 4_200_012);
    assert_eq!(app.fdv, 7_000_000);
    assert_eq!(app.volume_24h, 690_000);
    assert_eq!(app.price_change_1h, 420);
    assert_eq!(app.price_change_24h, -1337);
    assert_eq!(app.liquidity_usd, 850_000);
    assert_eq!(app.buys_24h, 420);
    assert_eq!(app.sells_24h, 69);
    assert_eq!(app.market_cap_history, vec![42_000]);
    assert_eq!(app.fetch_count, 1);
    assert_eq!(app.last_fetch.as_deref(), Some("09:05:07"));
}

#[test]
fn missing_fields_read_as_zero() {
    let mut app = configured(10_000_000);
    app.update_from_pair_data_at(at(1, 2, 3), &record(Some(5_000_000)));
    let mut bare = record(None);
    bare.fdv = None;
    bare.price_usd = Some("not a number".to_string());
    bare.volume = None;
    bare.price_change = None;
    bare.liquidity = None;
    bare.txns = None;
    bare.base_token = None;
    app.update_from_pair_data_at(at(1, 2, 4), &bare);
    assert_eq!(app.market_cap, 0);
    assert_eq!(app.fdv, 0);
    assert_eq!(app.current_price, 0);
    assert_eq!(app.volume_24h, 0);
    assert_eq!(app.price_change_1h, 0);
    assert_eq!(app.liquidity_usd, 0);
    assert_eq!(app.buys_24h, 0);
    assert_eq!(app.token_name, "Moon");
}

#[test]
fn market_cap_falls_back_to_fdv() {
    let mut app = configured(10_000_000);
    app.update_from_pair_data_at(at(1, 2, 3), &record(None));
    assert_eq!(app.market_cap, 7_000_000);
    assert_eq!(app.market_cap_history, vec![70_000]);
}

#[test]
fn history_keeps_last_sixty() {
    let mut app = configured(u64::MAX);
    for i in 0..70u64 {
        app.update_from_pair_data_at(at(0, 0, 0), &record(Some(i * 100)));
        assert_eq!(app.market_cap_history.len() as u64, std::cmp::min(60, i + 1));
    }
    let expected: Vec<u64> = (10..70).collect();
    assert_eq!(app.market_cap_history, expected);
}

#[test]
fn log_keeps_last_hundred() {
    let mut app = App::new_interactive_at(at(0, 0, 0), None, 300);
    app.log_messages.clear();
    for i in 0..120usize {
        app.add_log(format!("line {}", i));
        assert_eq!(app.log_messages.len(), std::cmp::min(100, i + 1));
    }
    assert_eq!(app.log_messages[0], "line 20");
    assert_eq!(app.log_messages[99], "line 119");
}

#[test]
fn progress_monotone_and_clamped() {
    let mut app = configured(10_000_000);
    let mut last = 0;
    for cents in [0u64, 1, 99_999, 2_500_000, 9_999_999, 10_000_000, 10_000_001, 50_000_000] {
        app.market_cap = cents;
        let p = app.progress();
        assert!(p >= last);
        last = p;
    }
    app.market_cap = 10_000_000;
    assert_eq!(app.progress(), 10000);
    app.market_cap = 99_000_000;
    assert_eq!(app.progress(), 10000);
    app.market_cap = 2_500_000;
    assert_eq!(app.progress(), 2500);
    app.target_market_cap = 0;
    assert_eq!(app.progress(), 0);
}

#[test]
fn target_hit_rises_once_and_resets_on_submit() {
    let mut app = configured(10_000_000);
    let mut rises = 0;
    for cents in [20_000_000u64, 1_000, 30_000_000, 5, 40_000_000] {
        let was = app.target_hit;
        app.update_from_pair_data_at(at(0, 0, 0), &record(Some(cents)));
        if !was && app.target_hit {
            rises += 1;
        }
        assert!(app.target_hit);
    }
    assert_eq!(rises, 1);
    let hits = app.log_messages.iter().filter(|l| l.contains("TARGET HIT")).count();
    assert_eq!(hits, 1);
    app.add_error_at(at(0, 0, 1), "boom".to_string());
    assert!(app.target_hit);
    app.open_modal();
    assert!(app.submit_configuration_form_at(at(0, 0, 2)));
    assert!(!app.target_hit);
    assert!(!app.alarm_active);
}

#[test]
fn one_alarm_for_two_hits() {
    let mut app = configured(10_000_000);
    let mut alarm = AlarmCoordinator::new();
    let mut starts = 0;
    for cents in [15_000_000u64, 16_000_000] {
        let start = apply_fetch_outcome_at(at(0, 0, 0), &mut app, Ok(record(Some(cents))), &alarm);
        if start {
            starts += 1;
            assert!(alarm.attach(Arc::new(AtomicBool::new(false))));
        }
    }
    assert_eq!(starts, 1);
    assert!(alarm.is_sounding());
}

#[test]
fn second_attach_is_stopped() {
    let mut alarm = AlarmCoordinator::new();
    let first = Arc::new(AtomicBool::new(false));
    let second = Arc::new(AtomicBool::new(false));
    assert!(alarm.attach(first.clone()));
    assert!(!alarm.attach(second.clone()));
    assert!(second.load(Ordering::Relaxed));
    assert!(!first.load(Ordering::Relaxed));
    assert!(alarm.stop());
    assert!(first.load(Ordering::Relaxed));
    assert!(!alarm.stop());
    assert!(!alarm.is_sounding());
}

#[test]
fn stop_alarm_sets_flag() {
    let flag = Arc::new(AtomicBool::new(false));
    stop_alarm(&flag);
    assert!(flag.load(Ordering::Relaxed));
}

#[test]
fn fetch_error_is_counted_and_logged() {
    let mut app = configured(10_000_000);
    app.alarm_active = true;
    let alarm = AlarmCoordinator::new();
    let start = apply_fetch_outcome_at(at(23, 59, 59), &mut app, Err("timeout".to_string()), &alarm);
    assert!(!start);
    assert_eq!(app.error_count, 1);
    assert!(app.alarm_active);
    assert_eq!(app.log_messages[app.log_messages.len() - 1], "[23:59:59] ❌ Error: timeout");
}

#[test]
fn blank_address_is_refused() {
    let mut app = App::new_interactive_at(at(0, 0, 0), None, 300);
    app.modal_fields[0] = "  ".to_string();
    let before_log = app.log_messages.clone();
    assert!(!app.submit_configuration_form_at(at(0, 0, 1)));
    assert!(!app.configured);
    assert!(app.modal_open);
    assert_eq!(app.log_messages, before_log);
}

#[test]
fn submit_trims_and_falls_back() {
    let mut app = App::new_interactive_at(at(0, 0, 0), None, 300);
    app.modal_fields = vec![
        "  ADDR ".to_string(),
        "   ".to_string(),
        "abc".to_string(),
        "x1".to_string(),
    ];
    assert!(app.submit_configuration_form_at(at(8, 30, 0)));
    assert_eq!(app.pair_address, "ADDR");
    assert_eq!(app.chain, "solana");
    assert_eq!(app.target_market_cap, DEFAULT_TARGET_CENTS);
    assert_eq!(app.check_interval, DEFAULT_INTERVAL_SECS);
    assert!(app.configured);
    assert_eq!(app.ui_mode(), UiMode::Monitoring);
    assert_eq!(
        app.log_messages,
        vec![
            "[08:30:00] 🚀 Configured | Chain: solana | Target: $100000".to_string(),
            "[08:30:00] 📡 Monitoring pair: ADDR".to_string(),
            "[08:30:00] ⏱  Check interval: 180s".to_string(),
        ]
    );
}

#[test]
fn submit_parses_fields() {
    let mut app = App::new_interactive_at(at(0, 0, 0), None, 300);
    app.modal_fields = vec![
        "addr".to_string(),
        " ethereum ".to_string(),
        " 2500.75 ".to_string(),
        "+60".to_string(),
    ];
    assert!(app.submit_configuration_form_at(at(0, 0, 0)));
    assert_eq!(app.chain, "ethereum");
    assert_eq!(app.target_market_cap, 250_075);
    assert_eq!(app.check_interval, 60);
}

#[test]
fn fresh_interactive_state() {
    let app = App::new_interactive_at(at(7, 8, 9), Some("a.wav".to_string()), 42);
    assert!(!app.configured);
    assert_eq!(app.ui_mode(), UiMode::ConfiguringForm);
    assert_eq!(app.modal_fields, vec!["", "solana", "100000", "180"]);
    assert_eq!(app.modal_active_field, 0);
    assert_eq!(app.log_messages, vec!["[07:08:09] 🚀 MoonCap started — press Enter to configure"]);
    assert_eq!(app.alarm_file.as_deref(), Some("a.wav"));
    assert_eq!(app.alarm_duration, 42);
    assert!(app.running);
    assert!(app.market_cap_history.is_empty());
}

#[test]
fn configured_state_logs_three_lines() {
    let app = configured(12_345_678);
    assert!(app.configured);
    assert_eq!(app.ui_mode(), UiMode::Monitoring);
    assert_eq!(
        app.log_messages,
        vec![
            "[12:00:00] 🚀 MoonCap started | Chain: solana | Target: $123457",
            "[12:00:00] 📡 Monitoring pair: PAIR",
            "[12:00:00] ⏱  Check interval: 180s",
        ]
    );
    assert_eq!(app.modal_fields, vec!["PAIR", "solana", "123456", "180"]);
    assert_eq!(app.token_name, "Loading...");
    assert_eq!(app.token_symbol, "???");
}

#[test]
fn wall_clock_constructors() {
    let app = App::new_interactive(None, 300);
    assert_eq!(app.log_messages.len(), 1);
    assert!(app.log_messages[0].starts_with('['));
    assert_eq!(&app.log_messages[0][9..10], "]");
    let mut app = App::new_with_config("P".to_string(), "bsc".to_string(), 100, 5, None, 1);
    assert_eq!(app.log_messages.len(), 3);
    app.add_error("e".to_string());
    assert_eq!(app.error_count, 1);
    assert!(app.log_messages[3].ends_with("❌ Error: e"));
}

#[test]
fn scheduler_interval_boundary() {
    assert!(!should_fetch_now(true, UiMode::Monitoring, false, 179, 180));
    assert!(should_fetch_now(true, UiMode::Monitoring, false, 180, 180));
    assert!(should_fetch_now(true, UiMode::Monitoring, true, 0, 180));
    assert!(!should_fetch_now(true, UiMode::ConfiguringForm, true, 500, 180));
}

#[test]
fn scheduler_requires_configuration() {
    for mode in [UiMode::Monitoring, UiMode::ConfiguringForm] {
        for forced in [false, true] {
            for elapsed in [0u64, 179, 180, u64::MAX] {
                assert!(!should_fetch_now(false, mode, forced, elapsed, 180));
            }
        }
    }
}

#[test]
fn form_navigation_wraps() {
    let mut app = App::new_interactive_at(at(0, 0, 0), None, 300);
    let mut fetch = false;
    handle_modal_input_at(at(0, 0, 0), &mut app, Key::Up, false, &mut fetch);
    assert_eq!(app.modal_active_field, 3);
    handle_modal_input_at(at(0, 0, 0), &mut app, Key::Tab, false, &mut fetch);
    assert_eq!(app.modal_active_field, 0);
    handle_modal_input_at(at(0, 0, 0), &mut app, Key::Tab, true, &mut fetch);
    assert_eq!(app.modal_active_field, 3);
    handle_modal_input_at(at(0, 0, 0), &mut app, Key::Down, false, &mut fetch);
    handle_modal_input_at(at(0, 0, 0), &mut app, Key::BackTab, false, &mut fetch);
    assert_eq!(app.modal_active_field, 3);
    assert!(!fetch);
}

#[test]
fn form_editing_and_enter() {
    let mut app = App::new_interactive_at(at(0, 0, 0), None, 300);
    let mut fetch = false;
    handle_modal_input_at(at(0, 0, 0), &mut app, Key::Enter, false, &mut fetch);
    assert!(!fetch);
    assert!(app.modal_open);
    for c in "abcd".chars() {
        handle_modal_input_at(at(0, 0, 0), &mut app, Key::Char(c), false, &mut fetch);
    }
    handle_modal_input_at(at(0, 0, 0), &mut app, Key::Backspace, false, &mut fetch);
    assert_eq!(app.modal_fields[0], "abc");
    handle_modal_input_at(at(0, 0, 0), &mut app, Key::Enter, false, &mut fetch);
    assert!(fetch);
    assert!(!app.modal_open);
    assert_eq!(app.pair_address, "abc");
}

#[test]
fn backspace_on_empty_field() {
    let mut app = App::new_interactive_at(at(0, 0, 0), None, 300);
    app.modal_backspace();
    assert_eq!(app.modal_fields[0], "");
    app.modal_next_field();
    app.modal_backspace();
    assert_eq!(app.modal_fields[1], "solan");
}

#[test]
fn escape_in_form() {
    let mut app = App::new_interactive_at(at(0, 0, 0), None, 300);
    let mut fetch = false;
    handle_modal_input_at(at(0, 0, 0), &mut app, Key::Esc, false, &mut fetch);
    assert!(!app.running);
    let mut app = configured(100);
    app.open_modal();
    handle_modal_input_at(at(0, 0, 0), &mut app, Key::Esc, false, &mut fetch);
    assert!(app.running);
    assert!(!app.modal_open);
}

#[test]
fn monitoring_keys() {
    let mut app = configured(100);
    let mut fetch = false;
    let mut alarm = AlarmCoordinator::new();
    handle_normal_input_at(at(1, 1, 1), &mut app, Key::Char('r'), &mut fetch, &mut alarm);
    assert!(fetch);
    assert_eq!(app.log_messages[app.log_messages.len() - 1], "[01:01:01] 🔄 Manual refresh triggered");
    let n = app.log_messages.len();
    handle_normal_input_at(at(1, 1, 2), &mut app, Key::Char('s'), &mut fetch, &mut alarm);
    assert_eq!(app.log_messages.len(), n);
    app.alarm_active = true;
    let flag = Arc::new(AtomicBool::new(false));
    alarm.attach(flag.clone());
    handle_normal_input_at(at(1, 1, 3), &mut app, Key::Char('s'), &mut fetch, &mut alarm);
    assert!(!app.alarm_active);
    assert!(flag.load(Ordering::Relaxed));
    assert_eq!(app.log_messages[app.log_messages.len() - 1], "[01:01:03] 🔇 Alarm stopped manually");
    handle_normal_input_at(at(1, 1, 4), &mut app, Key::Char('x'), &mut fetch, &mut alarm);
    handle_normal_input_at(at(1, 1, 4), &mut app, Key::Char('c'), &mut fetch, &mut alarm);
    assert!(app.modal_open);
    assert_eq!(app.modal_fields, vec!["PAIR", "solana", "1", "180"]);
    app.close_modal();
    handle_normal_input_at(at(1, 1, 5), &mut app, Key::Char('q'), &mut fetch, &mut alarm);
    assert!(!app.running);
}

#[test]
fn wall_clock_operations() {
    let mut app = App::new_interactive(None, 300);
    app.modal_fields[0] = "X".to_string();
    assert!(app.submit_configuration_form());
    assert_eq!(app.log_messages.len(), 3);
    app.update_from_pair_data(&record(Some(100)));
    assert_eq!(app.fetch_count, 1);
    assert_eq!(app.last_fetch.as_ref().map(|s| s.len()), Some(8));
    let mut alarm = AlarmCoordinator::new();
    assert!(!apply_fetch_outcome(&mut app, Err("e".to_string()), &alarm));
    assert_eq!(app.error_count, 1);
    let mut fetch = false;
    handle_normal_input(&mut app, Key::Char('r'), &mut fetch, &mut alarm);
    assert!(fetch);
    handle_normal_input(&mut app, Key::Char('c'), &mut fetch, &mut alarm);
    handle_modal_input(&mut app, Key::Char('Y'), false, &mut fetch);
    assert_eq!(app.modal_fields[0], "XY");
    app.apply_modal_config();
    assert_eq!(app.pair_address, "XY");
    assert_eq!(app.fetch_count, 0);
}
