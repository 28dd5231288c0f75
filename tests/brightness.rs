use brighten::error::BrightnessError;
use brighten::percent::{percentage_scaled, Precision};
use brighten::reading::parse_level;
use brighten::report::info_report;
use brighten::state::{key_message, BrightnessState, Key, Message, Options, StepRule, ThemeId};
use brighten::text::{level_argument, percentage_text};

fn options(precision: Precision, step_rule: StepRule) -> Options {
    Options { precision, step_rule, arrow_keys: true, single_level_means_absent: true }
}

fn state(current: u32, max: u32) -> BrightnessState {
    BrightnessState::new(current, max, Options::default()).unwrap()
}

#[test]
fn default_options() {
    let o = Options::default();
    assert_eq!(o.precision, Precision::Whole);
    assert_eq!(o.step_rule, StepRule::Hundredth);
    assert!(o.arrow_keys);
    assert!(o.single_level_means_absent);
}

#[test]
fn percentage_is_nearest_for_every_level() {
    for max in [1u32, 2, 3, 7, 100, 255, 937, 120000] {
        for precision in [Precision::Whole, Precision::Hundredths] {
            let units: i128 = if precision == Precision::Whole { 1 } else { 100 };
            let mut level: u32 = 0;
            while level <= max {
                let s = BrightnessState::new(level, max, options(precision, StepRule::Single))
                    .unwrap();
                let r = s.percentage() as i128;
                let exact = level as i128 * 100 * units;
                assert!(2 * (r * max as i128 - exact).abs() <= max as i128);
                level += if max > 1000 { 997 } else { 1 };
            }
        }
    }
}

#[test]
fn initial_percentage_at_128_of_255() {
    let s = state(128, 255);
    assert_eq!(s.percentage(), 50);
    assert_eq!(s.label(), "50%");
    let h = BrightnessState::new(128, 255, options(Precision::Hundredths, StepRule::Single))
        .unwrap();
    assert_eq!(h.percentage(), 5020);
    assert_eq!(h.label(), "50.20%");
}

#[test]
fn ties_round_to_even() {
    assert_eq!(percentage_scaled(1, 8, Precision::Whole), 12);
    assert_eq!(percentage_scaled(3, 8, Precision::Whole), 38);
    assert_eq!(percentage_text(1, 8, Precision::Whole), "12%");
    assert_eq!(percentage_text(1, 8, Precision::Hundredths), "12.50%");
    assert_eq!(percentage_text(1, 3, Precision::Hundredths), "33.33%");
    assert_eq!(percentage_text(2, 3, Precision::Hundredths), "66.67%");
}

#[test]
fn percentage_text_edges() {
    assert_eq!(percentage_text(0, 255, Precision::Whole), "0%");
    assert_eq!(percentage_text(0, 255, Precision::Hundredths), "0.00%");
    assert_eq!(percentage_text(255, 255, Precision::Whole), "100%");
    assert_eq!(percentage_text(1, 1000, Precision::Hundredths), "0.10%");
    assert_eq!(percentage_text(u32::MAX, u32::MAX, Precision::Hundredths), "100.00%");
    assert_eq!(percentage_text(u32::MAX, 1, Precision::Whole), "429496729500%");
}

#[test]
fn increment_at_max_keeps_level() {
    let mut s = state(255, 255);
    assert_eq!(s.update(Message::Add), None);
    assert_eq!(s.current_level(), 255);
}

#[test]
fn decrement_at_zero_keeps_level() {
    let mut s = state(0, 255);
    assert_eq!(s.update(Message::Minus), None);
    assert_eq!(s.current_level(), 0);
}

#[test]
fn decrement_lowers_by_one() {
    let mut s = state(10, 255);
    assert_eq!(s.update(Message::Minus), Some(9));
    assert_eq!(s.current_level(), 9);
    assert_eq!(s.label(), "4%");
}

#[test]
fn slider_sets_level() {
    for v in [0u32, 1, 77, 200] {
        let mut s = state(50, 200);
        assert_eq!(s.update(Message::Adjust(v)), Some(v));
        assert_eq!(s.current_level(), v);
        assert_eq!(s.max_level(), 200);
    }
}

#[test]
fn slider_to_same_level_still_sets() {
    let mut s = state(50, 200);
    assert_eq!(s.update(Message::Adjust(50)), Some(50));
    assert_eq!(s.current_level(), 50);
}

#[test]
fn slider_above_max_is_clamped() {
    let mut s = state(50, 200);
    assert_eq!(s.update(Message::Adjust(500)), Some(200));
    assert_eq!(s.current_level(), 200);
    assert_eq!(s.label(), "100%");
}

#[test]
fn increment_from_254_to_255_then_noop() {
    let mut s = state(254, 255);
    let mut calls: Vec<u32> = Vec::new();
    if let Some(v) = s.update(Message::Add) {
        calls.push(v);
    }
    assert_eq!(s.current_level(), 255);
    assert_eq!(calls, vec![255]);
    if let Some(v) = s.update(Message::Add) {
        calls.push(v);
    }
    assert_eq!(s.current_level(), 255);
    assert_eq!(calls, vec![255]);
}

#[test]
fn new_refuses_zero_max() {
    assert!(matches!(
        BrightnessState::new(0, 0, Options::default()),
        Err(BrightnessError::NoRange)
    ));
}

#[test]
fn new_refuses_level_above_max() {
    assert!(matches!(
        BrightnessState::new(256, 255, Options::default()),
        Err(BrightnessError::LevelAboveMax)
    ));
}

#[test]
fn initialize_reads_outputs() {
    let s = BrightnessState::initialize(b"128\n", b"255\n", Options::default()).unwrap();
    assert_eq!(s.current_level(), 128);
    assert_eq!(s.max_level(), 255);
    assert_eq!(s.options(), Options::default());
}

#[test]
fn initialize_refuses_malformed_output() {
    assert!(matches!(
        BrightnessState::initialize(b"abc", b"255", Options::default()),
        Err(BrightnessError::MalformedOutput)
    ));
    assert!(matches!(
        BrightnessState::initialize(b"12", b"", Options::default()),
        Err(BrightnessError::MalformedOutput)
    ));
    assert!(matches!(
        BrightnessState::initialize(b"300", b"255", Options::default()),
        Err(BrightnessError::LevelAboveMax)
    ));
    assert!(matches!(
        BrightnessState::initialize(b"0", b"0", Options::default()),
        Err(BrightnessError::NoRange)
    ));
}

#[test]
fn parse_accepts_decimal_with_whitespace() {
    assert_eq!(parse_level(b"128\n"), Ok(128));
    assert_eq!(parse_level(b" \t 42 \r\n"), Ok(42));
    assert_eq!(parse_level(b"+7"), Ok(7));
    assert_eq!(parse_level(b"007"), Ok(7));
    assert_eq!(parse_level(b"0"), Ok(0));
    assert_eq!(parse_level(b"4294967295"), Ok(u32::MAX));
    assert_eq!(parse_level(b"00000000000000000000001"), Ok(1));
}

#[test]
fn parse_refuses_malformed() {
    for out in [
        &b""[..],
        b"   \n",
        b"+",
        b"-1",
        b"12a",
        b"1 2",
        b"++1",
        b"4294967296",
        b"99999999999999999999999",
        b"\xff",
    ] {
        assert_eq!(parse_level(out), Err(BrightnessError::MalformedOutput));
    }
}

#[test]
fn info_prints_quarter() {
    let r = info_report(50, 200, Options::default()).unwrap();
    assert_eq!(r.as_deref(), Some("25%"));
    let h = info_report(50, 200, options(Precision::Hundredths, StepRule::Single)).unwrap();
    assert_eq!(h.as_deref(), Some("25.00%"));
}

#[test]
fn info_single_level_prints_nothing() {
    assert_eq!(info_report(1, 1, Options::default()), Ok(None));
    assert_eq!(info_report(0, 1, Options::default()), Ok(None));
    let mut o = Options::default();
    o.single_level_means_absent = false;
    assert_eq!(info_report(1, 1, o).unwrap().as_deref(), Some("100%"));
}

#[test]
fn info_errors() {
    assert_eq!(info_report(0, 0, Options::default()), Err(BrightnessError::NoRange));
    assert_eq!(info_report(3, 2, Options::default()), Err(BrightnessError::LevelAboveMax));
}

#[test]
fn step_follows_rule() {
    assert_eq!(state(0, 255).step(), 2);
    assert_eq!(state(0, 50).step(), 0);
    assert_eq!(state(0, 120000).step(), 1200);
    let s = BrightnessState::new(0, 255, options(Precision::Whole, StepRule::Single)).unwrap();
    assert_eq!(s.step(), 1);
}

#[test]
fn arrow_keys_map_to_events() {
    assert_eq!(key_message(Key::ArrowUp), Some(Message::Add));
    assert_eq!(key_message(Key::ArrowDown), Some(Message::Minus));
    assert_eq!(key_message(Key::Other), None);
}

#[test]
fn theme_is_fixed() {
    assert_eq!(state(3, 9).theme(), ThemeId::CatppuccinMacchiato);
}

#[test]
fn level_argument_is_decimal() {
    assert_eq!(level_argument(0), "0");
    assert_eq!(level_argument(255), "255");
    assert_eq!(level_argument(u32::MAX), "4294967295");
}
