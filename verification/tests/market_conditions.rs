use upbit_trading_bot::market_conditions::{
    MarketConditionAnalyzer, RecentAverage, DAILY_TRADE_LIMIT, MAX_TRADE_HISTORY,
};

// 2024-01-01T03:00:00Z (12:00 KST), outside the early-morning pause.
const NOON_KST_MS: i64 = 1_704_078_000_000;
const HOUR_MS: i64 = 3_600_000;

fn band(values: Vec<f64>) -> (RecentAverage, String) {
    let avg = values.iter().sum::<f64>() / values.len() as f64;
    let band = if avg < -2.0 {
        RecentAverage::BelowMinusTwo
    } else if avg < -1.0 {
        RecentAverage::BelowMinusOne
    } else if avg < 0.0 {
        RecentAverage::BelowZero
    } else {
        RecentAverage::NotNegative
    };
    (band, format!("{:.2}", avg))
}

fn record(analyzer: &mut MarketConditionAnalyzer<f64>, profit_rate: f64, now: i64) {
    analyzer.record_trade(profit_rate, profit_rate < 0.0, now);
}

fn average_of(analyzer: &MarketConditionAnalyzer<f64>) -> (RecentAverage, String) {
    band(analyzer.recent_trades().items().iter().copied().collect())
}

#[test]
fn test_consecutive_losses_restriction() {
    let mut analyzer = MarketConditionAnalyzer::new();

    analyzer.record_trade(-1.0, true, NOON_KST_MS);
    analyzer.record_trade(-0.5, true, NOON_KST_MS);
    analyzer.record_trade(-1.5, true, NOON_KST_MS);

    let (avg, text) = average_of(&analyzer);
    let restriction = analyzer.can_trade(NOON_KST_MS, avg, &text);
    assert!(!restriction.can_trade);
    assert!(restriction.reason.contains("연속"));
}

#[test]
fn test_daily_trade_limit() {
    let mut analyzer = MarketConditionAnalyzer::new();

    for _ in 0..20 {
        record(&mut analyzer, 1.0, NOON_KST_MS);
    }

    let (avg, text) = average_of(&analyzer);
    let restriction = analyzer.can_trade(NOON_KST_MS, avg, &text);
    assert!(!restriction.can_trade);
    assert!(restriction.reason.contains("한도"));
}

#[test]
fn test_safety_score() {
    let mut analyzer = MarketConditionAnalyzer::new();

    let (avg, _) = (RecentAverage::NotNegative, String::new());
    assert_eq!(analyzer.calculate_safety_score(avg), 100);

    record(&mut analyzer, -2.0, NOON_KST_MS);
    record(&mut analyzer, -1.5, NOON_KST_MS);
    let (avg, _) = average_of(&analyzer);
    assert!(analyzer.calculate_safety_score(avg) < 100);
}

#[test]
fn loss_streak_message_counts_minutes_left() {
    let mut analyzer = MarketConditionAnalyzer::new();
    for _ in 0..3 {
        record(&mut analyzer, -1.0, NOON_KST_MS);
    }
    let (avg, text) = average_of(&analyzer);
    let r = analyzer.can_trade(NOON_KST_MS + 25 * 60_000 + 30_000, avg, &text);
    assert!(!r.can_trade);
    assert_eq!(r.reason, "연속 3회 손실. 35분 후 재개 가능");
}

#[test]
fn loss_streak_pause_ends_after_an_hour() {
    let mut analyzer = MarketConditionAnalyzer::new();
    for _ in 0..3 {
        record(&mut analyzer, -0.5, NOON_KST_MS);
    }
    let (avg, text) = average_of(&analyzer);
    let r = analyzer.can_trade(NOON_KST_MS + 60 * 60_000, avg, &text);
    assert!(r.can_trade);
    assert_eq!(r.reason, "정상");
}

#[test]
fn a_win_ends_the_losing_streak() {
    let mut analyzer = MarketConditionAnalyzer::new();
    record(&mut analyzer, -1.0, NOON_KST_MS);
    record(&mut analyzer, -1.0, NOON_KST_MS);
    assert_eq!(analyzer.consecutive_losses(), 2);
    record(&mut analyzer, 0.0, NOON_KST_MS);
    assert_eq!(analyzer.consecutive_losses(), 0);
    assert_eq!(analyzer.daily_trade_count(), 3);
    assert_eq!(analyzer.last_trade_time_ms(), Some(NOON_KST_MS));
}

#[test]
fn daily_limit_message() {
    let mut analyzer = MarketConditionAnalyzer::new();
    for _ in 0..DAILY_TRADE_LIMIT {
        record(&mut analyzer, 0.5, NOON_KST_MS);
    }
    let (avg, text) = average_of(&analyzer);
    let r = analyzer.can_trade(NOON_KST_MS, avg, &text);
    assert_eq!(r.reason, "일일 거래 한도 초과 (20/20)");
}

#[test]
fn early_morning_kst_is_paused() {
    let analyzer: MarketConditionAnalyzer<f64> = MarketConditionAnalyzer::new();
    // 2024-01-01T16:00:00Z .. 19:59:59Z (01:00-05:00 KST)
    let sixteen = NOON_KST_MS + 13 * HOUR_MS;
    let r = analyzer.can_trade(sixteen, RecentAverage::NotNegative, "0.00");
    assert!(!r.can_trade);
    assert_eq!(r.reason, "새벽 시간대 (거래량 부족)");
    let r = analyzer.can_trade(sixteen + 4 * HOUR_MS - 1, RecentAverage::NotNegative, "0.00");
    assert!(!r.can_trade);
    let r = analyzer.can_trade(sixteen + 4 * HOUR_MS, RecentAverage::NotNegative, "0.00");
    assert!(r.can_trade);
    let r = analyzer.can_trade(sixteen - 1, RecentAverage::NotNegative, "0.00");
    assert!(r.can_trade);
}

#[test]
fn poor_recent_results_pause_trading() {
    let mut analyzer = MarketConditionAnalyzer::new();
    for p in [1.0, -5.0, 1.0, -5.0, 1.0] {
        record(&mut analyzer, p, NOON_KST_MS);
    }
    let (avg, text) = average_of(&analyzer);
    assert_eq!(avg, RecentAverage::BelowMinusOne);
    assert!(analyzer.can_trade(NOON_KST_MS, avg, &text).can_trade);
    record(&mut analyzer, -9.0, NOON_KST_MS);
    let (avg, text) = average_of(&analyzer);
    assert_eq!(avg, RecentAverage::BelowMinusTwo);
    let r = analyzer.can_trade(NOON_KST_MS, avg, &text);
    assert!(!r.can_trade);
    assert_eq!(r.reason, "최근 평균 수익률 부진 (-2.67%)");
}

#[test]
fn safety_score_formula() {
    let mut analyzer = MarketConditionAnalyzer::new();
    record(&mut analyzer, -1.0, NOON_KST_MS);
    // one loss: 100 - 15
    assert_eq!(analyzer.calculate_safety_score(RecentAverage::BelowZero), 85);
    record(&mut analyzer, -1.0, NOON_KST_MS);
    record(&mut analyzer, -1.0, NOON_KST_MS);
    // three losses (-45), three trades averaging -1.0 (-10)
    assert_eq!(analyzer.calculate_safety_score(RecentAverage::BelowZero), 45);
    assert_eq!(analyzer.calculate_safety_score(RecentAverage::BelowMinusOne), 35);
    for _ in 0..13 {
        record(&mut analyzer, 1.0, NOON_KST_MS);
    }
    // no streak, 16 trades today (-15)
    assert_eq!(analyzer.calculate_safety_score(RecentAverage::NotNegative), 85);
    for _ in 0..7 {
        record(&mut analyzer, -1.0, NOON_KST_MS);
    }
    // seven losses: 100 - 105 saturates at 0
    assert_eq!(analyzer.calculate_safety_score(RecentAverage::BelowMinusTwo), 0);
}

#[test]
fn daily_counter_resets_on_a_new_utc_date() {
    let mut analyzer = MarketConditionAnalyzer::new();
    analyzer.auto_reset_daily_if_needed(NOON_KST_MS);
    record(&mut analyzer, 1.0, NOON_KST_MS);
    record(&mut analyzer, 1.0, NOON_KST_MS);
    analyzer.auto_reset_daily_if_needed(NOON_KST_MS + 20 * HOUR_MS);
    assert_eq!(analyzer.daily_trade_count(), 2);
    analyzer.auto_reset_daily_if_needed(NOON_KST_MS + 21 * HOUR_MS);
    assert_eq!(analyzer.daily_trade_count(), 0);
    analyzer.record_trade(1.0, false, NOON_KST_MS);
    analyzer.reset_daily_counter();
    assert_eq!(analyzer.daily_trade_count(), 0);
}

#[test]
fn trade_record_keeps_the_last_ten() {
    let mut analyzer = MarketConditionAnalyzer::new();
    for i in 0..15 {
        record(&mut analyzer, i as f64, NOON_KST_MS);
    }
    let kept: Vec<f64> = analyzer.recent_trades().items().iter().copied().collect();
    assert_eq!(kept.len(), MAX_TRADE_HISTORY);
    assert_eq!(kept[0], 5.0);
    assert_eq!(kept[9], 14.0);
}

#[test]
fn long_losing_streaks_keep_the_score_at_zero() {
    let mut analyzer = MarketConditionAnalyzer::new();
    for n in 1..=300usize {
        record(&mut analyzer, -1.0, NOON_KST_MS);
        let score = analyzer.calculate_safety_score(RecentAverage::BelowZero);
        if n >= 7 {
            assert_eq!(score, 0);
        } else {
            assert!(score <= 100 - 15 * n as u8);
        }
    }
    assert_eq!(analyzer.consecutive_losses(), 300);
    assert_eq!(analyzer.calculate_safety_score(RecentAverage::NotNegative), 0);
}
