use open_meteo_mcp::comfort::{
    activity_or_default, comfort_day, comfort_days, comfort_level, comfort_recommendation,
    day_score, penalty_tenths, DayWeather,
};

fn day(hi: i32, lo: i32, rain: u32, wind: u32) -> DayWeather {
    DayWeather {
        temperature_max_tenths: Some(hi),
        temperature_min_tenths: Some(lo),
        precipitation_tenths: Some(rain),
        wind_max_tenths: Some(wind),
    }
}

#[test]
fn ideal_day_scores_full_marks() {
    let d = day(240, 160, 0, 150);
    assert_eq!(penalty_tenths(&d), 0);
    assert_eq!(day_score(&d), 100);
    let c = comfort_day(&d);
    assert_eq!(c.level, "excellent");
    assert_eq!(c.recommendation, "Excellent for outdoor activities");
}

#[test]
fn penalties_add_up() {
    // Mean 25 degrees: 15 points; 2 mm of rain: 10 points; wind 30 km/h: 10 points.
    let d = day(300, 200, 20, 300);
    assert_eq!(penalty_tenths(&d), 350);
    assert_eq!(day_score(&d), 65);
    let c = comfort_day(&d);
    assert_eq!(c.level, "fair");
    assert_eq!(c.recommendation, "Fair for outdoor activities, bring layers");
}

#[test]
fn cold_day_is_penalised_like_a_warm_one() {
    assert_eq!(penalty_tenths(&day(150, 50, 0, 0)), penalty_tenths(&day(350, 250, 0, 0)));
    assert_eq!(day_score(&day(150, 50, 0, 0)), 70);
}

#[test]
fn score_stops_at_zero() {
    let d = day(-200, -300, 500, 1000);
    assert_eq!(day_score(&d), 0);
    assert_eq!(comfort_day(&d).level, "poor");
    assert_eq!(comfort_day(&d).recommendation, "Poor conditions for outdoor activities");
}

#[test]
fn missing_measurements_cost_nothing() {
    let d = DayWeather {
        temperature_max_tenths: Some(400),
        temperature_min_tenths: None,
        precipitation_tenths: None,
        wind_max_tenths: None,
    };
    assert_eq!(penalty_tenths(&d), 0);
    assert_eq!(day_score(&d), 100);
}

#[test]
fn more_rain_is_never_more_comfortable() {
    let dry = day(220, 140, 0, 100);
    let wet = day(220, 140, 80, 100);
    assert!(day_score(&wet) <= day_score(&dry));
    assert_eq!(day_score(&dry), 94);
    assert_eq!(day_score(&wet), 54);
}

#[test]
fn levels_follow_score_bands() {
    assert_eq!(comfort_level(75), "excellent");
    assert_eq!(comfort_level(74), "good");
    assert_eq!(comfort_level(70), "good");
    assert_eq!(comfort_level(69), "fair");
    assert_eq!(comfort_level(50), "fair");
    assert_eq!(comfort_level(49), "poor");
    assert_eq!(comfort_recommendation(72), "Good for outdoor activities");
}

#[test]
fn one_entry_per_forecast_day() {
    let days = vec![day(240, 160, 0, 0), day(300, 200, 20, 300), day(-200, -300, 500, 1000)];
    let out = comfort_days(&days);
    assert_eq!(out.len(), 3);
    assert_eq!(out.iter().map(|c| c.score).collect::<Vec<u8>>(), vec![100, 65, 0]);
    assert_eq!(out.iter().map(|c| c.level).collect::<Vec<&str>>(), vec!["excellent", "fair", "poor"]);
    assert!(comfort_days(&Vec::new()).is_empty());
}

#[test]
fn activity_defaults_to_outdoor() {
    assert_eq!(activity_or_default(None), "outdoor");
    assert_eq!(activity_or_default(Some("hiking".to_string())), "hiking");
}
