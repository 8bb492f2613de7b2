use weather_cli::condition::{get_emoji, Condition};
use weather_cli::config::{Config, DEFAULT_LOCATION};
use weather_cli::error::WeatherError;
use weather_cli::model::{Forecast, ForecastData, Main, Sys, Weather, WeatherData};
use weather_cli::present::{
    bar_line, current_line, forecast_heading, forecast_rows, full_line, plan_output,
    CurrentStyle, FORECAST_ROWS,
};
use weather_cli::text::{format_fahrenheit, same_text};
use weather_cli::timestamp::{localize, parse_timestamp, Timestamp};

fn report(cond: &str, tenths: i64) -> WeatherData {
    WeatherData {
        main: Main { temp_tenths: tenths },
        name: "Pittsburgh".to_string(),
        sys: Sys { country: "US".to_string(), state: None },
        weather: vec![Weather { main: cond.to_string(), description: "light rain".to_string() }],
    }
}

fn point(dt: &str, cond: &str, detail: &str, tenths: i64) -> Forecast {
    Forecast {
        dt_txt: dt.to_string(),
        main: Main { temp_tenths: tenths },
        weather: vec![Weather { main: cond.to_string(), description: detail.to_string() }],
    }
}

fn series(n: usize) -> ForecastData {
    let mut list = Vec::new();
    for i in 0..n {
        let dt = format!("2024-03-01 {:02}:00:00", 3 * i);
        list.push(point(&dt, "Clouds", "broken clouds", 500 + i as i64));
    }
    ForecastData { list }
}

#[test]
fn known_keywords_have_their_glyphs() {
    assert_eq!(get_emoji("Thunderstorm"), "⛈️");
    assert_eq!(get_emoji("Drizzle"), "🌦️ ");
    assert_eq!(get_emoji("Rain"), "🌧️ ");
    assert_eq!(get_emoji("Snow"), "❄️ ");
    assert_eq!(get_emoji("Clear"), "☀️ ");
    assert_eq!(get_emoji("Clouds"), "☁️");
    for k in ["Mist", "Smoke", "Haze", "Dust", "Fog", "Sand", "Ash", "Squall", "Tornado"] {
        assert_eq!(get_emoji(k), "🌫️ ");
    }
}

#[test]
fn every_known_keyword_has_a_non_empty_glyph() {
    let keys = [
        "Thunderstorm", "Drizzle", "Rain", "Snow", "Clear", "Clouds", "Mist", "Smoke", "Haze",
        "Dust", "Fog", "Sand", "Ash", "Squall", "Tornado",
    ];
    for k in keys {
        assert!(Condition::from_keyword(k).is_some());
        assert!(!get_emoji(k).is_empty());
        assert_eq!(get_emoji(k), get_emoji(k));
    }
}

#[test]
fn unknown_keywords_get_the_fallback() {
    for k in ["", "rain", "Sunny", "Rain ", "Thunderstorms", "Fo"] {
        assert_eq!(Condition::from_keyword(k), None);
        assert_eq!(get_emoji(k), "?");
    }
}

#[test]
fn keyword_categories() {
    assert_eq!(Condition::from_keyword("Rain"), Some(Condition::Rain));
    assert_eq!(Condition::from_keyword("Squall"), Some(Condition::Atmospheric));
    assert_eq!(Condition::Snow.glyph(), "❄️ ");
}

#[test]
fn same_text_compares_characters() {
    assert!(same_text("Rain", "Rain"));
    assert!(!same_text("Rain", "Rai"));
    assert!(!same_text("Rain", "Ruin"));
    assert!(same_text("", ""));
}

#[test]
fn localize_evening_utc() {
    assert_eq!(localize("2024-03-01 18:00:00"), Ok("03-01 at 14:00".to_string()));
}

#[test]
fn localize_crosses_day_month_and_year() {
    assert_eq!(localize("2024-03-01 02:30:45"), Ok("02-29 at 22:30".to_string()));
    assert_eq!(localize("2023-03-01 03:59:00"), Ok("02-28 at 23:59".to_string()));
    assert_eq!(localize("2024-01-01 00:00:00"), Ok("12-31 at 20:00".to_string()));
    assert_eq!(localize("2024-05-10 04:00:00"), Ok("05-10 at 00:00".to_string()));
}

#[test]
fn localize_rejects_malformed_text() {
    let bad = [
        "",
        "2024-03-01",
        "2024-03-01T18:00:00",
        "2024/03/01 18:00:00",
        "2024-03-01 18:00:0",
        "2024-03-01 18:00:000",
        "2024-3-01 18:00:00 ",
        "20a4-03-01 18:00:00",
        "2024-13-01 18:00:00",
        "2024-00-10 18:00:00",
        "2023-02-29 18:00:00",
        "2024-04-31 18:00:00",
        "2024-03-01 24:00:00",
        "2024-03-01 18:60:00",
        "2024-03-01 18:00:60",
    ];
    for b in bad {
        assert_eq!(localize(b), Err(WeatherError::Parse), "{}", b);
    }
}

#[test]
fn localize_output_shape() {
    for h in 0..24u32 {
        let s = localize(&format!("2020-01-01 {:02}:07:00", h)).unwrap();
        let c: Vec<char> = s.chars().collect();
        assert_eq!(c.len(), 14);
        assert_eq!(&s[5..9], " at ");
        assert_eq!(c[2], '-');
        assert_eq!(c[11], ':');
    }
}

#[test]
fn parse_reads_fields() {
    assert_eq!(
        parse_timestamp("2024-02-29 23:05:09"),
        Ok(Timestamp { year: 2024, month: 2, day: 29, hour: 23, minute: 5, second: 9 })
    );
    assert_eq!(parse_timestamp("1900-02-29 00:00:00"), Err(WeatherError::Parse));
    assert!(parse_timestamp("2000-02-29 00:00:00").is_ok());
}

#[test]
fn fahrenheit_one_decimal() {
    assert_eq!(format_fahrenheit(723), "72.3°F");
    assert_eq!(format_fahrenheit(550), "55.0°F");
    assert_eq!(format_fahrenheit(0), "0.0°F");
    assert_eq!(format_fahrenheit(-5), "-0.5°F");
    assert_eq!(format_fahrenheit(-123), "-12.3°F");
    assert_eq!(format_fahrenheit(1000), "100.0°F");
    assert_eq!(format_fahrenheit(i64::MIN), "-922337203685477580.8°F");
}

#[test]
fn rain_report_line() {
    let line = full_line(&report("Rain", 723));
    assert!(line.contains("🌧️ "));
    assert!(line.contains("72.3°F"));
    assert_eq!(
        line,
        "Current weather in \x1b[1;31mPittsburgh, US\x1b[0m - \x1b[1;32mRain\x1b[0m 🌧️  - \x1b[1;33m72.3°F\x1b[0m"
    );
}

#[test]
fn clear_status_bar_line() {
    let line = bar_line(&report("Clear", 550));
    assert_eq!(line, "Clear ☀️  55.0°F");
    assert!(!line.contains('\n'));
    assert!(!line.contains('\x1b'));
    assert!(line.contains("Clear"));
    assert!(line.contains("☀️"));
    assert!(line.contains("55.0°F"));
}

#[test]
fn current_line_follows_style() {
    let r = report("Snow", -40);
    assert_eq!(current_line(&r, CurrentStyle::Bar), bar_line(&r));
    assert_eq!(current_line(&r, CurrentStyle::Full), full_line(&r));
}

#[test]
fn plan_for_flags() {
    let p = plan_output(false, false);
    assert_eq!((p.current, p.forecast), (CurrentStyle::Full, false));
    let p = plan_output(true, false);
    assert_eq!((p.current, p.forecast), (CurrentStyle::Full, true));
    let p = plan_output(false, true);
    assert_eq!((p.current, p.forecast), (CurrentStyle::Bar, false));
    let p = plan_output(true, true);
    assert_eq!((p.current, p.forecast), (CurrentStyle::Bar, true));
}

#[test]
fn six_points_make_six_rows() {
    let rows = forecast_rows(&series(6)).unwrap();
    assert_eq!(rows.len(), FORECAST_ROWS);
    assert_eq!(rows[0].time, "02-29 at 20:00");
    assert_eq!(rows[5].time, "03-01 at 11:00");
    assert_eq!(rows[0].temperature, "50.0°F");
    assert_eq!(rows[5].temperature, "50.5°F");
    assert_eq!(rows[3].description, "☁️ broken clouds");
}

#[test]
fn longer_series_is_cut_to_six() {
    let rows = forecast_rows(&series(8)).unwrap();
    assert_eq!(rows.len(), 6);
    assert_eq!(rows[5].time, "03-01 at 11:00");
}

#[test]
fn short_series_is_insufficient() {
    for n in 0..6 {
        assert_eq!(forecast_rows(&series(n)).unwrap_err(), WeatherError::InsufficientData);
    }
}

#[test]
fn bad_timestamp_in_table_is_parse_error() {
    let mut f = series(7);
    f.list[4].dt_txt = "2024-03-01 12:00".to_string();
    assert_eq!(forecast_rows(&f).unwrap_err(), WeatherError::Parse);
    let mut g = series(7);
    g.list[6].dt_txt = "garbage".to_string();
    assert!(forecast_rows(&g).is_ok());
}

#[test]
fn heading_and_summary() {
    assert_eq!(forecast_heading("Pittsburgh"), "Forecast for the next 18 hours in Pittsburgh:");
    let p = point("2024-03-01 18:00:00", "Rain", "light rain", 723);
    assert_eq!(p.summary(), "2024-03-01 18:00:00 🌧️  : 72.3°F");
}

#[test]
fn well_formedness_checks() {
    let mut r = report("Rain", 1);
    assert!(r.is_well_formed());
    r.weather.clear();
    assert!(!r.is_well_formed());
    let mut f = series(3);
    assert!(f.is_well_formed());
    f.list[1].weather.clear();
    assert!(!f.is_well_formed());
    assert!(!f.list[1].is_well_formed());
}

#[test]
fn missing_key_is_config_error() {
    assert_eq!(Config::new(None, Some("Paris".to_string())).unwrap_err(), WeatherError::Config);
    assert_eq!(Config::new(None, None).unwrap_err(), WeatherError::Config);
}

#[test]
fn config_defaults_and_urls() {
    let c = Config::new(Some("k3y".to_string()), None).unwrap();
    assert_eq!(c.location, DEFAULT_LOCATION);
    assert_eq!(c.location, "Pittsburgh");
    assert_eq!(
        c.current_url(),
        "http://api.openweathermap.org/data/2.5/weather?q=Pittsburgh&appid=k3y&units=imperial"
    );
    let d = Config::new(Some("abc".to_string()), Some("New York".to_string())).unwrap();
    assert_eq!(
        d.forecast_url(),
        "https://api.openweathermap.org/data/2.5/forecast?q=New York&appid=abc&units=imperial"
    );
}
