//! The three renderings of a report: full line, status-bar line, forecast table.
use vstd::prelude::*;
use crate::condition::{emoji_of, get_emoji};
use crate::error::WeatherError;
use crate::model::{Forecast, ForecastData, WeatherData};
use crate::text::{decimal, digit_char, digit_chars, fahrenheit_text, format_fahrenheit};
use crate::timestamp::{localize, localize_spec};

verus! {

/// Number of forecast points the table shows (three hours apart: 18 hours).
pub const FORECAST_ROWS: usize = 6;

/// How the current weather is shown.
#[derive(Clone, Copy, Debug, PartialEq, Eq, Structural)]
pub enum CurrentStyle {
    /// A color-annotated one-line report.
    Full,
    /// A single plain line for a status bar.
    Bar,
}

/// What one invocation prints: the current weather in one style, and then,
/// when asked for, the forecast table.
#[derive(Clone, Copy, Debug, PartialEq, Eq, Structural)]
pub struct OutputPlan {
    pub current: CurrentStyle,
    pub forecast: bool,
}

/// One row of the forecast table.
#[derive(Clone, Debug)]
pub struct ForecastRow {
    pub time: String,
    pub temperature: String,
    pub description: String,
}

/// The plan for the bar and forecast flags: the bar flag picks the
/// current-weather style, and the forecast table is added after it when the
/// forecast flag is set.
pub fn plan_output(forecast: bool, bar: bool) -> (r: OutputPlan)
    ensures
        r.current == (if bar {
            CurrentStyle::Bar
        } else {
            CurrentStyle::Full
        }),
        r.forecast == forecast,
{
    OutputPlan { current: if bar { CurrentStyle::Bar } else { CurrentStyle::Full }, forecast }
}

pub open spec fn full_line_spec(name: Seq<char>, country: Seq<char>, cond: Seq<char>, tenths: int) -> Seq<char> {
    "Current weather in \x1b[1;31m"@ + name + ", "@ + country + "\x1b[0m - \x1b[1;32m"@ + cond
        + "\x1b[0m "@ + emoji_of(cond) + " - \x1b[1;33m"@ + fahrenheit_text(tenths) + "\x1b[0m"@
}

pub open spec fn bar_line_spec(cond: Seq<char>, tenths: int) -> Seq<char> {
    cond + " "@ + emoji_of(cond) + " "@ + fahrenheit_text(tenths)
}

/// The color-annotated report of the current weather: place, country,
/// condition, glyph and temperature.
pub fn full_line(resp: &WeatherData) -> (r: String)
    requires
        resp.wf(),
    ensures
        r@ == full_line_spec(
            resp.name@,
            resp.sys.country@,
            resp.primary_condition(),
            resp.main.temp_tenths as int,
        ),
{
    let cond = resp.weather[0].main.as_str();
    let mut s = String::from_str("Current weather in \x1b[1;31m");
    s.append(resp.name.as_str());
    s.append(", ");
    s.append(resp.sys.country.as_str());
    s.append("\x1b[0m - \x1b[1;32m");
    s.append(cond);
    s.append("\x1b[0m ");
    s.append(get_emoji(cond));
    s.append(" - \x1b[1;33m");
    s.append(format_fahrenheit(resp.main.temp_tenths).as_str());
    s.append("\x1b[0m");
    s
}

/// The plain status-bar line: condition, glyph and temperature.
pub fn bar_line(resp: &WeatherData) -> (r: String)
    requires
        resp.wf(),
    ensures
        r@ == bar_line_spec(resp.primary_condition(), resp.main.temp_tenths as int),
{
    let cond = resp.weather[0].main.as_str();
    let mut s = String::from_str(cond);
    s.append(" ");
    s.append(get_emoji(cond));
    s.append(" ");
    s.append(format_fahrenheit(resp.main.temp_tenths).as_str());
    s
}

/// The current-weather line in the given style.
pub fn current_line(resp: &WeatherData, style: CurrentStyle) -> (r: String)
    requires
        resp.wf(),
    ensures
        r@ == match style {
            CurrentStyle::Full => full_line_spec(
                resp.name@,
                resp.sys.country@,
                resp.primary_condition(),
                resp.main.temp_tenths as int,
            ),
            CurrentStyle::Bar => bar_line_spec(
                resp.primary_condition(),
                resp.main.temp_tenths as int,
            ),
        },
{
    match style {
        CurrentStyle::Full => full_line(resp),
        CurrentStyle::Bar => bar_line(resp),
    }
}

/// The line above the forecast table.
pub fn forecast_heading(location: &str) -> (r: String)
    ensures
        r@ == "Forecast for the next 18 hours in "@ + location@ + ":"@,
{
    let mut s = String::from_str("Forecast for the next 18 hours in ");
    s.append(location);
    s.append(":");
    s
}

/// Whether `row` is the table row of the forecast point `p`.
pub open spec fn row_of(row: ForecastRow, p: Forecast) -> bool {
    &&& localize_spec(p.dt_txt@) == Some(row.time@)
    &&& row.temperature@ == fahrenheit_text(p.main.temp_tenths as int)
    &&& row.description@ == emoji_of(p.primary_condition()) + " "@ + p.condition_detail()
}

/// The table rows of the first six points of a forecast series: local time,
/// temperature, and glyph with the condition text. A series of fewer than six
/// points is an `InsufficientData` error; a malformed timestamp among the six
/// is a `Parse` error.
pub fn forecast_rows(forecast: &ForecastData) -> (r: Result<Vec<ForecastRow>, WeatherError>)
    requires
        forecast.wf(),
    ensures
        forecast.list@.len() < FORECAST_ROWS ==> r == Err::<Vec<ForecastRow>, WeatherError>(
            WeatherError::InsufficientData,
        ),
        forecast.list@.len() >= FORECAST_ROWS ==> match r {
            Ok(rows) => {
                &&& rows@.len() == FORECAST_ROWS
                &&& forall|i: int|
                    0 <= i < FORECAST_ROWS ==> row_of(#[trigger] rows@[i], forecast.list@[i])
            },
            Err(e) => {
                &&& e == WeatherError::Parse
                &&& exists|i: int|
                    0 <= i < FORECAST_ROWS && (#[trigger] localize_spec(
                        forecast.list@[i].dt_txt@,
                    )) is None
            },
        },
{
    if forecast.list.len() < FORECAST_ROWS {
        return Err(WeatherError::InsufficientData);
    }
    let mut rows: Vec<ForecastRow> = Vec::new();
    let mut i: usize = 0;
    while i < FORECAST_ROWS
        invariant
            forecast.wf(),
            forecast.list@.len() >= FORECAST_ROWS,
            i <= FORECAST_ROWS,
            rows@.len() == i,
            forall|j: int| 0 <= j < i ==> row_of(#[trigger] rows@[j], forecast.list@[j]),
        decreases FORECAST_ROWS - i,
    {
        let p = &forecast.list[i];
        assert(forecast.list@[i as int].wf());
        let time = match localize(p.dt_txt.as_str()) {
            Ok(t) => t,
            Err(e) => {
                assert(localize_spec(forecast.list@[i as int].dt_txt@) is None);
                return Err(e);
            },
        };
        let cond = p.weather[0].main.as_str();
        let mut description = String::from_str(get_emoji(cond));
        description.append(" ");
        description.append(p.weather[0].description.as_str());
        rows.push(ForecastRow { time, temperature: format_fahrenheit(p.main.temp_tenths), description });
        i = i + 1;
    }
    Ok(rows)
}

impl Forecast {
    /// One-line summary of the point: raw timestamp, glyph, temperature.
    pub fn summary(&self) -> (r: String)
        requires
            self.wf(),
        ensures
            r@ == self.dt_txt@ + " "@ + emoji_of(self.primary_condition()) + " : "@
                + fahrenheit_text(self.main.temp_tenths as int),
    {
        let mut s = String::from_str(self.dt_txt.as_str());
        s.append(" ");
        s.append(get_emoji(self.weather[0].main.as_str()));
        s.append(" : ");
        s.append(format_fahrenheit(self.main.temp_tenths).as_str());
        s
    }
}

/// Text that stays on one line and holds no terminal escape codes.
pub open spec fn plain_line(s: Seq<char>) -> bool {
    forall|i: int| 0 <= i < s.len() ==> #[trigger] s[i] != '\n' && s[i] != '\x1b'
}

proof fn lemma_decimal_plain(n: nat)
    ensures
        plain_line(decimal(n)),
    decreases n,
{
    assert(forall|d: nat| d < 10 ==> #[trigger] digit_char(d) == digit_chars()[d as int]);
    if n >= 10 {
        lemma_decimal_plain(n / 10);
        assert(decimal(n) == decimal(n / 10).push(digit_char(n % 10)));
    }
}

/// The status-bar line of a condition keyword that is itself plain is one
/// line with no escape codes, whatever the temperature.
pub proof fn lemma_bar_line_plain(cond: Seq<char>, tenths: int)
    requires
        plain_line(cond),
    ensures
        plain_line(bar_line_spec(cond, tenths)),
{
    reveal_strlit("⛈️");
    reveal_strlit("🌦️ ");
    reveal_strlit("🌧️ ");
    reveal_strlit("❄️ ");
    reveal_strlit("☀️ ");
    reveal_strlit("☁️");
    reveal_strlit("🌫️ ");
    reveal_strlit("?");
    reveal_strlit(" ");
    reveal_strlit("-");
    reveal_strlit(".");
    reveal_strlit("°F");
    let mag: nat = if tenths < 0 { (-tenths) as nat } else { tenths as nat };
    lemma_decimal_plain(mag / 10);
    assert(digit_char(mag % 10) == digit_chars()[(mag % 10) as int]);
    let e = emoji_of(cond);
    assert(plain_line(e));
    let f = fahrenheit_text(tenths);
    assert(plain_line(f));
    assert(plain_line(cond + " "@));
    assert(plain_line(cond + " "@ + e));
    assert(plain_line(cond + " "@ + e + " "@));
}

} // verus!
