//! The weather data the service reports, as the rest of the library reads it.
use vstd::prelude::*;

verus! {

/// Temperature reading, in tenths of a degree Fahrenheit.
#[derive(Clone, Copy, Debug, PartialEq, Eq, Structural)]
pub struct Main {
    pub temp_tenths: i64,
}

/// One condition entry: a coarse keyword such as `"Rain"` and free text.
#[derive(Clone, Debug)]
pub struct Weather {
    pub main: String,
    pub description: String,
}

/// Where a report comes from, beyond the place's display name.
#[derive(Clone, Debug)]
pub struct Sys {
    pub country: String,
    pub state: Option<String>,
}

/// A current-weather report.
#[derive(Clone, Debug)]
pub struct WeatherData {
    pub main: Main,
    pub name: String,
    pub sys: Sys,
    /// Condition entries; the first one is the authoritative one.
    pub weather: Vec<Weather>,
}

/// One forecast point: a UTC timestamp text `YYYY-MM-DD HH:MM:SS`, a
/// temperature, and condition entries.
#[derive(Clone, Debug)]
pub struct Forecast {
    pub dt_txt: String,
    pub main: Main,
    pub weather: Vec<Weather>,
}

/// A forecast series, in the order (ascending time) the service gave it.
#[derive(Clone, Debug)]
pub struct ForecastData {
    pub list: Vec<Forecast>,
}

impl WeatherData {
    /// The report has its primary condition.
    pub open spec fn wf(&self) -> bool {
        self.weather@.len() > 0
    }

    pub open spec fn primary_condition(&self) -> Seq<char>
        recommends
            self.wf(),
    {
        self.weather@[0].main@
    }

    pub fn is_well_formed(&self) -> (r: bool)
        ensures
            r == self.wf(),
    {
        self.weather.len() > 0
    }
}

impl Forecast {
    /// The point has its primary condition.
    pub open spec fn wf(&self) -> bool {
        self.weather@.len() > 0
    }

    pub open spec fn primary_condition(&self) -> Seq<char>
        recommends
            self.wf(),
    {
        self.weather@[0].main@
    }

    pub open spec fn condition_detail(&self) -> Seq<char>
        recommends
            self.wf(),
    {
        self.weather@[0].description@
    }

    pub fn is_well_formed(&self) -> (r: bool)
        ensures
            r == self.wf(),
    {
        self.weather.len() > 0
    }
}

impl ForecastData {
    /// Every point of the series has its primary condition.
    pub open spec fn wf(&self) -> bool {
        forall|i: int| 0 <= i < self.list@.len() ==> (#[trigger] self.list@[i]).wf()
    }

    pub fn is_well_formed(&self) -> (r: bool)
        ensures
            r == self.wf(),
    {
        let mut i: usize = 0;
        while i < self.list.len()
            invariant
                i <= self.list@.len(),
                forall|j: int| 0 <= j < i ==> (#[trigger] self.list@[j]).wf(),
            decreases self.list@.len() - i,
        {
            if !self.list[i].is_well_formed() {
                return false;
            }
            i = i + 1;
        }
        true
    }
}

} // verus!
