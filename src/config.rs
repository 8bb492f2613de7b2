//! The settings of one invocation and the requests they lead to.
use vstd::prelude::*;
use crate::error::WeatherError;

verus! {

/// The place reported on when none is named.
pub const DEFAULT_LOCATION: &'static str = "Pittsburgh";

/// The API key and the place to report on, fixed at startup.
#[derive(Clone, Debug)]
pub struct Config {
    pub api_key: String,
    pub location: String,
}

pub open spec fn query_spec(base: Seq<char>, location: Seq<char>, api_key: Seq<char>) -> Seq<char> {
    base + "?q="@ + location + "&appid="@ + api_key + "&units=imperial"@
}

impl Config {
    /// Settings from a configured API key, if any, and a named place, if any
    /// (else the default place). A missing key is a `Config` error.
    pub fn new(api_key: Option<String>, location: Option<String>) -> (r: Result<Config, WeatherError>)
        ensures
            api_key is None <==> r == Err::<Config, WeatherError>(WeatherError::Config),
            api_key matches Some(k) ==> r matches Ok(c) && c.api_key@ == k@ && c.location@ == (
            match location {
                Some(l) => l@,
                None => DEFAULT_LOCATION@,
            }),
    {
        match api_key {
            None => Err(WeatherError::Config),
            Some(k) => {
                let location = match location {
                    Some(l) => l,
                    None => String::from_str(DEFAULT_LOCATION),
                };
                Ok(Config { api_key: k, location })
            },
        }
    }

    fn query(&self, base: &str) -> (r: String)
        ensures
            r@ == query_spec(base@, self.location@, self.api_key@),
    {
        let mut s = String::from_str(base);
        s.append("?q=");
        s.append(self.location.as_str());
        s.append("&appid=");
        s.append(self.api_key.as_str());
        s.append("&units=imperial");
        s
    }

    /// The current-weather request, with the place passed verbatim.
    pub fn current_url(&self) -> (r: String)
        ensures
            r@ == query_spec(
                "http://api.openweathermap.org/data/2.5/weather"@,
                self.location@,
                self.api_key@,
            ),
    {
        self.query("http://api.openweathermap.org/data/2.5/weather")
    }

    /// The forecast request, with the place passed verbatim.
    pub fn forecast_url(&self) -> (r: String)
        ensures
            r@ == query_spec(
                "https://api.openweathermap.org/data/2.5/forecast"@,
                self.location@,
                self.api_key@,
            ),
    {
        self.query("https://api.openweathermap.org/data/2.5/forecast")
    }
}

} // verus!
