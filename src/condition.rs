//! Classification of a weather-condition keyword into a display glyph.
use vstd::prelude::*;
use crate::text::same_text;

verus! {

/// The coarse weather categories that have a glyph of their own.
#[derive(Clone, Copy, Debug, PartialEq, Eq, Structural)]
pub enum Condition {
    Thunderstorm,
    Drizzle,
    Rain,
    Snow,
    Clear,
    Clouds,
    /// Mist, smoke, haze, dust, fog, sand, ash, squalls and tornadoes.
    Atmospheric,
}

/// The category a keyword belongs to, if it is one of the known keywords.
pub open spec fn condition_of(k: Seq<char>) -> Option<Condition> {
    if k == "Thunderstorm"@ {
        Some(Condition::Thunderstorm)
    } else if k == "Drizzle"@ {
        Some(Condition::Drizzle)
    } else if k == "Rain"@ {
        Some(Condition::Rain)
    } else if k == "Snow"@ {
        Some(Condition::Snow)
    } else if k == "Clear"@ {
        Some(Condition::Clear)
    } else if k == "Clouds"@ {
        Some(Condition::Clouds)
    } else if k == "Mist"@ || k == "Smoke"@ || k == "Haze"@ || k == "Dust"@ || k == "Fog"@
        || k == "Sand"@ || k == "Ash"@ || k == "Squall"@ || k == "Tornado"@ {
        Some(Condition::Atmospheric)
    } else {
        None
    }
}

/// The glyph shown for a keyword that names no known category.
pub open spec fn fallback_glyph() -> Seq<char> {
    "?"@
}

/// The glyph shown for each category.
pub open spec fn glyph_of(c: Condition) -> Seq<char> {
    match c {
        Condition::Thunderstorm => "⛈️"@,
        Condition::Drizzle => "🌦️ "@,
        Condition::Rain => "🌧️ "@,
        Condition::Snow => "❄️ "@,
        Condition::Clear => "☀️ "@,
        Condition::Clouds => "☁️"@,
        Condition::Atmospheric => "🌫️ "@,
    }
}

/// The glyph shown for a keyword: its category's glyph, or the fallback.
pub open spec fn emoji_of(k: Seq<char>) -> Seq<char> {
    match condition_of(k) {
        Some(c) => glyph_of(c),
        None => fallback_glyph(),
    }
}

impl Condition {
    /// The category named by `keyword`, or `None` for any other text.
    pub fn from_keyword(keyword: &str) -> (r: Option<Condition>)
        ensures
            r == condition_of(keyword@),
    {
        if same_text(keyword, "Thunderstorm") {
            Some(Condition::Thunderstorm)
        } else if same_text(keyword, "Drizzle") {
            Some(Condition::Drizzle)
        } else if same_text(keyword, "Rain") {
            Some(Condition::Rain)
        } else if same_text(keyword, "Snow") {
            Some(Condition::Snow)
        } else if same_text(keyword, "Clear") {
            Some(Condition::Clear)
        } else if same_text(keyword, "Clouds") {
            Some(Condition::Clouds)
        } else if same_text(keyword, "Mist") || same_text(keyword, "Smoke") || same_text(
            keyword,
            "Haze",
        ) || same_text(keyword, "Dust") || same_text(keyword, "Fog") || same_text(keyword, "Sand")
            || same_text(keyword, "Ash") || same_text(keyword, "Squall") || same_text(
            keyword,
            "Tornado",
        ) {
            Some(Condition::Atmospheric)
        } else {
            None
        }
    }

    /// The glyph of this category.
    pub fn glyph(&self) -> (r: &'static str)
        ensures
            r@ == glyph_of(*self),
    {
        match self {
            Condition::Thunderstorm => "⛈️",
            Condition::Drizzle => "🌦️ ",
            Condition::Rain => "🌧️ ",
            Condition::Snow => "❄️ ",
            Condition::Clear => "☀️ ",
            Condition::Clouds => "☁️",
            Condition::Atmospheric => "🌫️ ",
        }
    }
}

/// The glyph for a condition keyword; total, with `"?"` for unknown keywords.
pub fn get_emoji(main: &str) -> (r: &'static str)
    ensures
        r@ == emoji_of(main@),
{
    match Condition::from_keyword(main) {
        Some(c) => c.glyph(),
        None => "?",
    }
}

/// Every known keyword has a non-empty glyph, and every other text gets the
/// fallback glyph.
pub proof fn lemma_glyphs_total(k: Seq<char>)
    ensures
        condition_of(k) is Some ==> emoji_of(k).len() > 0,
        condition_of(k) is None ==> emoji_of(k) == fallback_glyph(),
{
    reveal_strlit("⛈️");
    reveal_strlit("🌦️ ");
    reveal_strlit("🌧️ ");
    reveal_strlit("❄️ ");
    reveal_strlit("☀️ ");
    reveal_strlit("☁️");
    reveal_strlit("🌫️ ");
}

} // verus!
