//! Typed upstream payloads and the lenient defaulting rules.
//!
//! The weather service may omit any expected numeric field, or report it with
//! the wrong type; the decoded payloads therefore carry optional values, and
//! the library substitutes a numeric zero for every absent one instead of
//! failing the request.  Numbers travel as their decimal text, exactly as the
//! upstream reported them.

use vstd::prelude::*;
use vstd::string::*;

verus! {

/// The `current_weather` object of the forecast payload, after decoding:
/// each field is present or absent.  A numeric field holds the decimal text
/// of the reported number.
#[derive(Clone, Debug, PartialEq, Eq)]
pub struct CurrentPayload {
    pub temperature: Option<String>,
    pub windspeed: Option<String>,
    pub weathercode: Option<i32>,
}

/// Current conditions after defaulting: every field is present.
#[derive(Clone, Debug, PartialEq, Eq)]
pub struct CurrentConditions {
    pub temperature: String,
    pub windspeed: String,
    pub weathercode: i32,
}

/// The `daily` object of the forecast payload, after decoding: three arrays
/// aligned by day, each element present or absent.
#[derive(Clone, Debug, PartialEq, Eq)]
pub struct ForecastPayload {
    pub weathercode: Vec<Option<i32>>,
    pub temperature_2m_max: Vec<Option<String>>,
    pub temperature_2m_min: Vec<Option<String>>,
}

/// The seven-day forecast window: three sequences of equal length, aligned
/// by day.
#[derive(Clone, Debug, PartialEq, Eq)]
pub struct ForecastWindow {
    pub week_weather_codes: Vec<i32>,
    pub week_max_temperatures: Vec<String>,
    pub week_min_temperatures: Vec<String>,
}

/// Model of a decoded optional text field.
pub type TextField = Option<Seq<char>>;

/// Model of `CurrentPayload`.
pub ghost struct CurrentPayloadModel {
    pub temperature: TextField,
    pub windspeed: TextField,
    pub weathercode: Option<i32>,
}

/// Model of `CurrentConditions`.
#[verifier::ext_equal]
pub ghost struct CurrentModel {
    pub temperature: Seq<char>,
    pub windspeed: Seq<char>,
    pub weathercode: i32,
}

/// Model of `ForecastPayload`.
pub ghost struct ForecastPayloadModel {
    pub weathercode: Seq<Option<i32>>,
    pub temperature_2m_max: Seq<TextField>,
    pub temperature_2m_min: Seq<TextField>,
}

/// Model of `ForecastWindow`.
#[verifier::ext_equal]
pub ghost struct ForecastModel {
    pub week_weather_codes: Seq<i32>,
    pub week_max_temperatures: Seq<Seq<char>>,
    pub week_min_temperatures: Seq<Seq<char>>,
}

impl View for CurrentPayload {
    type V = CurrentPayloadModel;

    open spec fn view(&self) -> CurrentPayloadModel {
        CurrentPayloadModel {
            temperature: text_field(self.temperature),
            windspeed: text_field(self.windspeed),
            weathercode: self.weathercode,
        }
    }
}

impl View for CurrentConditions {
    type V = CurrentModel;

    open spec fn view(&self) -> CurrentModel {
        CurrentModel {
            temperature: self.temperature@,
            windspeed: self.windspeed@,
            weathercode: self.weathercode,
        }
    }
}

impl View for ForecastPayload {
    type V = ForecastPayloadModel;

    open spec fn view(&self) -> ForecastPayloadModel {
        ForecastPayloadModel {
            weathercode: self.weathercode@,
            temperature_2m_max: self.temperature_2m_max@.map_values(|t: Option<String>| text_field(t)),
            temperature_2m_min: self.temperature_2m_min@.map_values(|t: Option<String>| text_field(t)),
        }
    }
}

impl View for ForecastWindow {
    type V = ForecastModel;

    open spec fn view(&self) -> ForecastModel {
        ForecastModel {
            week_weather_codes: self.week_weather_codes@,
            week_max_temperatures: self.week_max_temperatures.deep_view(),
            week_min_temperatures: self.week_min_temperatures.deep_view(),
        }
    }
}

/// The view of an optional text field.
pub open spec fn text_field(t: Option<String>) -> TextField {
    match t {
        Some(s) => Some(s@),
        None => None,
    }
}

/// An absent or ill-typed numeric text field defaults to zero.
pub open spec fn defaulted_text(t: TextField) -> Seq<char> {
    match t {
        Some(s) => s,
        None => seq!['0'],
    }
}

/// An absent or ill-typed weather code defaults to zero.
pub open spec fn defaulted_code(c: Option<i32>) -> i32 {
    match c {
        Some(v) => v,
        None => 0,
    }
}

/// Current conditions after defaulting, as a function of the payload model.
pub open spec fn current_model(p: CurrentPayloadModel) -> CurrentModel {
    CurrentModel {
        temperature: defaulted_text(p.temperature),
        windspeed: defaulted_text(p.windspeed),
        weathercode: defaulted_code(p.weathercode),
    }
}

/// Length of the forecast window: the three arrays aligned, cut to the
/// shortest.
pub open spec fn forecast_len(p: ForecastPayloadModel) -> int {
    vstd::math::min(
        p.weathercode.len() as int,
        vstd::math::min(p.temperature_2m_max.len() as int, p.temperature_2m_min.len() as int),
    )
}

/// The forecast window after defaulting, as a function of the payload model.
pub open spec fn forecast_model(p: ForecastPayloadModel) -> ForecastModel {
    ForecastModel {
        week_weather_codes: Seq::new(forecast_len(p) as nat, |i: int| defaulted_code(p.weathercode[i])),
        week_max_temperatures: Seq::new(
            forecast_len(p) as nat,
            |i: int| defaulted_text(p.temperature_2m_max[i]),
        ),
        week_min_temperatures: Seq::new(
            forecast_len(p) as nat,
            |i: int| defaulted_text(p.temperature_2m_min[i]),
        ),
    }
}

/// The three sequences of a forecast window are aligned: equal lengths.
pub open spec fn forecast_aligned(w: ForecastModel) -> bool {
    &&& w.week_weather_codes.len() == w.week_max_temperatures.len()
    &&& w.week_weather_codes.len() == w.week_min_temperatures.len()
}

/// The text that stands for a numeric zero.
pub fn zero_text() -> (s: String)
    ensures
        s@ =~= seq!['0'],
{
    proof {
        reveal_strlit("0");
    }
    "0".to_owned()
}

/// Applies the zero-defaulting rule to the current-conditions payload.
pub fn default_current(p: CurrentPayload) -> (c: CurrentConditions)
    ensures
        c@ =~= current_model(p@),
{
    let temperature = match p.temperature {
        Some(t) => t,
        None => zero_text(),
    };
    let windspeed = match p.windspeed {
        Some(w) => w,
        None => zero_text(),
    };
    let weathercode = match p.weathercode {
        Some(c) => c,
        None => 0,
    };
    CurrentConditions { temperature, windspeed, weathercode }
}

/// Applies the zero-defaulting rule to each day of the forecast payload and
/// aligns the three arrays to a common length.
pub fn default_forecast(p: ForecastPayload) -> (w: ForecastWindow)
    ensures
        w@ =~~= forecast_model(p@),
        forecast_aligned(w@),
{
    let mut n = p.weathercode.len();
    if p.temperature_2m_max.len() < n {
        n = p.temperature_2m_max.len();
    }
    if p.temperature_2m_min.len() < n {
        n = p.temperature_2m_min.len();
    }
    assert(n == forecast_len(p@));
    let mut codes: Vec<i32> = Vec::new();
    let mut maxs: Vec<String> = Vec::new();
    let mut mins: Vec<String> = Vec::new();
    let mut i: usize = 0;
    while i < n
        invariant
            n == forecast_len(p@),
            n <= p.weathercode.len(),
            n <= p.temperature_2m_max.len(),
            n <= p.temperature_2m_min.len(),
            0 <= i <= n,
            codes@.len() == i,
            maxs@.len() == i,
            mins@.len() == i,
            forall|j: int| 0 <= j < i ==> codes@[j] == defaulted_code(p.weathercode@[j]),
            forall|j: int|
                0 <= j < i ==> #[trigger] maxs@[j]@ == defaulted_text(
                    text_field(p.temperature_2m_max@[j]),
                ),
            forall|j: int|
                0 <= j < i ==> #[trigger] mins@[j]@ == defaulted_text(
                    text_field(p.temperature_2m_min@[j]),
                ),
        decreases n - i,
    {
        let code = match p.weathercode[i] {
            Some(c) => c,
            None => 0,
        };
        codes.push(code);
        let mx = match &p.temperature_2m_max[i] {
            Some(t) => t.clone(),
            None => zero_text(),
        };
        maxs.push(mx);
        let mn = match &p.temperature_2m_min[i] {
            Some(t) => t.clone(),
            None => zero_text(),
        };
        mins.push(mn);
        i = i + 1;
    }
    let w = ForecastWindow {
        week_weather_codes: codes,
        week_max_temperatures: maxs,
        week_min_temperatures: mins,
    };
    proof {
        assert(w@.week_weather_codes =~= forecast_model(p@).week_weather_codes);
        assert(w@.week_max_temperatures =~~= forecast_model(p@).week_max_temperatures);
        assert(w@.week_min_temperatures =~~= forecast_model(p@).week_min_temperatures);
    }
    w
}

} // verus!
