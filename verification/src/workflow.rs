//! The aggregation workflow.
//!
//! The workflow runs three upstream lookups in order: geolocation, then
//! current weather and forecast, then one historical fetch per scheduled
//! year.  A geolocation failure, a malformed coordinate string, or a weather
//! fetch failure is fatal to the whole request; a failed historical fetch
//! only contributes an error message.  The functions here take the upstream
//! outcomes as plain values and are the sole place where the report is
//! shaped, so the caller does nothing between the lookups but carry values.

use crate::history::{
    collect_history, history_model, outcome_model, HistoricalPayload, HistoricalSample,
    OutcomeModel, SampleModel,
};
use crate::location::{lat_of, loc_valid, lon_of, split_location};
use crate::report::{
    current_model, default_current, default_forecast, forecast_model, CurrentPayload,
    CurrentPayloadModel, ForecastPayload, ForecastPayloadModel,
};
use crate::schedule::{
    historical_years, lemma_schedule_shape, schedule_len, schedule_start, schedule_years,
};
use vstd::prelude::*;

verus! {

/// The decoded geolocation payload: city, region, country, and the
/// coordinate as the single string the service reports.
#[derive(Clone, Debug, PartialEq, Eq)]
pub struct GeoPayload {
    pub ip: String,
    pub city: String,
    pub region: String,
    pub country: String,
    pub loc: String,
}

/// Model of `GeoPayload`.
#[verifier::ext_equal]
pub ghost struct GeoModel {
    pub ip: Seq<char>,
    pub city: Seq<char>,
    pub region: Seq<char>,
    pub country: Seq<char>,
    pub loc: Seq<char>,
}

impl View for GeoPayload {
    type V = GeoModel;

    open spec fn view(&self) -> GeoModel {
        GeoModel {
            ip: self.ip@,
            city: self.city@,
            region: self.region@,
            country: self.country@,
            loc: self.loc@,
        }
    }
}

/// The resolved location: the coordinate string split into latitude and
/// longitude.
#[derive(Clone, Debug, PartialEq, Eq)]
pub struct LocationInfo {
    pub ip: String,
    pub lat: String,
    pub lon: String,
    pub city: String,
    pub region: String,
    pub country: String,
}

/// Model of `LocationInfo`.
#[verifier::ext_equal]
pub ghost struct LocationModel {
    pub ip: Seq<char>,
    pub lat: Seq<char>,
    pub lon: Seq<char>,
    pub city: Seq<char>,
    pub region: Seq<char>,
    pub country: Seq<char>,
}

impl View for LocationInfo {
    type V = LocationModel;

    open spec fn view(&self) -> LocationModel {
        LocationModel {
            ip: self.ip@,
            lat: self.lat@,
            lon: self.lon@,
            city: self.city@,
            region: self.region@,
            country: self.country@,
        }
    }
}

/// An error fatal to the whole request: no report is produced.
#[derive(Clone, Debug, PartialEq, Eq)]
pub enum FatalError {
    /// The geolocation lookup failed; the message is the transport cause.
    Geolocation(String),
    /// The coordinate string could not be split into two components; the
    /// payload is the offending string.
    MalformedLocation(String),
    /// The weather fetch failed; the message is the transport cause.
    WeatherFetch(String),
}

/// Model of `FatalError`.
#[verifier::ext_equal]
pub ghost enum FatalModel {
    Geolocation(Seq<char>),
    MalformedLocation(Seq<char>),
    WeatherFetch(Seq<char>),
}

impl View for FatalError {
    type V = FatalModel;

    open spec fn view(&self) -> FatalModel {
        match self {
            FatalError::Geolocation(m) => FatalModel::Geolocation(m@),
            FatalError::MalformedLocation(l) => FatalModel::MalformedLocation(l@),
            FatalError::WeatherFetch(m) => FatalModel::WeatherFetch(m@),
        }
    }
}

/// The decoded weather payload: current conditions and the daily forecast.
#[derive(Clone, Debug, PartialEq, Eq)]
pub struct WeatherPayload {
    pub current: CurrentPayload,
    pub daily: ForecastPayload,
}

/// Model of `WeatherPayload`.
pub ghost struct WeatherPayloadModel {
    pub current: CurrentPayloadModel,
    pub daily: ForecastPayloadModel,
}

impl View for WeatherPayload {
    type V = WeatherPayloadModel;

    open spec fn view(&self) -> WeatherPayloadModel {
        WeatherPayloadModel { current: self.current@, daily: self.daily@ }
    }
}

/// The consolidated response: location, current conditions, the seven-day
/// forecast window, the historical samples, and the per-year error messages.
#[derive(Clone, Debug, PartialEq, Eq)]
pub struct WeatherReport {
    pub ip: String,
    pub lat: String,
    pub lon: String,
    pub city: String,
    pub region: String,
    pub country: String,
    pub temperature: String,
    pub windspeed: String,
    pub weathercode: i32,
    pub week_weather_codes: Vec<i32>,
    pub week_max_temperatures: Vec<String>,
    pub week_min_temperatures: Vec<String>,
    pub weather_history: Vec<HistoricalSample>,
    pub errors: Vec<String>,
}

/// Model of `WeatherReport`.
#[verifier::ext_equal]
pub ghost struct ReportModel {
    pub ip: Seq<char>,
    pub lat: Seq<char>,
    pub lon: Seq<char>,
    pub city: Seq<char>,
    pub region: Seq<char>,
    pub country: Seq<char>,
    pub temperature: Seq<char>,
    pub windspeed: Seq<char>,
    pub weathercode: i32,
    pub week_weather_codes: Seq<i32>,
    pub week_max_temperatures: Seq<Seq<char>>,
    pub week_min_temperatures: Seq<Seq<char>>,
    pub weather_history: Seq<SampleModel>,
    pub errors: Seq<Seq<char>>,
}

impl View for WeatherReport {
    type V = ReportModel;

    open spec fn view(&self) -> ReportModel {
        ReportModel {
            ip: self.ip@,
            lat: self.lat@,
            lon: self.lon@,
            city: self.city@,
            region: self.region@,
            country: self.country@,
            temperature: self.temperature@,
            windspeed: self.windspeed@,
            weathercode: self.weathercode,
            week_weather_codes: self.week_weather_codes@,
            week_max_temperatures: self.week_max_temperatures.deep_view(),
            week_min_temperatures: self.week_min_temperatures.deep_view(),
            weather_history: self.weather_history@.map_values(|s: HistoricalSample| s@),
            errors: self.errors.deep_view(),
        }
    }
}

/// The model of a geolocation outcome.
pub open spec fn geo_outcome(geo: Result<GeoPayload, String>) -> Result<GeoModel, Seq<char>> {
    match geo {
        Ok(g) => Ok(g@),
        Err(m) => Err(m@),
    }
}

/// The model of a weather-fetch outcome.
pub open spec fn weather_outcome(weather: Result<WeatherPayload, String>) -> Result<
    WeatherPayloadModel,
    Seq<char>,
> {
    match weather {
        Ok(w) => Ok(w@),
        Err(m) => Err(m@),
    }
}

/// The model of a produced report or fatal error.
pub open spec fn report_outcome(r: Result<WeatherReport, FatalError>) -> Result<
    ReportModel,
    FatalModel,
> {
    match r {
        Ok(rep) => Ok(rep@),
        Err(e) => Err(e@),
    }
}

/// The resolved location as a function of the geolocation payload.
pub open spec fn location_model(g: GeoModel) -> LocationModel {
    LocationModel {
        ip: g.ip,
        lat: lat_of(g.loc),
        lon: lon_of(g.loc),
        city: g.city,
        region: g.region,
        country: g.country,
    }
}

/// What resolving the location yields for every geolocation outcome.
pub open spec fn resolve_model(geo: Result<GeoModel, Seq<char>>) -> Result<
    LocationModel,
    FatalModel,
> {
    match geo {
        Err(m) => Err(FatalModel::Geolocation(m)),
        Ok(g) => if loc_valid(g.loc) {
            Ok(location_model(g))
        } else {
            Err(FatalModel::MalformedLocation(g.loc))
        },
    }
}

/// The sampling schedule as machine integers.
pub open spec fn schedule_years_i32(year: int) -> Seq<i32> {
    Seq::new(schedule_len(year) as nat, |i: int| (schedule_start(year) + 5 * i) as i32)
}

/// The full report as a function of the three upstream payloads and the
/// request date.
pub open spec fn report_model(
    g: GeoModel,
    w: WeatherPayloadModel,
    outcomes: Seq<OutcomeModel>,
    year: int,
    month: int,
    day: int,
) -> ReportModel {
    let cur = current_model(w.current);
    let fore = forecast_model(w.daily);
    let hist = history_model(schedule_years_i32(year), month, day, outcomes);
    ReportModel {
        ip: g.ip,
        lat: lat_of(g.loc),
        lon: lon_of(g.loc),
        city: g.city,
        region: g.region,
        country: g.country,
        temperature: cur.temperature,
        windspeed: cur.windspeed,
        weathercode: cur.weathercode,
        week_weather_codes: fore.week_weather_codes,
        week_max_temperatures: fore.week_max_temperatures,
        week_min_temperatures: fore.week_min_temperatures,
        weather_history: hist.0,
        errors: hist.1,
    }
}

/// What the whole workflow yields for every combination of upstream
/// outcomes: a geolocation failure or a malformed coordinate or a weather
/// failure is fatal, and otherwise the report is assembled from the payloads.
pub open spec fn workflow_model(
    geo: Result<GeoModel, Seq<char>>,
    weather: Result<WeatherPayloadModel, Seq<char>>,
    outcomes: Seq<OutcomeModel>,
    year: int,
    month: int,
    day: int,
) -> Result<ReportModel, FatalModel> {
    match geo {
        Err(m) => Err(FatalModel::Geolocation(m)),
        Ok(g) => if !loc_valid(g.loc) {
            Err(FatalModel::MalformedLocation(g.loc))
        } else {
            match weather {
                Err(m) => Err(FatalModel::WeatherFetch(m)),
                Ok(w) => Ok(report_model(g, w, outcomes, year, month, day)),
            }
        },
    }
}

/// Resolves the caller's location from the geolocation outcome.  A failed
/// lookup or a coordinate string without exactly two non-empty
/// comma-separated components is fatal, and nothing further is fetched.
pub fn resolve_location(geo: Result<GeoPayload, String>) -> (r: Result<LocationInfo, FatalError>)
    ensures
        match r {
            Ok(l) => resolve_model(geo_outcome(geo)) == Ok::<LocationModel, FatalModel>(l@),
            Err(e) => resolve_model(geo_outcome(geo)) == Err::<LocationModel, FatalModel>(e@),
        },
{
    match geo {
        Err(m) => Err(FatalError::Geolocation(m)),
        Ok(g) => {
            match split_location(g.loc.as_str()) {
                None => Err(FatalError::MalformedLocation(g.loc)),
                Some(parts) => {
                    let (lat, lon) = parts;
                    let l = LocationInfo {
                        ip: g.ip,
                        lat,
                        lon,
                        city: g.city,
                        region: g.region,
                        country: g.country,
                    };
                    proof {
                        assert(l@ =~= location_model(g@));
                    }
                    Ok(l)
                },
            }
        },
    }
}

/// Runs the whole aggregation over the upstream outcomes for the request
/// date: the result is exactly `workflow_model` of the inputs.  In
/// particular a geolocation failure yields the fatal geolocation error and
/// never a report.
pub fn produce_weather_report(
    geo: Result<GeoPayload, String>,
    weather: Result<WeatherPayload, String>,
    outcomes: Vec<Result<HistoricalPayload, String>>,
    year: i32,
    month: u8,
    day: u8,
) -> (r: Result<WeatherReport, FatalError>)
    requires
        1 <= year <= 9999,
        1 <= month <= 12,
        1 <= day <= 31,
        outcomes@.len() == schedule_len(year as int),
    ensures
        report_outcome(r) == workflow_model(
            geo_outcome(geo),
            weather_outcome(weather),
            outcomes@.map_values(|o: Result<HistoricalPayload, String>| outcome_model(o)),
            year as int,
            month as int,
            day as int,
        ),
        geo_outcome(geo) is Err ==> r matches Err(FatalError::Geolocation(_)),
{
    let ghost outs_m = outcomes@.map_values(
        |o: Result<HistoricalPayload, String>| outcome_model(o),
    );
    let loc = match resolve_location(geo) {
        Err(e) => {
            return Err(e);
        },
        Ok(l) => l,
    };
    let wp = match weather {
        Err(m) => {
            return Err(FatalError::WeatherFetch(m));
        },
        Ok(w) => w,
    };
    let current = default_current(wp.current);
    let forecast = default_forecast(wp.daily);
    let years = historical_years(year);
    proof {
        lemma_schedule_shape(year as int);
        assert forall|i: int| 0 <= i < years@.len() implies years@[i]
            == schedule_years_i32(year as int)[i] by {
            assert(schedule_years(year as int)[i] == schedule_start(year as int) + 5 * i);
            assert(1940 <= schedule_years(year as int)[i] <= year - 1);
        }
        assert(years@ =~= schedule_years_i32(year as int));
        assert forall|i: int| 0 <= i < years@.len() implies 0 <= #[trigger] years@[i] by {
            assert(1940 <= schedule_years(year as int)[i]);
        }
    }
    let collected = collect_history(&years, month, day, outcomes);
    let (history, errors) = collected;
    let report = WeatherReport {
        ip: loc.ip,
        lat: loc.lat,
        lon: loc.lon,
        city: loc.city,
        region: loc.region,
        country: loc.country,
        temperature: current.temperature,
        windspeed: current.windspeed,
        weathercode: current.weathercode,
        week_weather_codes: forecast.week_weather_codes,
        week_max_temperatures: forecast.week_max_temperatures,
        week_min_temperatures: forecast.week_min_temperatures,
        weather_history: history,
        errors,
    };
    proof {
        let g = geo->Ok_0@;
        let target = report_model(g, wp@, outs_m, year as int, month as int, day as int);
        let hist = history_model(schedule_years_i32(year as int), month as int, day as int, outs_m);
        assert(report@.weather_history =~= hist.0);
        assert(report@.errors =~= hist.1);
        assert(report@.week_max_temperatures =~= forecast_model(wp@.daily).week_max_temperatures);
        assert(report@.week_min_temperatures =~= forecast_model(wp@.daily).week_min_temperatures);
        assert(report@.week_weather_codes =~= forecast_model(wp@.daily).week_weather_codes);
        assert(report@ =~= target);
    }
    Ok(report)
}

/// Running the workflow twice over upstream responses with the same content
/// and the same request date yields the same report, field for field: the
/// workflow is a function of the upstream payloads and the date alone.
pub proof fn lemma_workflow_idempotent(
    geo1: Result<GeoModel, Seq<char>>,
    geo2: Result<GeoModel, Seq<char>>,
    weather1: Result<WeatherPayloadModel, Seq<char>>,
    weather2: Result<WeatherPayloadModel, Seq<char>>,
    outcomes1: Seq<OutcomeModel>,
    outcomes2: Seq<OutcomeModel>,
    year: int,
    month: int,
    day: int,
)
    requires
        geo1 == geo2,
        weather1 == weather2,
        outcomes1 == outcomes2,
    ensures
        workflow_model(geo1, weather1, outcomes1, year, month, day) == workflow_model(
            geo2,
            weather2,
            outcomes2,
            year,
            month,
            day,
        ),
{
}

} // verus!
