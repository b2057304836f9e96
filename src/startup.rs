//! The startup pipeline: public IP, then location, then the points document,
//! then the hourly forecast, then the window. The caller performs each action
//! and hands back what came of it; every failure ends the pipeline.
use vstd::prelude::*;
use crate::json::Json;
use crate::weather::{
    first_period, forecast_hourly_url, forecast_url_in, output_of, period_error, points_url_of,
    read_forecast, Location, Output, WeatherError,
};

verus! {

/// What the pipeline waits for.
#[derive(Debug, Clone, Copy, PartialEq, Eq, Structural)]
pub enum Stage {
    AwaitingIp,
    AwaitingLocation,
    AwaitingPoints,
    AwaitingForecast,
    Done,
}

/// Why startup ended without a snapshot.
#[derive(Debug, Clone, Copy, PartialEq, Eq, Structural)]
pub enum StartupError {
    /// The public IP address could not be had.
    IpLookup,
    /// The IP address could not be placed.
    Geolocation,
    /// A request to the weather service failed.
    Http,
    /// A response of the weather service was not JSON.
    Json,
    /// A document of the weather service lacked what the snapshot needs.
    Weather(WeatherError),
    /// An answer came that the current stage does not wait for.
    Unexpected,
}

/// What came of the last action.
#[derive(Debug)]
pub enum Event {
    Ip(String),
    Located(Location),
    Points(Json),
    Forecast(Json),
    Failed(StartupError),
}

/// What the caller is to do next.
#[derive(Debug)]
pub enum Action {
    /// Ask for the public IP address.
    LookUpIp,
    /// Place this IP address.
    Locate(String),
    /// GET this points URL from the weather service.
    FetchPoints(String),
    /// GET this hourly-forecast URL from the weather service.
    FetchForecast(String),
    /// Open the window on this snapshot.
    Show(Output),
    /// Give up.
    Abort(StartupError),
}

/// Whether `(s, a)` is the pipeline's answer to `e` in stage `stage`.
pub open spec fn step_result(stage: Stage, e: Event, s: Stage, a: Action) -> bool {
    match (stage, e) {
        (_, Event::Failed(err)) => s == Stage::Done && a == Action::Abort(err),
        (Stage::AwaitingIp, Event::Ip(ip)) => s == Stage::AwaitingLocation && a is Locate
            && a->Locate_0@ == ip@,
        (Stage::AwaitingLocation, Event::Located(loc)) => s == Stage::AwaitingPoints && a is FetchPoints
            && a->FetchPoints_0@ == points_url_of(loc.latitude@, loc.longitude@),
        (Stage::AwaitingPoints, Event::Points(doc)) => match forecast_url_in(doc) {
            Some(u) => s == Stage::AwaitingForecast && a is FetchForecast && a->FetchForecast_0@ == u,
            None => s == Stage::Done && a == Action::Abort(
                StartupError::Weather(WeatherError::MissingForecastUrl),
            ),
        },
        (Stage::AwaitingForecast, Event::Forecast(doc)) => s == Stage::Done && match first_period(doc) {
            None => a == Action::Abort(StartupError::Weather(WeatherError::MissingPeriod)),
            Some(p) => match period_error(p) {
                Some(err) => a == Action::Abort(StartupError::Weather(err)),
                None => a is Show && output_of(a->Show_0, p),
            },
        },
        _ => s == Stage::Done && a == Action::Abort(StartupError::Unexpected),
    }
}

/// The first action of the pipeline.
pub fn start() -> (r: (Stage, Action))
    ensures
        r.0 == Stage::AwaitingIp,
        r.1 is LookUpIp,
{
    (Stage::AwaitingIp, Action::LookUpIp)
}

/// The next stage and action, given what came of the last action.
pub fn step(stage: Stage, e: Event) -> (r: (Stage, Action))
    ensures
        step_result(stage, e, r.0, r.1),
{
    match (stage, e) {
        (_, Event::Failed(err)) => (Stage::Done, Action::Abort(err)),
        (Stage::AwaitingIp, Event::Ip(ip)) => (Stage::AwaitingLocation, Action::Locate(ip)),
        (Stage::AwaitingLocation, Event::Located(loc)) => (Stage::AwaitingPoints, Action::FetchPoints(loc.points_url())),
        (Stage::AwaitingPoints, Event::Points(doc)) => match forecast_hourly_url(&doc) {
            Ok(url) => (Stage::AwaitingForecast, Action::FetchForecast(url)),
            Err(err) => (Stage::Done, Action::Abort(StartupError::Weather(err))),
        },
        (Stage::AwaitingForecast, Event::Forecast(doc)) => match read_forecast(&doc) {
            Ok(o) => (Stage::Done, Action::Show(o)),
            Err(err) => (Stage::Done, Action::Abort(StartupError::Weather(err))),
        },
        _ => (Stage::Done, Action::Abort(StartupError::Unexpected)),
    }
}

/// A points document without a forecast URL ends startup at once: no second
/// request to the weather service follows it.
pub proof fn lemma_no_forecast_request_without_url(doc: Json, s: Stage, a: Action)
    requires
        forecast_url_in(doc) is None,
        step_result(Stage::AwaitingPoints, Event::Points(doc), s, a),
    ensures
        s == Stage::Done,
        !(a is FetchForecast),
        a == Action::Abort(StartupError::Weather(WeatherError::MissingForecastUrl)),
{
}

} // verus!
