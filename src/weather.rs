//! Reading the weather service's answers: the forecast URL from the
//! "points" document, and the forecast snapshot from the hourly document.
use vstd::prelude::*;
use crate::forecast::{label, quoted, quoted_label, ShortForecast};
use crate::json::{
    bool_value, deref_opt, element_of, i64_value, member, member_of, str_value, u64_value, Json,
    JsonNumber,
};

verus! {

/// A position in decimal degrees, as text.
#[derive(Debug, Clone)]
pub struct Location {
    pub latitude: String,
    pub longitude: String,
}

/// One field of a forecast period.
#[derive(Debug, Clone, Copy, PartialEq, Eq, Structural)]
pub enum Field {
    StartTime,
    EndTime,
    IsDaytime,
    Temperature,
    TemperatureUnit,
    PrecipitationChance,
    Humidity,
    WindSpeed,
    WindDirection,
    ShortForecast,
}

/// Why the service's documents could not be read.
#[derive(Debug, Clone, Copy, PartialEq, Eq, Structural)]
pub enum WeatherError {
    /// The points document has no string at `properties.forecastHourly`.
    MissingForecastUrl,
    /// The forecast document has no `properties.periods[0]`.
    MissingPeriod,
    /// A field of the first period is missing or of the wrong JSON type.
    BadField(Field),
    /// The period's short forecast names no known category.
    UnknownShortForecast,
}

/// The current-conditions snapshot, read from the first forecast period.
/// Its text fields hold the text of JSON strings, without the quotes of
/// their JSON form.
#[derive(Debug, Clone)]
pub struct Output {
    pub start_time: String,
    pub end_time: String,
    pub is_day_time: bool,
    pub temp: i64,
    pub temp_unit: String,
    pub precipitation_percent: u64,
    pub humidity_percent: u64,
    pub wind_speed: String,
    pub wind_direction: String,
    pub short_forecast: ShortForecast,
}

/// The text of a JSON string value, written as a JSON string literal.
pub uninterp spec fn json_string_text(s: Seq<char>) -> Seq<char>;

/// Whether a JSON string literal writes `s` with no escape sequence.
pub open spec fn needs_no_escape(s: Seq<char>) -> bool {
    forall|i: int| 0 <= i < s.len() ==> #[trigger] s[i] != '"' && s[i] != '\\' && s[i] >= ' '
}

/// Relies on serde_json's `Display` for `Value::String`: the text quoted,
/// with `"`, `\` and control characters escaped and all else kept.
#[verifier::external_body]
fn json_string_literal(s: &str) -> (r: String)
    ensures
        r@ == json_string_text(s@),
        needs_no_escape(s@) ==> r@ == quoted(s@),
{
    serde_json::Value::String(s.to_string()).to_string()
}

/// The category names are written in JSON with no escape sequence.
proof fn lemma_label_needs_no_escape(k: ShortForecast)
    ensures
        needs_no_escape(label(k)),
{
    let l = label(k);
    assert forall|i: int| 0 <= i < l.len() implies #[trigger] l[i] != '"' && l[i] != '\\' && l[i] >= ' ' by {
        match k {
            ShortForecast::Sunny => {},
            ShortForecast::Clear => {},
            ShortForecast::PartlyCloudy => {},
            ShortForecast::MostlyCloudy => {},
            ShortForecast::MostlySunny => {},
            ShortForecast::PartlySunny => {},
        }
    }
}

/// The URL of the points endpoint for a location.
pub open spec fn points_url_of(lat: Seq<char>, lon: Seq<char>) -> Seq<char> {
    "https://api.weather.gov/points/"@ + lat + ","@ + lon
}

impl Location {
    pub fn new(latitude: String, longitude: String) -> (r: Location)
        ensures
            r.latitude == latitude,
            r.longitude == longitude,
    {
        Location { latitude, longitude }
    }

    /// The URL that asks the weather service about this location.
    pub fn points_url(&self) -> (r: String)
        ensures
            r@ == points_url_of(self.latitude@, self.longitude@),
    {
        let mut url = String::from_str("https://api.weather.gov/points/");
        url.append(self.latitude.as_str());
        url.append(",");
        url.append(self.longitude.as_str());
        url
    }
}

/// The hourly-forecast URL named by a points document.
pub open spec fn forecast_url_in(points: Json) -> Option<Seq<char>> {
    str_value(member_of(member(points, "properties"@), "forecastHourly"@))
}

/// The text of a string value, copied.
fn text_of(v: Option<&Json>) -> (r: Option<String>)
    ensures
        match r {
            Some(s) => str_value(deref_opt(v)) == Some(s@),
            None => str_value(deref_opt(v)) is None,
        },
{
    match v {
        Some(Json::Str(s)) => Some(s.clone()),
        _ => None,
    }
}

/// Reads the hourly-forecast URL from a points document.
pub fn forecast_hourly_url(points: &Json) -> (r: Result<String, WeatherError>)
    ensures
        match forecast_url_in(*points) {
            Some(u) => r is Ok && r->Ok_0@ == u,
            None => r == Err::<String, WeatherError>(WeatherError::MissingForecastUrl),
        },
{
    let props = points.get("properties");
    let url = match props {
        Some(p) => text_of(p.get("forecastHourly")),
        None => None,
    };
    match url {
        Some(u) => Ok(u),
        None => Err(WeatherError::MissingForecastUrl),
    }
}

/// The first period of a forecast document.
pub open spec fn first_period(doc: Json) -> Option<Json> {
    element_of(member_of(member(doc, "properties"@), "periods"@), 0)
}

/// Where each field stands in a period.
pub open spec fn field_value(p: Json, f: Field) -> Option<Json> {
    match f {
        Field::StartTime => member(p, "startTime"@),
        Field::EndTime => member(p, "endTime"@),
        Field::IsDaytime => member(p, "isDaytime"@),
        Field::Temperature => member(p, "temperature"@),
        Field::TemperatureUnit => member(p, "temperatureUnit"@),
        Field::PrecipitationChance => member_of(member(p, "probabilityOfPrecipitation"@), "value"@),
        Field::Humidity => member_of(member(p, "relativeHumidity"@), "value"@),
        Field::WindSpeed => member(p, "windSpeed"@),
        Field::WindDirection => member(p, "windDirection"@),
        Field::ShortForecast => member(p, "shortForecast"@),
    }
}

/// Whether a field is present with the JSON type that the snapshot needs.
pub open spec fn field_ok(p: Json, f: Field) -> bool {
    let v = field_value(p, f);
    match f {
        Field::IsDaytime => bool_value(v) is Some,
        Field::Temperature => i64_value(v) is Some,
        Field::PrecipitationChance | Field::Humidity => u64_value(v) is Some,
        _ => str_value(v) is Some,
    }
}

/// The period's short forecast as a JSON string literal, as it is matched
/// against the category labels.
pub open spec fn forecast_literal(p: Json) -> Seq<char> {
    json_string_text(str_value(field_value(p, Field::ShortForecast))->Some_0)
}

/// Whether the period's short forecast names a known category.
pub open spec fn forecast_known(p: Json) -> bool {
    exists|k: ShortForecast| #[trigger] quoted_label(k) == forecast_literal(p)
}

/// What is wrong with a period: the first bad field in field order, then an
/// unknown short forecast; `None` for a readable period.
pub open spec fn period_error(p: Json) -> Option<WeatherError> {
    if !field_ok(p, Field::StartTime) {
        Some(WeatherError::BadField(Field::StartTime))
    } else if !field_ok(p, Field::EndTime) {
        Some(WeatherError::BadField(Field::EndTime))
    } else if !field_ok(p, Field::IsDaytime) {
        Some(WeatherError::BadField(Field::IsDaytime))
    } else if !field_ok(p, Field::Temperature) {
        Some(WeatherError::BadField(Field::Temperature))
    } else if !field_ok(p, Field::TemperatureUnit) {
        Some(WeatherError::BadField(Field::TemperatureUnit))
    } else if !field_ok(p, Field::PrecipitationChance) {
        Some(WeatherError::BadField(Field::PrecipitationChance))
    } else if !field_ok(p, Field::Humidity) {
        Some(WeatherError::BadField(Field::Humidity))
    } else if !field_ok(p, Field::WindSpeed) {
        Some(WeatherError::BadField(Field::WindSpeed))
    } else if !field_ok(p, Field::WindDirection) {
        Some(WeatherError::BadField(Field::WindDirection))
    } else if !field_ok(p, Field::ShortForecast) {
        Some(WeatherError::BadField(Field::ShortForecast))
    } else if !forecast_known(p) {
        Some(WeatherError::UnknownShortForecast)
    } else {
        None
    }
}

/// Whether a snapshot holds what a period says.
pub open spec fn output_of(o: Output, p: Json) -> bool {
    &&& Some(o.start_time@) == str_value(field_value(p, Field::StartTime))
    &&& Some(o.end_time@) == str_value(field_value(p, Field::EndTime))
    &&& Some(o.is_day_time) == bool_value(field_value(p, Field::IsDaytime))
    &&& Some(o.temp) == i64_value(field_value(p, Field::Temperature))
    &&& Some(o.temp_unit@) == str_value(field_value(p, Field::TemperatureUnit))
    &&& Some(o.precipitation_percent) == u64_value(field_value(p, Field::PrecipitationChance))
    &&& Some(o.humidity_percent) == u64_value(field_value(p, Field::Humidity))
    &&& Some(o.wind_speed@) == str_value(field_value(p, Field::WindSpeed))
    &&& Some(o.wind_direction@) == str_value(field_value(p, Field::WindDirection))
    &&& quoted_label(o.short_forecast) == forecast_literal(p)
}

/// A boolean value.
fn bool_of(v: Option<&Json>) -> (r: Option<bool>)
    ensures
        r == bool_value(deref_opt(v)),
{
    match v {
        Some(Json::Bool(b)) => Some(*b),
        _ => None,
    }
}

/// An integer value that fits in `i64`.
fn i64_of(v: Option<&Json>) -> (r: Option<i64>)
    ensures
        r == i64_value(deref_opt(v)),
{
    match v {
        Some(Json::Number(JsonNumber::PosInt(n))) => if *n <= i64::MAX as u64 {
            Some(*n as i64)
        } else {
            None
        },
        Some(Json::Number(JsonNumber::NegInt(n))) => Some(*n),
        _ => None,
    }
}

/// An integer value without a sign.
fn u64_of(v: Option<&Json>) -> (r: Option<u64>)
    ensures
        r == u64_value(deref_opt(v)),
{
    match v {
        Some(Json::Number(JsonNumber::PosInt(n))) => Some(*n),
        _ => None,
    }
}

/// The member `key` of the member `outer` of an object.
fn nested<'a>(p: &'a Json, outer: &str, key: &str) -> (r: Option<&'a Json>)
    ensures
        deref_opt(r) == member_of(member(*p, outer@), key@),
{
    match p.get(outer) {
        Some(o) => o.get(key),
        None => None,
    }
}

/// Reads the snapshot from a forecast period, checking the fields in order.
pub fn read_period(p: &Json) -> (r: Result<Output, WeatherError>)
    ensures
        match period_error(*p) {
            Some(e) => r == Err::<Output, WeatherError>(e),
            None => r is Ok && output_of(r->Ok_0, *p),
        },
        forall|k: ShortForecast| #![trigger label(k)]
            str_value(field_value(*p, Field::ShortForecast)) == Some(label(k))
                && !(r matches Err(WeatherError::BadField(_))) ==> r is Ok && r->Ok_0.short_forecast == k,
{
    let start_time = match text_of(p.get("startTime")) {
        Some(s) => s,
        None => return Err(WeatherError::BadField(Field::StartTime)),
    };
    let end_time = match text_of(p.get("endTime")) {
        Some(s) => s,
        None => return Err(WeatherError::BadField(Field::EndTime)),
    };
    let is_day_time = match bool_of(p.get("isDaytime")) {
        Some(b) => b,
        None => return Err(WeatherError::BadField(Field::IsDaytime)),
    };
    let temp = match i64_of(p.get("temperature")) {
        Some(t) => t,
        None => return Err(WeatherError::BadField(Field::Temperature)),
    };
    let temp_unit = match text_of(p.get("temperatureUnit")) {
        Some(s) => s,
        None => return Err(WeatherError::BadField(Field::TemperatureUnit)),
    };
    let precipitation_percent = match u64_of(nested(p, "probabilityOfPrecipitation", "value")) {
        Some(n) => n,
        None => return Err(WeatherError::BadField(Field::PrecipitationChance)),
    };
    let humidity_percent = match u64_of(nested(p, "relativeHumidity", "value")) {
        Some(n) => n,
        None => return Err(WeatherError::BadField(Field::Humidity)),
    };
    let wind_speed = match text_of(p.get("windSpeed")) {
        Some(s) => s,
        None => return Err(WeatherError::BadField(Field::WindSpeed)),
    };
    let wind_direction = match text_of(p.get("windDirection")) {
        Some(s) => s,
        None => return Err(WeatherError::BadField(Field::WindDirection)),
    };
    let forecast_text = match text_of(p.get("shortForecast")) {
        Some(s) => s,
        None => return Err(WeatherError::BadField(Field::ShortForecast)),
    };
    let literal = json_string_literal(forecast_text.as_str());
    proof {
        assert forall|k: ShortForecast| #![trigger label(k)] forecast_text@ == label(k) implies literal@
            == quoted_label(k) by {
            lemma_label_needs_no_escape(k);
        }
    }
    let short_forecast = match ShortForecast::from_str(literal.as_str()) {
        Ok(k) => k,
        Err(_) => return Err(WeatherError::UnknownShortForecast),
    };
    Ok(Output {
        start_time,
        end_time,
        is_day_time,
        temp,
        temp_unit,
        precipitation_percent,
        humidity_percent,
        wind_speed,
        wind_direction,
        short_forecast,
    })
}

/// Reads the snapshot from the first period of an hourly forecast document.
pub fn read_forecast(doc: &Json) -> (r: Result<Output, WeatherError>)
    ensures
        match first_period(*doc) {
            None => r == Err::<Output, WeatherError>(WeatherError::MissingPeriod),
            Some(p) => match period_error(p) {
                Some(e) => r == Err::<Output, WeatherError>(e),
                None => r is Ok && output_of(r->Ok_0, p),
            },
        },
{
    let period = match nested(doc, "properties", "periods") {
        Some(list) => list.element(0),
        None => None,
    };
    match period {
        Some(p) => read_period(p),
        None => Err(WeatherError::MissingPeriod),
    }
}

/// The chance of precipitation comes only from a JSON integer without a
/// sign: such a value is taken as it is, and a negative number, a number
/// with a fraction, or a value of another type makes the period unreadable
/// once the fields before it are readable.
pub proof fn lemma_precipitation_unsigned(p: Json, o: Output)
    ensures
        output_of(o, p) ==> Some(o.precipitation_percent) == u64_value(
            field_value(p, Field::PrecipitationChance),
        ),
        (field_ok(p, Field::StartTime) && field_ok(p, Field::EndTime) && field_ok(p, Field::IsDaytime)
            && field_ok(p, Field::Temperature) && field_ok(p, Field::TemperatureUnit)
            && !(field_value(p, Field::PrecipitationChance) matches Some(Json::Number(JsonNumber::PosInt(_)))))
            ==> period_error(p) == Some(WeatherError::BadField(Field::PrecipitationChance)),
{
}

} // verus!
