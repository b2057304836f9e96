use weather_snapshot::display::{Icon, MyApp, Theme};
use weather_snapshot::forecast::{ShortForecast, UnknownShortForecast};
use weather_snapshot::json::{Json, JsonNumber};
use weather_snapshot::startup::{start, step, Action, Event, Stage, StartupError};
use weather_snapshot::weather::{
    forecast_hourly_url, read_forecast, read_period, Field, Location, WeatherError,
};

fn s(text: &str) -> Json {
    Json::Str(text.to_string())
}

fn uint(n: u64) -> Json {
    Json::Number(JsonNumber::PosInt(n))
}

fn obj(members: Vec<(&str, Json)>) -> Json {
    Json::Object(members.into_iter().map(|(k, v)| (k.to_string(), v)).collect())
}

fn period_with(precipitation: Json, short_forecast: &str) -> Json {
    obj(vec![
        ("startTime", s("2024-01-01T10:00:00-05:00")),
        ("endTime", s("2024-01-01T11:00:00-05:00")),
        ("isDaytime", Json::Bool(true)),
        ("temperature", uint(45)),
        ("temperatureUnit", s("F")),
        ("probabilityOfPrecipitation", obj(vec![("value", precipitation)])),
        ("relativeHumidity", obj(vec![("value", uint(55))])),
        ("windSpeed", s("10 mph")),
        ("windDirection", s("NW")),
        ("shortForecast", s(short_forecast)),
    ])
}

fn forecast_doc(period: Json) -> Json {
    obj(vec![("properties", obj(vec![("periods", Json::Array(vec![period]))]))])
}

#[test]
fn quoted_labels_parse_to_their_category() {
    let cases = [
        ("\"Sunny\"", ShortForecast::Sunny),
        ("\"Clear\"", ShortForecast::Clear),
        ("\"Partly Cloudy\"", ShortForecast::PartlyCloudy),
        ("\"Mostly Cloudy\"", ShortForecast::MostlyCloudy),
        ("\"Mostly Sunny\"", ShortForecast::MostlySunny),
        ("\"Partly Sunny\"", ShortForecast::PartlySunny),
    ];
    for (text, kind) in cases {
        assert_eq!(ShortForecast::from_str(text), Ok(kind));
        assert_eq!(kind.quoted_label_text(), text);
    }
}

#[test]
fn other_texts_are_not_categories() {
    for text in ["Sunny", "\"sunny\"", "\"Sunny \"", "\"Rain\"", "", "\"\"", "\"Partly  Cloudy\""] {
        assert_eq!(ShortForecast::from_str(text), Err(UnknownShortForecast));
    }
}

#[test]
fn each_category_has_its_own_icon() {
    let icons = [
        Icon::for_forecast(ShortForecast::Sunny),
        Icon::for_forecast(ShortForecast::Clear),
        Icon::for_forecast(ShortForecast::PartlyCloudy),
        Icon::for_forecast(ShortForecast::MostlyCloudy),
        Icon::for_forecast(ShortForecast::MostlySunny),
        Icon::for_forecast(ShortForecast::PartlySunny),
    ];
    for i in 0..icons.len() {
        for j in 0..icons.len() {
            assert_eq!(icons[i] == icons[j], i == j);
        }
    }
    assert_eq!(icons[0], Icon::Sun);
    assert_eq!(icons[0].asset(), "sun.png");
    assert_eq!(icons[1].asset(), "misty.png");
    assert_eq!(icons[3].asset(), "cloud-2.png");
}

#[test]
fn theme_follows_day_time() {
    assert_eq!(Theme::for_day_time(true), Theme::Light);
    assert_eq!(Theme::for_day_time(false), Theme::Dark);
    let night = read_period(&period_with(uint(10), "Clear")).map(|mut o| {
        o.is_day_time = false;
        o
    });
    assert_eq!(MyApp::new(night.unwrap()).screen().theme, Theme::Dark);
}

#[test]
fn points_url_joins_the_coordinates() {
    let loc = Location::new("40.7128".to_string(), "-74.0060".to_string());
    assert_eq!(loc.points_url(), "https://api.weather.gov/points/40.7128,-74.0060");
}

#[test]
fn forecast_url_is_read_from_the_points_document() {
    let doc = obj(vec![("properties", obj(vec![("forecastHourly", s("https://x/hourly"))]))]);
    assert_eq!(forecast_hourly_url(&doc), Ok("https://x/hourly".to_string()));
    let wrong_type = obj(vec![("properties", obj(vec![("forecastHourly", uint(3))]))]);
    assert_eq!(forecast_hourly_url(&wrong_type), Err(WeatherError::MissingForecastUrl));
    assert_eq!(forecast_hourly_url(&Json::Null), Err(WeatherError::MissingForecastUrl));
}

#[test]
fn missing_forecast_url_stops_before_second_request() {
    let points = obj(vec![("properties", obj(vec![("forecast", s("https://x/daily"))]))]);
    let (stage, action) = step(Stage::AwaitingPoints, Event::Points(points));
    assert_eq!(stage, Stage::Done);
    assert!(matches!(
        action,
        Action::Abort(StartupError::Weather(WeatherError::MissingForecastUrl))
    ));
}

#[test]
fn precipitation_reads_unsigned_integers() {
    let o = read_period(&period_with(uint(42), "Sunny")).unwrap();
    assert_eq!(o.precipitation_percent, 42);
    for bad in [
        Json::Number(JsonNumber::NegInt(-1)),
        Json::Number(JsonNumber::Float),
        s("42"),
        Json::Null,
    ] {
        assert_eq!(
            read_period(&period_with(bad, "Sunny")).err(),
            Some(WeatherError::BadField(Field::PrecipitationChance))
        );
    }
}

#[test]
fn fields_are_checked_in_order() {
    let mut p = period_with(uint(10), "Sunny");
    if let Json::Object(ms) = &mut p {
        ms[2].1 = s("yes");
        ms[3].1 = Json::Bool(false);
    }
    assert_eq!(read_period(&p).err(), Some(WeatherError::BadField(Field::IsDaytime)));
    let mut q = period_with(uint(10), "Sunny");
    if let Json::Object(ms) = &mut q {
        ms.remove(0);
    }
    assert_eq!(read_period(&q).err(), Some(WeatherError::BadField(Field::StartTime)));
    let mut big = period_with(uint(10), "Sunny");
    if let Json::Object(ms) = &mut big {
        ms[3].1 = uint(u64::MAX);
    }
    assert_eq!(read_period(&big).err(), Some(WeatherError::BadField(Field::Temperature)));
}

#[test]
fn unknown_short_forecast_is_an_error() {
    assert_eq!(
        read_period(&period_with(uint(10), "Rain")).err(),
        Some(WeatherError::UnknownShortForecast)
    );
    assert_eq!(
        read_period(&period_with(uint(10), "Sunny\"")).err(),
        Some(WeatherError::UnknownShortForecast)
    );
    assert_eq!(
        read_period(&period_with(uint(10), "Mostly Sunny")).unwrap().short_forecast,
        ShortForecast::MostlySunny
    );
}

#[test]
fn document_without_periods_is_an_error() {
    let empty = obj(vec![("properties", obj(vec![("periods", Json::Array(vec![]))]))]);
    assert_eq!(read_forecast(&empty).err(), Some(WeatherError::MissingPeriod));
    assert_eq!(read_forecast(&Json::Null).err(), Some(WeatherError::MissingPeriod));
}

#[test]
fn labels_show_negative_temperatures() {
    let mut p = period_with(uint(0), "Clear");
    if let Json::Object(ms) = &mut p {
        ms[3].1 = Json::Number(JsonNumber::NegInt(i64::MIN));
        ms[6].1 = obj(vec![("value", uint(100))]);
    }
    let screen = MyApp::new(read_period(&p).unwrap()).screen();
    assert_eq!(screen.temperature, "current temp -9223372036854775808F");
    assert_eq!(screen.precipitation, "precipitation 0%");
    assert_eq!(screen.humidity, "humidity 100%");
    assert_eq!(screen.icon, Icon::Misty);
}

#[test]
fn failures_and_stray_answers_end_startup() {
    let (stage, action) = step(Stage::AwaitingIp, Event::Failed(StartupError::IpLookup));
    assert_eq!(stage, Stage::Done);
    assert!(matches!(action, Action::Abort(StartupError::IpLookup)));
    let (stage, action) = step(Stage::AwaitingIp, Event::Forecast(Json::Null));
    assert_eq!(stage, Stage::Done);
    assert!(matches!(action, Action::Abort(StartupError::Unexpected)));
    let (_, action) = step(Stage::AwaitingForecast, Event::Forecast(Json::Null));
    assert!(matches!(
        action,
        Action::Abort(StartupError::Weather(WeatherError::MissingPeriod))
    ));
}

#[test]
fn startup_from_ip_to_window() {
    let (stage, action) = start();
    assert_eq!(stage, Stage::AwaitingIp);
    assert!(matches!(action, Action::LookUpIp));

    let (stage, action) = step(stage, Event::Ip("93.184.216.34".to_string()));
    assert_eq!(stage, Stage::AwaitingLocation);
    match action {
        Action::Locate(ip) => assert_eq!(ip, "93.184.216.34"),
        other => panic!("unexpected action {:?}", other),
    }

    let loc = Location::new("40.7128".to_string(), "-74.0060".to_string());
    let (stage, action) = step(stage, Event::Located(loc));
    assert_eq!(stage, Stage::AwaitingPoints);
    match action {
        Action::FetchPoints(url) => assert_eq!(url, "https://api.weather.gov/points/40.7128,-74.0060"),
        other => panic!("unexpected action {:?}", other),
    }

    let hourly = "https://api.weather.gov/gridpoints/OKX/33,35/forecast/hourly";
    let points = obj(vec![("properties", obj(vec![("forecastHourly", s(hourly))]))]);
    let (stage, action) = step(stage, Event::Points(points));
    assert_eq!(stage, Stage::AwaitingForecast);
    match action {
        Action::FetchForecast(url) => assert_eq!(url, hourly),
        other => panic!("unexpected action {:?}", other),
    }

    let (stage, action) = step(stage, Event::Forecast(forecast_doc(period_with(uint(10), "Sunny"))));
    assert_eq!(stage, Stage::Done);
    let data = match action {
        Action::Show(o) => o,
        other => panic!("unexpected action {:?}", other),
    };
    assert_eq!(data.start_time, "2024-01-01T10:00:00-05:00");
    assert_eq!(data.end_time, "2024-01-01T11:00:00-05:00");
    assert_eq!(data.temp, 45);
    assert_eq!(data.short_forecast, ShortForecast::Sunny);

    let screen = MyApp::new(data).screen();
    assert_eq!(screen.icon, Icon::Sun);
    assert_eq!(screen.theme, Theme::Light);
    assert_eq!(screen.temperature, "current temp 45F");
    assert_eq!(screen.wind, "wind speed 10 mph, direction NW");
    assert_eq!(screen.precipitation, "precipitation 10%");
    assert_eq!(screen.humidity, "humidity 55%");
    assert_eq!(screen.start, "start 2024-01-01T10:00:00-05:00");
    assert_eq!(screen.end, "end 2024-01-01T11:00:00-05:00");
}
