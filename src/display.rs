//! What the window shows for a snapshot: the icon, the theme and the text
//! of each label.
use vstd::prelude::*;
use crate::forecast::ShortForecast;
use crate::text::{int_text, digits, push_digits, push_int};
use crate::weather::Output;

verus! {

/// The forecast pictures, one per short-forecast category.
#[derive(Debug, Clone, Copy, PartialEq, Eq, Structural)]
pub enum Icon {
    Sun,
    Misty,
    Cloud,
    DarkCloud,
    Cloudy,
    BrightSun,
}

/// The window's colour scheme.
#[derive(Debug, Clone, Copy, PartialEq, Eq, Structural)]
pub enum Theme {
    Light,
    Dark,
}

/// The picture shown for each category.
pub open spec fn icon_of(k: ShortForecast) -> Icon {
    match k {
        ShortForecast::Sunny => Icon::Sun,
        ShortForecast::Clear => Icon::Misty,
        ShortForecast::PartlyCloudy => Icon::Cloud,
        ShortForecast::MostlyCloudy => Icon::DarkCloud,
        ShortForecast::PartlySunny => Icon::Cloudy,
        ShortForecast::MostlySunny => Icon::BrightSun,
    }
}

/// The scheme for a period: light by day, dark by night.
pub open spec fn theme_of(is_day_time: bool) -> Theme {
    if is_day_time {
        Theme::Light
    } else {
        Theme::Dark
    }
}

/// The image file of each picture.
pub open spec fn asset_of(i: Icon) -> Seq<char> {
    match i {
        Icon::Sun => "sun.png"@,
        Icon::Misty => "misty.png"@,
        Icon::Cloud => "cloud.png"@,
        Icon::DarkCloud => "cloud-2.png"@,
        Icon::Cloudy => "cloudy.png"@,
        Icon::BrightSun => "sun-2.png"@,
    }
}

/// Every category has a picture of its own: the choice of icon is total over
/// the categories and no two of them share one.
pub proof fn lemma_icon_per_category(a: ShortForecast, b: ShortForecast)
    ensures
        icon_of(a) == icon_of(b) <==> a == b,
{
}

/// The theme depends on whether it is day and on nothing else of the
/// snapshot: light exactly by day, dark exactly by night.
pub proof fn lemma_theme_from_day_time_only(a: Output, b: Output)
    ensures
        a.is_day_time == b.is_day_time ==> theme_of(a.is_day_time) == theme_of(b.is_day_time),
        theme_of(a.is_day_time) == Theme::Light <==> a.is_day_time,
        theme_of(a.is_day_time) == Theme::Dark <==> !a.is_day_time,
{
}

impl Icon {
    /// The picture for a category.
    pub fn for_forecast(k: ShortForecast) -> (r: Icon)
        ensures
            r == icon_of(k),
    {
        match k {
            ShortForecast::Sunny => Icon::Sun,
            ShortForecast::Clear => Icon::Misty,
            ShortForecast::PartlyCloudy => Icon::Cloud,
            ShortForecast::MostlyCloudy => Icon::DarkCloud,
            ShortForecast::PartlySunny => Icon::Cloudy,
            ShortForecast::MostlySunny => Icon::BrightSun,
        }
    }

    /// The image file of this picture.
    pub fn asset(&self) -> (r: &'static str)
        ensures
            r@ == asset_of(*self),
    {
        match self {
            Icon::Sun => "sun.png",
            Icon::Misty => "misty.png",
            Icon::Cloud => "cloud.png",
            Icon::DarkCloud => "cloud-2.png",
            Icon::Cloudy => "cloudy.png",
            Icon::BrightSun => "sun-2.png",
        }
    }
}

impl Theme {
    /// The scheme for a period.
    pub fn for_day_time(is_day_time: bool) -> (r: Theme)
        ensures
            r == theme_of(is_day_time),
    {
        if is_day_time {
            Theme::Light
        } else {
            Theme::Dark
        }
    }
}

/// Everything one frame of the window draws.
#[derive(Debug, Clone)]
pub struct Screen {
    pub icon: Icon,
    pub theme: Theme,
    pub temperature: String,
    pub wind: String,
    pub precipitation: String,
    pub humidity: String,
    pub start: String,
    pub end: String,
}

/// The temperature line.
pub open spec fn temperature_text(o: Output) -> Seq<char> {
    "current temp "@ + int_text(o.temp as int) + o.temp_unit@
}

/// The wind line.
pub open spec fn wind_text(o: Output) -> Seq<char> {
    "wind speed "@ + o.wind_speed@ + ", direction "@ + o.wind_direction@
}

/// The chance-of-precipitation label.
pub open spec fn precipitation_text(o: Output) -> Seq<char> {
    "precipitation "@ + digits(o.precipitation_percent as nat) + "%"@
}

/// The humidity label.
pub open spec fn humidity_text(o: Output) -> Seq<char> {
    "humidity "@ + digits(o.humidity_percent as nat) + "%"@
}

/// The line with the start of the period.
pub open spec fn start_text(o: Output) -> Seq<char> {
    "start "@ + o.start_time@
}

/// The line with the end of the period.
pub open spec fn end_text(o: Output) -> Seq<char> {
    "end "@ + o.end_time@
}

/// The window's state: the one snapshot it shows.
pub struct MyApp {
    pub data: Output,
}

impl MyApp {
    pub fn new(data: Output) -> (r: MyApp)
        ensures
            r.data == data,
    {
        MyApp { data }
    }

    /// What each frame draws; the same for every frame.
    pub fn screen(&self) -> (r: Screen)
        ensures
            r.icon == icon_of(self.data.short_forecast),
            r.theme == theme_of(self.data.is_day_time),
            r.temperature@ == temperature_text(self.data),
            r.wind@ == wind_text(self.data),
            r.precipitation@ == precipitation_text(self.data),
            r.humidity@ == humidity_text(self.data),
            r.start@ == start_text(self.data),
            r.end@ == end_text(self.data),
    {
        let d = &self.data;
        let mut temperature = String::from_str("current temp ");
        push_int(d.temp, &mut temperature);
        temperature.append(d.temp_unit.as_str());

        let mut wind = String::from_str("wind speed ");
        wind.append(d.wind_speed.as_str());
        wind.append(", direction ");
        wind.append(d.wind_direction.as_str());

        let mut precipitation = String::from_str("precipitation ");
        push_digits(d.precipitation_percent, &mut precipitation);
        precipitation.append("%");

        let mut humidity = String::from_str("humidity ");
        push_digits(d.humidity_percent, &mut humidity);
        humidity.append("%");

        let mut start = String::from_str("start ");
        start.append(d.start_time.as_str());
        let mut end = String::from_str("end ");
        end.append(d.end_time.as_str());

        Screen {
            icon: Icon::for_forecast(d.short_forecast),
            theme: Theme::for_day_time(d.is_day_time),
            temperature,
            wind,
            precipitation,
            humidity,
            start,
            end,
        }
    }
}

} // verus!
