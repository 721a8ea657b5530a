//! The weather summary: icons for the conditions that the forecast service
//! names, the choice of the API key and of the forecast day, and the
//! record for the bar.
use vstd::prelude::*;
use crate::error::Error;
use crate::text::same_text;
use crate::waybar::{WaybarData, WaybarView};

verus! {

/// The glyph for a weather condition of the forecast service, where it has one.
pub open spec fn condition_icon(s: Seq<char>) -> Option<Seq<char>> {
    if s == "晴"@ {
        Some("\u{f0599}"@)
    } else if s == "少云"@ {
        Some("\u{f0590}"@)
    } else if s == "晴间多云"@ {
        Some("\u{f0595}"@)
    } else if s == "多云"@ {
        Some("\u{f0f2f}"@)
    } else if s == "阴"@ {
        Some("\u{f0f30}"@)
    } else if s == "有风"@ || s == "平静"@ || s == "微风"@ || s == "和风"@ || s == "清风"@ {
        Some("\u{e31e}"@)
    } else if s == "强风/劲风"@ || s == "疾风"@ || s == "大风"@ {
        Some("\u{f059d}"@)
    } else if s == "烈风"@ || s == "风暴"@ || s == "狂爆风"@ {
        Some("\u{f0f38}"@)
    } else if s == "飓风"@ || s == "热带风暴"@ || s == "龙卷风"@ {
        Some("\u{f0898}"@)
    } else if s == "霾"@ || s == "中度霾"@ || s == "重度霾"@ || s == "严重霾"@ {
        Some("\u{f0591}"@)
    } else if s == "阵雨"@ {
        Some("\u{f0593}"@)
    } else if s == "雷阵雨"@ || s == "雷阵雨并伴有冰雹"@ {
        Some("\u{f067e}"@)
    } else if s == "毛毛雨/细雨"@ || s == "雨"@ || s == "小雨"@ {
        Some("\u{f0592}"@)
    } else if s == "中雨"@ || s == "大雨"@ || s == "小雨-中雨"@ || s == "中雨-大雨"@ || s == "大雨-暴雨"@ {
        Some("\u{f0597}"@)
    } else if s == "暴雨"@
        || s == "大暴雨"@
        || s == "特大暴雨"@
        || s == "强阵雨"@
        || s == "强雷阵雨"@
        || s == "极端降雨"@
        || s == "暴雨-大暴雨"@
        || s == "大暴雨-特大暴雨"@ {
        Some("\u{f0596}"@)
    } else if s == "雨雪天气"@ || s == "雨夹雪"@ || s == "阵雨夹雪"@ || s == "冻雨"@ {
        Some("\u{f067f}"@)
    } else if s == "阵雪"@ {
        Some("\u{f0f34}"@)
    } else if s == "雪"@ || s == "小雪"@ || s == "中雪"@ || s == "小雪-中雪"@ {
        Some("\u{f0598}"@)
    } else if s == "大雪"@ || s == "暴雪"@ || s == "中雪-大雪"@ || s == "大雪-暴雪"@ {
        Some("\u{f0f36}"@)
    } else if s == "浮尘"@ || s == "扬沙"@ || s == "沙尘暴"@ || s == "强沙尘暴"@ {
        Some("\u{e35d}"@)
    } else if s == "雾"@ || s == "浓雾"@ || s == "强浓雾"@ || s == "轻雾"@ || s == "大雾"@ || s == "特强浓雾"@ {
        Some("\u{f0591}"@)
    } else if s == "热"@ {
        Some("\u{f0599} "@)
    } else if s == "冷"@ {
        Some("\u{f2dc}"@)
    } else {
        None
    }
}

/// The glyph for a condition, or the condition itself where there is none.
pub open spec fn icon_or_name(s: Seq<char>) -> Seq<char> {
    match condition_icon(s) {
        Some(icon) => icon,
        None => s,
    }
}

fn known_icon(s: &str) -> (r: Option<&'static str>)
    ensures
        match r {
            Some(icon) => condition_icon(s@) == Some(icon@),
            None => condition_icon(s@) is None,
        },
{
    if same_text(s, "晴") {
        Some("\u{f0599}")
    } else if same_text(s, "少云") {
        Some("\u{f0590}")
    } else if same_text(s, "晴间多云") {
        Some("\u{f0595}")
    } else if same_text(s, "多云") {
        Some("\u{f0f2f}")
    } else if same_text(s, "阴") {
        Some("\u{f0f30}")
    } else if same_text(s, "有风")
        || same_text(s, "平静")
        || same_text(s, "微风")
        || same_text(s, "和风")
        || same_text(s, "清风") {
        Some("\u{e31e}")
    } else if same_text(s, "强风/劲风") || same_text(s, "疾风") || same_text(s, "大风") {
        Some("\u{f059d}")
    } else if same_text(s, "烈风") || same_text(s, "风暴") || same_text(s, "狂爆风") {
        Some("\u{f0f38}")
    } else if same_text(s, "飓风") || same_text(s, "热带风暴") || same_text(s, "龙卷风") {
        Some("\u{f0898}")
    } else if same_text(s, "霾")
        || same_text(s, "中度霾")
        || same_text(s, "重度霾")
        || same_text(s, "严重霾") {
        Some("\u{f0591}")
    } else if same_text(s, "阵雨") {
        Some("\u{f0593}")
    } else if same_text(s, "雷阵雨") || same_text(s, "雷阵雨并伴有冰雹") {
        Some("\u{f067e}")
    } else if same_text(s, "毛毛雨/细雨") || same_text(s, "雨") || same_text(s, "小雨") {
        Some("\u{f0592}")
    } else if same_text(s, "中雨")
        || same_text(s, "大雨")
        || same_text(s, "小雨-中雨")
        || same_text(s, "中雨-大雨")
        || same_text(s, "大雨-暴雨") {
        Some("\u{f0597}")
    } else if same_text(s, "暴雨")
        || same_text(s, "大暴雨")
        || same_text(s, "特大暴雨")
        || same_text(s, "强阵雨")
        || same_text(s, "强雷阵雨")
        || same_text(s, "极端降雨")
        || same_text(s, "暴雨-大暴雨")
        || same_text(s, "大暴雨-特大暴雨") {
        Some("\u{f0596}")
    } else if same_text(s, "雨雪天气")
        || same_text(s, "雨夹雪")
        || same_text(s, "阵雨夹雪")
        || same_text(s, "冻雨") {
        Some("\u{f067f}")
    } else if same_text(s, "阵雪") {
        Some("\u{f0f34}")
    } else if same_text(s, "雪")
        || same_text(s, "小雪")
        || same_text(s, "中雪")
        || same_text(s, "小雪-中雪") {
        Some("\u{f0598}")
    } else if same_text(s, "大雪")
        || same_text(s, "暴雪")
        || same_text(s, "中雪-大雪")
        || same_text(s, "大雪-暴雪") {
        Some("\u{f0f36}")
    } else if same_text(s, "浮尘")
        || same_text(s, "扬沙")
        || same_text(s, "沙尘暴")
        || same_text(s, "强沙尘暴") {
        Some("\u{e35d}")
    } else if same_text(s, "雾")
        || same_text(s, "浓雾")
        || same_text(s, "强浓雾")
        || same_text(s, "轻雾")
        || same_text(s, "大雾")
        || same_text(s, "特强浓雾") {
        Some("\u{f0591}")
    } else if same_text(s, "热") {
        Some("\u{f0599} ")
    } else if same_text(s, "冷") {
        Some("\u{f2dc}")
    } else {
        None
    }
}

/// The glyph for a weather condition; a condition without one is shown as it is.
pub fn weather_icon<'a>(s: &'a str) -> (r: &'a str)
    ensures
        r@ == icon_or_name(s@),
{
    match known_icon(s) {
        Some(icon) => icon,
        None => s,
    }
}

/// Class of the weather record for the bar.
pub const WEATHER_CLASS: &'static str = "wayinfo-weather-sun";

/// Glyph after the temperature: degrees Celsius.
pub const CELSIUS: &'static str = "\u{f0504}";

/// One day of the forecast, as shown.
#[derive(Clone, Debug, PartialEq, Eq)]
pub struct DayWeather {
    pub date: String,
    pub week: String,
    pub icon: String,
    pub weather: String,
    pub temp: String,
    pub wind: String,
    pub power: String,
}

impl DayWeather {
    /// The day's weather from the daytime fields of a forecast; the icon
    /// follows from the condition.
    pub fn from_forecast(
        date: String,
        week: String,
        weather: String,
        temp: String,
        wind: String,
        power: String,
    ) -> (r: DayWeather)
        ensures
            r.date@ == date@,
            r.week@ == week@,
            r.icon@ == icon_or_name(weather@),
            r.weather@ == weather@,
            r.temp@ == temp@,
            r.wind@ == wind@,
            r.power@ == power@,
    {
        let icon = weather_icon(weather.as_str()).to_owned();
        DayWeather { date, week, icon, weather, temp, wind, power }
    }
}

/// The weather record for the bar.
pub open spec fn weather_view(w: DayWeather) -> WaybarView {
    WaybarView {
        class: WEATHER_CLASS@,
        text: w.icon@ + " "@ + w.weather@ + " "@ + w.temp@ + CELSIUS@,
        alt: Some(w.wind@ + " "@ + w.power@),
        tooltip: None,
        percentage: None,
    }
}

/// The weather record for the bar: icon, condition and temperature, with wind
/// and its force as the alternative text.
pub fn weather_record(w: &DayWeather) -> (r: WaybarData)
    ensures
        r@ == weather_view(*w),
{
    let mut text = String::from_str(w.icon.as_str());
    text.append(" ");
    text.append(w.weather.as_str());
    text.append(" ");
    text.append(w.temp.as_str());
    text.append(CELSIUS);
    let mut alt = String::from_str(w.wind.as_str());
    alt.append(" ");
    alt.append(w.power.as_str());
    let r = WaybarData {
        class: WEATHER_CLASS.to_owned(),
        text,
        alt: Some(alt),
        tooltip: None,
        percentage: None,
    };
    assert(r@.text =~= weather_view(*w).text);
    assert(r@.alt == weather_view(*w).alt) by {
        assert(alt@ =~= w.wind@ + " "@ + w.power@);
    }
    r
}

/// Where the API key comes from.
#[derive(Clone, Debug, PartialEq, Eq)]
pub enum KeySource {
    /// Given on the command line.
    Given(String),
    /// To be read from this file.
    File(String),
    /// Neither given nor named.
    Missing,
}

/// A key given outright wins over a key file.
pub fn key_source(key: &Option<String>, key_file: &Option<String>) -> (r: KeySource)
    ensures
        match (*key, *key_file) {
            (Some(k), _) => r == KeySource::Given(k),
            (None, Some(f)) => r == KeySource::File(f),
            (None, None) => r == KeySource::Missing,
        },
{
    match key {
        Some(k) => KeySource::Given(k.clone()),
        None => match key_file {
            Some(f) => KeySource::File(f.clone()),
            None => KeySource::Missing,
        },
    }
}

/// An API key is usable when it is not empty.
pub fn accept_key(key: String) -> (r: Result<String, Error>)
    ensures
        key@.len() == 0 ==> r == Err::<String, Error>(Error::WeatherKeyError),
        key@.len() > 0 ==> r == Ok::<String, Error>(key),
{
    if key.as_str().is_empty() {
        Err(Error::WeatherKeyError)
    } else {
        Ok(key)
    }
}

/// The service's answer holds a forecast: its status is "1" and it has at
/// least one city with at least one day.
pub fn check_forecast(status: &str, cities: usize, days: usize) -> (r: Result<(), Error>)
    ensures
        (status@ == "1"@ && cities > 0 && days > 0) ==> r is Ok,
        !(status@ == "1"@ && cities > 0 && days > 0) ==> r == Err::<(), Error>(
            Error::WeatherFailError,
        ),
{
    if !same_text(status, "1") || cities == 0 || days == 0 {
        Err(Error::WeatherFailError)
    } else {
        Ok(())
    }
}

/// The index of the forecast for day `day` (the first day is 1) among
/// `count` days; a day past the end but one gives the last day. Day 0, and
/// the day just past the end, have no forecast.
pub fn forecast_index(day: usize, count: usize) -> (r: usize)
    requires
        count > 0,
        day >= 1,
        day != count + 1,
    ensures
        day <= count ==> r == day - 1,
        day > count ==> r == count - 1,
{
    if count >= day - 1 {
        day - 1
    } else {
        count - 1
    }
}

} // verus!
