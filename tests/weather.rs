use wayinfo::error::Error;
use wayinfo::weather::{
    accept_key, check_forecast, forecast_index, key_source, weather_icon, weather_record,
    DayWeather, KeySource,
};

#[test]
fn icons_of_conditions() {
    assert_eq!(weather_icon("晴"), "\u{f0599}");
    assert_eq!(weather_icon("大风"), "\u{f059d}");
    assert_eq!(weather_icon("中雪-大雪"), "\u{f0f36}");
    assert_eq!(weather_icon("浮尘"), "\u{e35d}");
    assert_eq!(weather_icon("热"), "\u{f0599} ");
    assert_eq!(weather_icon("冷"), "\u{f2dc}");
}

#[test]
fn unknown_condition_is_shown_as_is() {
    assert_eq!(weather_icon("未知"), "未知");
    assert_eq!(weather_icon(""), "");
}

#[test]
fn record_for_the_bar() {
    let day = DayWeather::from_forecast(
        "2024-05-01".to_string(),
        "3".to_string(),
        "多云".to_string(),
        "25".to_string(),
        "东南".to_string(),
        "1-3".to_string(),
    );
    assert_eq!(day.icon, "\u{f0f2f}");
    let r = weather_record(&day);
    assert_eq!(r.class, "wayinfo-weather-sun");
    assert_eq!(r.text, "\u{f0f2f} 多云 25\u{f0504}");
    assert_eq!(r.alt, Some("东南 1-3".to_string()));
    assert_eq!(r.tooltip, None);
    assert_eq!(r.percentage, None);
}

#[test]
fn key_choice() {
    let k = Some("abc".to_string());
    let f = Some("/tmp/key".to_string());
    assert_eq!(key_source(&k, &f), KeySource::Given("abc".to_string()));
    assert_eq!(key_source(&None, &f), KeySource::File("/tmp/key".to_string()));
    assert_eq!(key_source(&None, &None), KeySource::Missing);
    assert_eq!(accept_key("abc".to_string()), Ok("abc".to_string()));
    assert_eq!(accept_key(String::new()), Err(Error::WeatherKeyError));
}

#[test]
fn forecast_checks() {
    assert_eq!(check_forecast("1", 1, 4), Ok(()));
    assert_eq!(check_forecast("0", 1, 4), Err(Error::WeatherFailError));
    assert_eq!(check_forecast("1", 0, 4), Err(Error::WeatherFailError));
    assert_eq!(check_forecast("1", 1, 0), Err(Error::WeatherFailError));
}

#[test]
fn forecast_day_choice() {
    assert_eq!(forecast_index(1, 4), 0);
    assert_eq!(forecast_index(4, 4), 3);
    assert_eq!(forecast_index(6, 4), 3);
    assert_eq!(forecast_index(1, 1), 0);
}

#[test]
fn error_messages() {
    assert_eq!(Error::WeatherKeyError.message(), "Weather need key of api.");
    assert_eq!(Error::WeatherFailError.message(), "Weather get fail.");
    let e = Error::WeatherResponseError { code: "404 Not Found".to_string() };
    assert_eq!(e.message(), "Weather Request failed:404 Not Found");
    assert_eq!(Error::DBus { msg: "no bus".to_string() }.message(), "no bus");
}
