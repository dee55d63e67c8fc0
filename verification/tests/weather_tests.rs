use caldash::weather::{generate_weather_text, get_weather_from_code, Weather};

fn sample_weather() -> Weather {
    Weather::new(
        "11".to_string(),
        "9".to_string(),
        "4".to_string(),
        "71".to_string(),
        "1015".to_string(),
        "10".to_string(),
        "250".to_string(),
        "WSW".to_string(),
        "15".to_string(),
        "2024-03-10 09:00 AM".to_string(),
        "cloudy".to_string(),
    )
}

#[test]
fn getters_return_the_constructed_fields() {
    let w = sample_weather();
    assert_eq!(w.temp_c(), "11");
    assert_eq!(w.feels_like_c(), "9");
    assert_eq!(w.uv_index(), "4");
    assert_eq!(w.humidity(), "71");
    assert_eq!(w.pressure(), "1015");
    assert_eq!(w.visibility(), "10");
    assert_eq!(w.winddir_degree(), "250");
    assert_eq!(w.winddir_point(), "WSW");
    assert_eq!(w.wind_speed(), "15");
    assert_eq!(w.local_obs_date_time(), "2024-03-10 09:00 AM");
    assert_eq!(w.weather_description(), "cloudy");
}

#[test]
fn weather_codes_map_to_condition_names() {
    assert_eq!(get_weather_from_code("113".to_string()), "clearsky");
    assert_eq!(get_weather_from_code("116".to_string()), "fair");
    assert_eq!(get_weather_from_code("302".to_string()), "heavyrain");
    // A code shared by several conditions keeps the first name of the table.
    assert_eq!(
        get_weather_from_code("392".to_string()),
        "heavysnowandthunder"
    );
    assert_eq!(
        get_weather_from_code("386".to_string()),
        "heavyrainshowersandthunder"
    );
}

#[test]
fn weather_code_strings_are_trimmed_before_reading() {
    assert_eq!(
        get_weather_from_code(" 119 \n".to_string()),
        "cloudy"
    );
}

#[test]
fn unknown_or_unreadable_codes_fall_back() {
    assert_eq!(
        get_weather_from_code("999".to_string()),
        "unknown conditions!"
    );
    assert_eq!(
        get_weather_from_code("abc".to_string()),
        "unknown conditions!"
    );
    assert_eq!(
        get_weather_from_code("".to_string()),
        "unknown conditions!"
    );
}

#[test]
fn weather_text_renders_each_record() {
    let text = generate_weather_text(&vec![sample_weather()]);
    let expected = "Temperature:    11 \u{00B0}C\n\
                    Feels:           9 \u{00B0}C\n\
                    Condition:      cloudy \n\
                    uvIndex:        4 \n\
                    Pressure:       1015 hPa\n\
                    Humidity:       71 %\n\
                    Visibility:     10 km\n\
                    Wind dir:       250\u{00B0} WSW \n\
                    Wind speed:     15 kmph\n\
                    Observed:       2024-03-10 09:00 AM \n";
    assert_eq!(text, expected);
}

#[test]
fn weather_text_of_no_records_is_empty() {
    assert_eq!(generate_weather_text(&Vec::new()), "");
}
