//! The weather panel: the current-condition record as plain strings, the
//! mapping from a numeric weather code to its condition name, and the
//! fixed-width report text. The HTTP fetch that fills the record is an
//! external collaborator; it hands this module the field values and the
//! code string it received.

use vstd::prelude::*;
use vstd::string::*;

use crate::parse::{parse_u32, spec_parse_u32, spec_trim, trim};
use crate::render::{pad_left, spec_pad_left};

verus! {

#[derive(Debug)]
pub struct Temperature {
    pub temp_c: String,
    pub feels_like_c: String,
}

#[derive(Debug)]
pub struct WeatherConditions {
    pub uv_index: String,
    pub humidity: String,
    pub pressure: String,
    pub visibility: String,
}

#[derive(Debug)]
pub struct Wind {
    pub winddir_degree: String,
    pub winddir_point: String,
    pub wind_speed: String,
}

/// One current-condition record, every field the plain string the weather
/// service reported.
#[derive(Debug)]
pub struct Weather {
    pub temp: Temperature,
    pub conditions: WeatherConditions,
    pub wind: Wind,
    pub local_obs_date_time: String,
    pub weather_description: String,
}

impl Weather {
    pub fn new(
        temp_c: String,
        feels_like_c: String,
        uv_index: String,
        humidity: String,
        pressure: String,
        visibility: String,
        winddir_degree: String,
        winddir_point: String,
        wind_speed: String,
        local_obs_date_time: String,
        weather_description: String,
    ) -> (r: Weather)
        ensures
            r.temp.temp_c == temp_c,
            r.temp.feels_like_c == feels_like_c,
            r.conditions.uv_index == uv_index,
            r.conditions.humidity == humidity,
            r.conditions.pressure == pressure,
            r.conditions.visibility == visibility,
            r.wind.winddir_degree == winddir_degree,
            r.wind.winddir_point == winddir_point,
            r.wind.wind_speed == wind_speed,
            r.local_obs_date_time == local_obs_date_time,
            r.weather_description == weather_description,
    {
        let temp = Temperature { temp_c, feels_like_c };
        let conditions = WeatherConditions { uv_index, humidity, pressure, visibility };
        let wind = Wind { winddir_degree, winddir_point, wind_speed };
        Weather { temp, conditions, wind, local_obs_date_time, weather_description }
    }

    pub fn temp_c(&self) -> (r: &str)
        ensures
            r@ == self.temp.temp_c@,
    {
        self.temp.temp_c.as_str()
    }

    pub fn feels_like_c(&self) -> (r: &str)
        ensures
            r@ == self.temp.feels_like_c@,
    {
        self.temp.feels_like_c.as_str()
    }

    pub fn uv_index(&self) -> (r: &str)
        ensures
            r@ == self.conditions.uv_index@,
    {
        self.conditions.uv_index.as_str()
    }

    pub fn humidity(&self) -> (r: &str)
        ensures
            r@ == self.conditions.humidity@,
    {
        self.conditions.humidity.as_str()
    }

    pub fn pressure(&self) -> (r: &str)
        ensures
            r@ == self.conditions.pressure@,
    {
        self.conditions.pressure.as_str()
    }

    pub fn visibility(&self) -> (r: &str)
        ensures
            r@ == self.conditions.visibility@,
    {
        self.conditions.visibility.as_str()
    }

    pub fn winddir_degree(&self) -> (r: &str)
        ensures
            r@ == self.wind.winddir_degree@,
    {
        self.wind.winddir_degree.as_str()
    }

    pub fn wind_speed(&self) -> (r: &str)
        ensures
            r@ == self.wind.wind_speed@,
    {
        self.wind.wind_speed.as_str()
    }

    pub fn winddir_point(&self) -> (r: &str)
        ensures
            r@ == self.wind.winddir_point@,
    {
        self.wind.winddir_point.as_str()
    }

    pub fn local_obs_date_time(&self) -> (r: &str)
        ensures
            r@ == self.local_obs_date_time@,
    {
        self.local_obs_date_time.as_str()
    }

    pub fn weather_description(&self) -> (r: &str)
        ensures
            r@ == self.weather_description@,
    {
        self.weather_description.as_str()
    }
}

/// Condition name of a numeric weather code, as the weather service's code
/// table names them; codes shared by several conditions keep the first
/// name of the table.
pub open spec fn spec_weather_code_name(code: int) -> Seq<char> {
    if code == 113 {
        "clearsky"@
    } else if code == 116 {
        "fair"@
    } else if code == 119 {
        "cloudy"@
    } else if code == 143 {
        "fog"@
    } else if code == 176 {
        "lightrainshowers"@
    } else if code == 185 {
        "sleet"@
    } else if code == 200 {
        "lightrainandthunder"@
    } else if code == 230 {
        "heavysnow"@
    } else if code == 263 {
        "sleetshowers"@
    } else if code == 266 {
        "lightrain"@
    } else if code == 281 {
        "lightsleet"@
    } else if code == 284 {
        "lightsleetshowers"@
    } else if code == 293 {
        "rain"@
    } else if code == 299 {
        "rainshowers"@
    } else if code == 302 {
        "heavyrain"@
    } else if code == 305 {
        "heavyrainshowers"@
    } else if code == 314 {
        "heavysleet"@
    } else if code == 320 {
        "lightsnow"@
    } else if code == 329 {
        "snow"@
    } else if code == 362 {
        "heavysleetshowers"@
    } else if code == 365 {
        "lightssleetshowersandthunder"@
    } else if code == 368 {
        "lightsnowshowers"@
    } else if code == 371 {
        "heavysnowshowers"@
    } else if code == 374 {
        "heavysleetshowersandthunder"@
    } else if code == 377 {
        "heavysleetandthunder"@
    } else if code == 386 {
        "heavyrainshowersandthunder"@
    } else if code == 389 {
        "heavyrainandthunder"@
    } else if code == 392 {
        "heavysnowandthunder"@
    } else {
        "unknown conditions!"@
    }
}

/// What the code lookup returns for a raw code string: the string is
/// trimmed and read as a number; an unreadable string or an unlisted code
/// gives the unknown-conditions text.
pub open spec fn spec_weather_from_code(s: Seq<char>) -> Seq<char> {
    match spec_parse_u32(spec_trim(s)) {
        Some(code) => spec_weather_code_name(code as int),
        None => "unknown conditions!"@,
    }
}

/// Maps the weather service's numeric code string to its condition name.
pub fn get_weather_from_code(code_string: String) -> (r: String)
    ensures
        r@ == spec_weather_from_code(code_string@),
{
    let trimmed = trim(code_string.as_str());
    let parsed = parse_u32(trimmed.as_str());
    let name: &str = match parsed {
        None => "unknown conditions!",
        Some(code) => match code {
            113 => "clearsky",
            116 => "fair",
            119 => "cloudy",
            143 => "fog",
            176 => "lightrainshowers",
            185 => "sleet",
            200 => "lightrainandthunder",
            230 => "heavysnow",
            263 => "sleetshowers",
            266 => "lightrain",
            281 => "lightsleet",
            284 => "lightsleetshowers",
            293 => "rain",
            299 => "rainshowers",
            302 => "heavyrain",
            305 => "heavyrainshowers",
            314 => "heavysleet",
            320 => "lightsnow",
            329 => "snow",
            362 => "heavysleetshowers",
            365 => "lightssleetshowersandthunder",
            368 => "lightsnowshowers",
            371 => "heavysnowshowers",
            374 => "heavysleetshowersandthunder",
            377 => "heavysleetandthunder",
            386 => "heavyrainshowersandthunder",
            389 => "heavyrainandthunder",
            392 => "heavysnowandthunder",
            _ => "unknown conditions!",
        },
    };
    String::from_str(name)
}

/// One record of the report: ten labelled lines, each value right-aligned
/// to its column.
pub open spec fn spec_weather_entry(w: Weather) -> Seq<char> {
    "Temperature:    "@ + spec_pad_left(w.temp.temp_c@, 2) + " \u{00B0}C\n"@ + "Feels:          "@
        + spec_pad_left(w.temp.feels_like_c@, 2) + " \u{00B0}C\n"@ + "Condition:      "@
        + spec_pad_left(w.weather_description@, 2) + " \n"@ + "uvIndex:        "@ + spec_pad_left(
        w.conditions.uv_index@,
        1,
    ) + " \n"@ + "Pressure:       "@ + spec_pad_left(w.conditions.pressure@, 2) + " hPa\n"@
        + "Humidity:       "@ + spec_pad_left(w.conditions.humidity@, 2) + " %\n"@
        + "Visibility:     "@ + spec_pad_left(w.conditions.visibility@, 2) + " km\n"@
        + "Wind dir:       "@ + spec_pad_left(w.wind.winddir_degree@, 2) + "\u{00B0} "@
        + spec_pad_left(w.wind.winddir_point@, 2) + " \n"@ + "Wind speed:     "@ + spec_pad_left(
        w.wind.wind_speed@,
        2,
    ) + " kmph\n"@ + "Observed:       "@ + spec_pad_left(w.local_obs_date_time@, 2) + " \n"@
}

/// The report text of a list of records, in order.
pub open spec fn spec_weather_text(list: Seq<Weather>) -> Seq<char>
    decreases list.len(),
{
    if list.len() == 0 {
        Seq::empty()
    } else {
        spec_weather_text(list.drop_last()) + spec_weather_entry(list.last())
    }
}

/// One record's ten lines; see `spec_weather_entry`.
#[verifier::rlimit(60)]
fn weather_entry_string(wtr: &Weather) -> (r: String)
    ensures
        r@ == spec_weather_entry(*wtr),
{
    let mut out = String::new();
    {
        out.append("Temperature:    ");
        let p = pad_left(wtr.temp.temp_c.as_str(), 2);
        out.append(p.as_str());
        out.append(" \u{00B0}C\n");
        out.append("Feels:          ");
        let p = pad_left(wtr.temp.feels_like_c.as_str(), 2);
        out.append(p.as_str());
        out.append(" \u{00B0}C\n");
        out.append("Condition:      ");
        let p = pad_left(wtr.weather_description.as_str(), 2);
        out.append(p.as_str());
        out.append(" \n");
        out.append("uvIndex:        ");
        let p = pad_left(wtr.conditions.uv_index.as_str(), 1);
        out.append(p.as_str());
        out.append(" \n");
        out.append("Pressure:       ");
        let p = pad_left(wtr.conditions.pressure.as_str(), 2);
        out.append(p.as_str());
        out.append(" hPa\n");
        out.append("Humidity:       ");
        let p = pad_left(wtr.conditions.humidity.as_str(), 2);
        out.append(p.as_str());
        out.append(" %\n");
        out.append("Visibility:     ");
        let p = pad_left(wtr.conditions.visibility.as_str(), 2);
        out.append(p.as_str());
        out.append(" km\n");
        out.append("Wind dir:       ");
        let p = pad_left(wtr.wind.winddir_degree.as_str(), 2);
        out.append(p.as_str());
        out.append("\u{00B0} ");
        let p = pad_left(wtr.wind.winddir_point.as_str(), 2);
        out.append(p.as_str());
        out.append(" \n");
        out.append("Wind speed:     ");
        let p = pad_left(wtr.wind.wind_speed.as_str(), 2);
        out.append(p.as_str());
        out.append(" kmph\n");
        out.append("Observed:       ");
        let p = pad_left(wtr.local_obs_date_time.as_str(), 2);
        out.append(p.as_str());
        out.append(" \n");
    }
    proof {
        assert(out@ =~= spec_weather_entry(*wtr));
    }
    out
}

/// The weather panel text for the fetched current-condition records. The
/// collaborator that fetched them passes the list in; an empty fetch gives
/// an empty panel.
#[verifier::loop_isolation(false)]
pub fn generate_weather_text(current_weather: &Vec<Weather>) -> (r: String)
    ensures
        r@ == spec_weather_text(current_weather@),
{
    let mut out = String::new();
    let mut i: usize = 0;
    while i < current_weather.len()
        invariant
            i <= current_weather@.len(),
            out@ == spec_weather_text(current_weather@.take(i as int)),
        decreases current_weather@.len() - i,
    {
        let entry = weather_entry_string(&current_weather[i]);
        out.append(entry.as_str());
        proof {
            assert(current_weather@.take(i + 1).drop_last() =~= current_weather@.take(i as int));
            assert(current_weather@.take(i + 1).last() == current_weather@[i as int]);
            assert(out@ =~= spec_weather_text(current_weather@.take(i + 1)));
        }
        i = i + 1;
    }
    proof {
        assert(current_weather@.take(current_weather@.len() as int) =~= current_weather@);
    }
    out
}

} // verus!
