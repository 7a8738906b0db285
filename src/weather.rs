//! The city-weather report: its records, the text of its block, and what a
//! response from the weather services comes to.
use vstd::prelude::*;
use crate::text::{
    append_lines, decimal, flat_lines, labeled, labeled_number, lemma_flat_lines_step,
    push_line, push_signed_decimal, signed_decimal, texts,
};

verus! {

/// A weather warning as the service publishes it.
pub struct Alarm {
    pub alarm_content: String,
    pub alarm_desc: String,
    pub alarm_id: String,
    pub alarm_level_no: String,
    pub alarm_level_no_desc: String,
    pub alarm_type: String,
    pub alarm_type_desc: String,
    pub precaution: String,
    pub publish_time: String,
}

/// One living or air-quality index.
pub struct AirQualityIndex {
    pub abbreviation: String,
    pub alias: String,
    pub content: String,
    pub level: String,
    pub name: String,
}

/// PM2.5 readings and rating of a city.
pub struct Pm25Metrics {
    pub advice: String,
    pub aqi: String,
    pub citycount: i32,
    pub cityrank: i32,
    pub co: String,
    pub color: String,
    pub level: String,
    pub no2: String,
    pub o3: String,
    pub pm10: String,
    pub pm25: String,
    pub quality: String,
    pub so2: String,
    pub timestamp: String,
    pub update_time: String,
}

/// The conditions observed now.
pub struct RealtimeConditions {
    pub img: String,
    pub s_d: String,
    pub sendible_temp: String,
    pub temp: String,
    pub time: String,
    pub w_d: String,
    pub w_s: String,
    pub weather: String,
    pub ziwaixian: String,
}

/// A forecast for one three-hour interval.
pub struct ThreeHourForecast {
    pub end_time: String,
    pub highest_temperature: String,
    pub img: String,
    pub is_rain_fall: String,
    pub lowerest_temperature: String,
    pub precipitation: String,
    pub start_time: String,
    pub wd: String,
    pub weather: String,
    pub ws: String,
}

/// The three-hour forecasts and when they were published.
pub struct WeatherDetailsInfo {
    pub publish_time: String,
    pub weather_3_hours_details_infos: Vec<ThreeHourForecast>,
}

/// A forecast for one day.
pub struct DailyForecast {
    pub aqi: String,
    pub date: String,
    pub img: String,
    pub sun_down_time: String,
    pub sun_rise_time: String,
    pub temp_day_c: String,
    pub temp_day_f: String,
    pub temp_night_c: String,
    pub temp_night_f: String,
    pub wd: String,
    pub weather: String,
    pub week: String,
    pub ws: String,
}

/// Everything the service reports for one city.
pub struct CityWeather {
    pub alarms: Vec<Alarm>,
    pub city: String,
    pub cityid: i32,
    pub indexes: Vec<AirQualityIndex>,
    pub pm25: Pm25Metrics,
    pub province_name: String,
    pub realtime: RealtimeConditions,
    pub weather_details_info: WeatherDetailsInfo,
    pub weathers: Vec<DailyForecast>,
}

/// A whole response of the city-weather service.
pub struct WeatherReport {
    pub code: String,
    pub message: String,
    pub redirect: String,
    pub value: Vec<CityWeather>,
}

/// Why a city-weather response gave no report.
#[derive(Clone, Copy, Debug, PartialEq, Eq, Structural)]
pub enum FetchError {
    /// The request got no response: name lookup, connection, TLS or timeout.
    Transport,
    /// A successful response whose body is not a well-formed report.
    MalformedBody,
}

/// The status and body of one HTTP response.
pub struct HttpReply {
    pub status: u16,
    pub body: String,
}

/// A status in the success class, 200 to 299.
pub open spec fn success_status(status: u16) -> bool {
    200 <= status && status <= 299
}

/// The line that reports a response outside the success class.
pub open spec fn failure_line(status: u16) -> Seq<char> {
    "Request failed: "@ + decimal(status as nat)
}

/// The block of the auxiliary service: its body verbatim on success, else its status.
pub open spec fn aux_lines(reply: HttpReply) -> Seq<Seq<char>> {
    if success_status(reply.status) {
        seq!["Request succeeded: "@ + reply.body@]
    } else {
        seq![failure_line(reply.status)]
    }
}

/// What a city-weather response comes to, given the report its body parsed to
/// (`None` where it did not): a failure line and no records outside the success
/// class, the report's block on success, and a fatal error for a body that did
/// not parse.
pub open spec fn city_outcome(status: u16, parsed: Option<WeatherReport>) -> Result<
    Seq<Seq<char>>,
    FetchError,
> {
    if !success_status(status) {
        Ok(seq![failure_line(status)])
    } else {
        match parsed {
            Some(r) => Ok(report_lines(r)),
            None => Err(FetchError::MalformedBody),
        }
    }
}

/// The line between two repeated records.
pub open spec fn separator() -> Seq<char> {
    "------------------------"@
}

pub open spec fn alarm_lines(a: Alarm) -> Seq<Seq<char>> {
    seq![
        "Alarm Content: "@ + a.alarm_content@,
        "Alarm Description: "@ + a.alarm_desc@,
        "Alarm ID: "@ + a.alarm_id@,
        "Alarm Level: "@ + a.alarm_level_no_desc@,
        "Alarm Type: "@ + a.alarm_type_desc@,
        "Precaution: "@ + a.precaution@,
        "Publish Time: "@ + a.publish_time@,
        separator(),
    ]
}

pub open spec fn index_lines(x: AirQualityIndex) -> Seq<Seq<char>> {
    seq![
        "Index Name: "@ + x.name@,
        "Index Level: "@ + x.level@,
        "Index Content: "@ + x.content@,
        separator(),
    ]
}

pub open spec fn daily_lines(w: DailyForecast) -> Seq<Seq<char>> {
    seq![
        "Weather Date: "@ + w.date@,
        "Weather: "@ + w.weather@,
        "Day Temperature: "@ + w.temp_day_c@,
        "Night Temperature: "@ + w.temp_night_c@,
        separator(),
    ]
}

/// The block of one city: alarms, identity, indexes, PM2.5, realtime, then days.
pub open spec fn city_lines(c: CityWeather) -> Seq<Seq<char>> {
    flat_lines(c.alarms@, |a: Alarm| alarm_lines(a)) + seq![
        "City: "@ + c.city@,
        "City ID: "@ + signed_decimal(c.cityid as int),
    ] + flat_lines(c.indexes@, |x: AirQualityIndex| index_lines(x)) + seq![
        "PM2.5 Quality: "@ + c.pm25.quality@,
        "PM2.5 AQI: "@ + c.pm25.aqi@,
        "Province Name: "@ + c.province_name@,
        "Realtime Weather: "@ + c.realtime.weather@,
        "Realtime Temperature: "@ + c.realtime.temp@,
        "Realtime Wind: "@ + c.realtime.w_d@ + " "@ + c.realtime.w_s@,
    ] + flat_lines(c.weathers@, |w: DailyForecast| daily_lines(w))
}

/// The block of a whole report: code, message and redirect, then each city in order.
pub open spec fn report_lines(r: WeatherReport) -> Seq<Seq<char>> {
    seq!["Code: "@ + r.code@, "Message: "@ + r.message@, "Redirect: "@ + r.redirect@]
        + flat_lines(r.value@, |c: CityWeather| city_lines(c))
}

impl Alarm {
    /// The lines of this alarm, separator included.
    pub fn report_lines(&self) -> (r: Vec<String>)
        ensures
            texts(r@) == alarm_lines(*self),
    {
        let mut lines: Vec<String> = Vec::new();
        push_line(&mut lines, labeled("Alarm Content: ", self.alarm_content.as_str()));
        push_line(&mut lines, labeled("Alarm Description: ", self.alarm_desc.as_str()));
        push_line(&mut lines, labeled("Alarm ID: ", self.alarm_id.as_str()));
        push_line(&mut lines, labeled("Alarm Level: ", self.alarm_level_no_desc.as_str()));
        push_line(&mut lines, labeled("Alarm Type: ", self.alarm_type_desc.as_str()));
        push_line(&mut lines, labeled("Precaution: ", self.precaution.as_str()));
        push_line(&mut lines, labeled("Publish Time: ", self.publish_time.as_str()));
        push_line(&mut lines, String::from_str("------------------------"));
        assert(texts(lines@) =~= alarm_lines(*self));
        lines
    }
}

impl AirQualityIndex {
    /// The lines of this index, separator included.
    pub fn report_lines(&self) -> (r: Vec<String>)
        ensures
            texts(r@) == index_lines(*self),
    {
        let mut lines: Vec<String> = Vec::new();
        push_line(&mut lines, labeled("Index Name: ", self.name.as_str()));
        push_line(&mut lines, labeled("Index Level: ", self.level.as_str()));
        push_line(&mut lines, labeled("Index Content: ", self.content.as_str()));
        push_line(&mut lines, String::from_str("------------------------"));
        assert(texts(lines@) =~= index_lines(*self));
        lines
    }
}

impl DailyForecast {
    /// The lines of this day, separator included.
    pub fn report_lines(&self) -> (r: Vec<String>)
        ensures
            texts(r@) == daily_lines(*self),
    {
        let mut lines: Vec<String> = Vec::new();
        push_line(&mut lines, labeled("Weather Date: ", self.date.as_str()));
        push_line(&mut lines, labeled("Weather: ", self.weather.as_str()));
        push_line(&mut lines, labeled("Day Temperature: ", self.temp_day_c.as_str()));
        push_line(&mut lines, labeled("Night Temperature: ", self.temp_night_c.as_str()));
        push_line(&mut lines, String::from_str("------------------------"));
        assert(texts(lines@) =~= daily_lines(*self));
        lines
    }
}

impl CityWeather {
    /// The block of this city.
    pub fn report_lines(&self) -> (r: Vec<String>)
        ensures
            texts(r@) == city_lines(*self),
    {
        let mut lines: Vec<String> = Vec::new();
        let mut i: usize = 0;
        while i < self.alarms.len()
            invariant
                i <= self.alarms@.len(),
                texts(lines@) == flat_lines(
                    self.alarms@.subrange(0, i as int),
                    |a: Alarm| alarm_lines(a),
                ),
            decreases self.alarms@.len() - i,
        {
            append_lines(&mut lines, self.alarms[i].report_lines());
            proof {
                lemma_flat_lines_step(self.alarms@, |a: Alarm| alarm_lines(a), i as int);
            }
            i = i + 1;
        }
        assert(self.alarms@.subrange(0, self.alarms@.len() as int) =~= self.alarms@);
        let ghost after_alarms = texts(lines@);
        push_line(&mut lines, labeled("City: ", self.city.as_str()));
        let mut id = String::from_str("City ID: ");
        push_signed_decimal(&mut id, self.cityid as i64);
        push_line(&mut lines, id);
        let ghost before_indexes = texts(lines@);
        let mut j: usize = 0;
        while j < self.indexes.len()
            invariant
                j <= self.indexes@.len(),
                texts(lines@) == before_indexes + flat_lines(
                    self.indexes@.subrange(0, j as int),
                    |x: AirQualityIndex| index_lines(x),
                ),
            decreases self.indexes@.len() - j,
        {
            append_lines(&mut lines, self.indexes[j].report_lines());
            proof {
                lemma_flat_lines_step(self.indexes@, |x: AirQualityIndex| index_lines(x), j as int);
            }
            j = j + 1;
        }
        assert(self.indexes@.subrange(0, self.indexes@.len() as int) =~= self.indexes@);
        let ghost after_indexes = texts(lines@);
        push_line(&mut lines, labeled("PM2.5 Quality: ", self.pm25.quality.as_str()));
        push_line(&mut lines, labeled("PM2.5 AQI: ", self.pm25.aqi.as_str()));
        push_line(&mut lines, labeled("Province Name: ", self.province_name.as_str()));
        push_line(&mut lines, labeled("Realtime Weather: ", self.realtime.weather.as_str()));
        push_line(&mut lines, labeled("Realtime Temperature: ", self.realtime.temp.as_str()));
        let mut wind = labeled("Realtime Wind: ", self.realtime.w_d.as_str());
        wind.append(" ");
        wind.append(self.realtime.w_s.as_str());
        push_line(&mut lines, wind);
        let ghost before_days = texts(lines@);
        let mut k: usize = 0;
        while k < self.weathers.len()
            invariant
                k <= self.weathers@.len(),
                texts(lines@) == before_days + flat_lines(
                    self.weathers@.subrange(0, k as int),
                    |w: DailyForecast| daily_lines(w),
                ),
            decreases self.weathers@.len() - k,
        {
            append_lines(&mut lines, self.weathers[k].report_lines());
            proof {
                lemma_flat_lines_step(self.weathers@, |w: DailyForecast| daily_lines(w), k as int);
            }
            k = k + 1;
        }
        assert(self.weathers@.subrange(0, self.weathers@.len() as int) =~= self.weathers@);
        assert(texts(lines@) =~= city_lines(*self));
        lines
    }
}

impl WeatherReport {
    /// The block of this report.
    pub fn report_lines(&self) -> (r: Vec<String>)
        ensures
            texts(r@) == report_lines(*self),
    {
        let mut lines: Vec<String> = Vec::new();
        push_line(&mut lines, labeled("Code: ", self.code.as_str()));
        push_line(&mut lines, labeled("Message: ", self.message.as_str()));
        push_line(&mut lines, labeled("Redirect: ", self.redirect.as_str()));
        let ghost head = texts(lines@);
        let mut i: usize = 0;
        while i < self.value.len()
            invariant
                i <= self.value@.len(),
                texts(lines@) == head + flat_lines(
                    self.value@.subrange(0, i as int),
                    |c: CityWeather| city_lines(c),
                ),
            decreases self.value@.len() - i,
        {
            append_lines(&mut lines, self.value[i].report_lines());
            proof {
                lemma_flat_lines_step(self.value@, |c: CityWeather| city_lines(c), i as int);
            }
            i = i + 1;
        }
        assert(self.value@.subrange(0, self.value@.len() as int) =~= self.value@);
        assert(texts(lines@) =~= report_lines(*self));
        lines
    }
}

/// Whether `status` is in the success class.
pub fn is_success(status: u16) -> (r: bool)
    ensures
        r == success_status(status),
{
    200 <= status && status <= 299
}

/// The block of the auxiliary service for one response.
pub fn aux_weather_lines(reply: &HttpReply) -> (r: Vec<String>)
    ensures
        texts(r@) == aux_lines(*reply),
{
    let mut lines: Vec<String> = Vec::new();
    if is_success(reply.status) {
        push_line(&mut lines, labeled("Request succeeded: ", reply.body.as_str()));
        assert(texts(lines@) =~= aux_lines(*reply));
    } else {
        proof {
            reveal_strlit("");
        }
        push_line(&mut lines, labeled_number("Request failed: ", reply.status as u64, ""));
        assert(texts(lines@) =~= aux_lines(*reply));
    }
    lines
}

/// The block of the city-weather service for a response with `status`, given
/// the report its body parsed to, or `None` where it did not parse.
pub fn city_weather_lines(status: u16, parsed: &Option<WeatherReport>) -> (r: Result<
    Vec<String>,
    FetchError,
>)
    ensures
        match (r, city_outcome(status, *parsed)) {
            (Ok(lines), Ok(expected)) => texts(lines@) == expected,
            (Err(e), Err(expected)) => e == expected,
            _ => false,
        },
{
    if !is_success(status) {
        proof {
            reveal_strlit("");
        }
        let mut lines: Vec<String> = Vec::new();
        push_line(&mut lines, labeled_number("Request failed: ", status as u64, ""));
        assert(texts(lines@) =~= seq![failure_line(status)]);
        Ok(lines)
    } else {
        match parsed {
            Some(report) => Ok(report.report_lines()),
            None => Err(FetchError::MalformedBody),
        }
    }
}

} // verus!
