use sys_report::gpu::{GpuError, GpuSnapshot};
use sys_report::host::HostSnapshot;
use sys_report::report::full_report;
use sys_report::weather::{
    aux_weather_lines, city_weather_lines, is_success, Alarm, AirQualityIndex, CityWeather,
    DailyForecast, FetchError, HttpReply, Pm25Metrics, RealtimeConditions, WeatherDetailsInfo,
    WeatherReport,
};

fn s(t: &str) -> String {
    t.to_string()
}

fn pm25(quality: &str, aqi: &str) -> Pm25Metrics {
    Pm25Metrics {
        advice: s("0"),
        aqi: s(aqi),
        citycount: 1,
        cityrank: 1,
        co: s("0"),
        color: s("0"),
        level: s("0"),
        no2: s("0"),
        o3: s("0"),
        pm10: s("0"),
        pm25: s("0"),
        quality: s(quality),
        so2: s("0"),
        timestamp: s(""),
        update_time: s(""),
    }
}

fn realtime() -> RealtimeConditions {
    RealtimeConditions {
        img: s("1"),
        s_d: s("40"),
        sendible_temp: s("20"),
        temp: s("21"),
        time: s("2024-01-01 12:00:00"),
        w_d: s("North"),
        w_s: s("Level 2"),
        weather: s("Cloudy"),
        ziwaixian: s("N/A"),
    }
}

fn city(name: &str, id: i32) -> CityWeather {
    CityWeather {
        alarms: Vec::new(),
        city: s(name),
        cityid: id,
        indexes: Vec::new(),
        pm25: pm25("Good", "42"),
        province_name: s("Beijing"),
        realtime: realtime(),
        weather_details_info: WeatherDetailsInfo {
            publish_time: s(""),
            weather_3_hours_details_infos: Vec::new(),
        },
        weathers: Vec::new(),
    }
}

fn beijing_report() -> WeatherReport {
    WeatherReport { code: s("0"), message: s(""), redirect: s(""), value: vec![city("Beijing", 101010100)] }
}

fn host() -> HostSnapshot {
    HostSnapshot {
        total_memory: 0,
        used_memory: 0,
        total_swap: 0,
        used_swap: 0,
        system_name: None,
        kernel_version: None,
        os_version: None,
        host_name: None,
        uptime: 0,
        disks: Vec::new(),
        average_cpu_usage: 0,
    }
}

#[test]
fn city_report_scenario() {
    let lines = city_weather_lines(200, &Some(beijing_report())).unwrap();
    assert_eq!(
        lines,
        vec![
            "Code: 0",
            "Message: ",
            "Redirect: ",
            "City: Beijing",
            "City ID: 101010100",
            "PM2.5 Quality: Good",
            "PM2.5 AQI: 42",
            "Province Name: Beijing",
            "Realtime Weather: Cloudy",
            "Realtime Temperature: 21",
            "Realtime Wind: North Level 2",
        ]
    );
    assert!(!lines.iter().any(|l| l.starts_with("Alarm") || l.starts_with("Index")));
}

#[test]
fn city_records_in_order() {
    let mut c = city("Wuhan", -7);
    c.alarms.push(Alarm {
        alarm_content: s("Storm coming"),
        alarm_desc: s("Storm"),
        alarm_id: s("A1"),
        alarm_level_no: s("02"),
        alarm_level_no_desc: s("Orange"),
        alarm_type: s("01"),
        alarm_type_desc: s("Rainstorm"),
        precaution: s("Stay inside"),
        publish_time: s("2024-01-01 08:00:00"),
    });
    c.indexes.push(AirQualityIndex {
        abbreviation: s("ct"),
        alias: s(""),
        content: s("Wear a coat"),
        level: s("Cold"),
        name: s("Clothing"),
    });
    c.weathers.push(DailyForecast {
        aqi: s("50"),
        date: s("2024-01-02"),
        img: s("2"),
        sun_down_time: s("17:30"),
        sun_rise_time: s("07:30"),
        temp_day_c: s("10"),
        temp_day_f: s("50"),
        temp_night_c: s("2"),
        temp_night_f: s("35.6"),
        wd: s("West"),
        weather: s("Rain"),
        week: s("Tuesday"),
        ws: s("Level 3"),
    });
    let lines = c.report_lines();
    let sep = "------------------------";
    assert_eq!(
        lines,
        vec![
            "Alarm Content: Storm coming",
            "Alarm Description: Storm",
            "Alarm ID: A1",
            "Alarm Level: Orange",
            "Alarm Type: Rainstorm",
            "Precaution: Stay inside",
            "Publish Time: 2024-01-01 08:00:00",
            sep,
            "City: Wuhan",
            "City ID: -7",
            "Index Name: Clothing",
            "Index Level: Cold",
            "Index Content: Wear a coat",
            sep,
            "PM2.5 Quality: Good",
            "PM2.5 AQI: 42",
            "Province Name: Beijing",
            "Realtime Weather: Cloudy",
            "Realtime Temperature: 21",
            "Realtime Wind: North Level 2",
            "Weather Date: 2024-01-02",
            "Weather: Rain",
            "Day Temperature: 10",
            "Night Temperature: 2",
            sep,
        ]
    );
}

#[test]
fn failed_status_prints_no_records() {
    let lines = city_weather_lines(503, &Some(beijing_report())).unwrap();
    assert_eq!(lines, vec!["Request failed: 503".to_string()]);
    let lines = city_weather_lines(404, &None).unwrap();
    assert_eq!(lines, vec!["Request failed: 404".to_string()]);
}

#[test]
fn malformed_body_is_fatal() {
    assert_eq!(city_weather_lines(200, &None), Err(FetchError::MalformedBody));
}

#[test]
fn success_class() {
    assert!(is_success(200));
    assert!(is_success(299));
    assert!(!is_success(199));
    assert!(!is_success(300));
    assert!(!is_success(404));
}

#[test]
fn aux_body_verbatim() {
    let ok = aux_weather_lines(&HttpReply { status: 200, body: s("{\"weather\":\"sunny\"}") });
    assert_eq!(ok, vec!["Request succeeded: {\"weather\":\"sunny\"}".to_string()]);
    let failed = aux_weather_lines(&HttpReply { status: 500, body: s("oops") });
    assert_eq!(failed, vec!["Request failed: 500".to_string()]);
}

#[test]
fn gpu_failure_does_not_stop_the_run() {
    let gpu: Result<GpuSnapshot, GpuError> = Err(GpuError::InitFailed);
    let aux = Ok(HttpReply { status: 200, body: s("aux") });
    let city_reply = Ok(HttpReply { status: 200, body: s("{}") });
    let (lines, fatal) = full_report(&gpu, &host(), &aux, &city_reply, &Some(beijing_report()));
    assert_eq!(fatal, None);
    assert_eq!(lines[0], "Error: GPU management library could not be initialized");
    assert_eq!(lines[1], "=> system:");
    assert!(lines.contains(&"Request succeeded: aux".to_string()));
    assert!(lines.contains(&"City: Beijing".to_string()));
}

#[test]
fn transport_failure_ends_the_run() {
    let gpu: Result<GpuSnapshot, GpuError> = Err(GpuError::InitFailed);
    let city_reply = Ok(HttpReply { status: 200, body: s("{}") });
    let (lines, fatal) =
        full_report(&gpu, &host(), &Err(FetchError::Transport), &city_reply, &Some(beijing_report()));
    assert_eq!(fatal, Some(FetchError::Transport));
    assert_eq!(lines.len(), 1 + 12);
    let aux = Ok(HttpReply { status: 200, body: s("aux") });
    let (lines, fatal) = full_report(&gpu, &host(), &aux, &Ok(HttpReply { status: 200, body: s("{") }), &None);
    assert_eq!(fatal, Some(FetchError::MalformedBody));
    assert_eq!(lines.last().unwrap(), "Request succeeded: aux");
}
