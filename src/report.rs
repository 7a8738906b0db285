//! The whole report of one run, block by block, and what makes a run fatal.
use vstd::prelude::*;
use crate::gpu::{error_line, gpu_lines, gpu_report, gpu_report_lines, GpuError, GpuSnapshot};
use crate::host::{host_lines, HostSnapshot};
use crate::text::{append_lines, texts};
use crate::weather::{
    aux_lines, aux_weather_lines, city_outcome, city_weather_lines, failure_line,
    success_status, FetchError, HttpReply, WeatherReport,
};

verus! {

/// The lines after the GPU block, and the fatal error that ended the run, if any.
/// The city request is looked at only where the auxiliary one got a response.
pub open spec fn after_gpu(
    host: HostSnapshot,
    aux: Result<HttpReply, FetchError>,
    city: Result<HttpReply, FetchError>,
    parsed: Option<WeatherReport>,
) -> (Seq<Seq<char>>, Option<FetchError>) {
    match aux {
        Err(e) => (host_lines(host), Some(e)),
        Ok(a) => {
            let head = host_lines(host) + aux_lines(a);
            match city {
                Err(e) => (head, Some(e)),
                Ok(c) => match city_outcome(c.status, parsed) {
                    Ok(l) => (head + l, None),
                    Err(e) => (head, Some(e)),
                },
            }
        },
    }
}

/// The lines of a whole run, and the fatal error that ended it, if any.
pub open spec fn run_report(
    gpu: Result<GpuSnapshot, GpuError>,
    host: HostSnapshot,
    aux: Result<HttpReply, FetchError>,
    city: Result<HttpReply, FetchError>,
    parsed: Option<WeatherReport>,
) -> (Seq<Seq<char>>, Option<FetchError>) {
    let rest = after_gpu(host, aux, city, parsed);
    (gpu_report_lines(gpu) + rest.0, rest.1)
}

/// The whole report of a run from what each source gave: the GPU block, the
/// system and disk blocks, the auxiliary weather block, then the city weather
/// block; with the fatal error that cut it short, if any.
pub fn full_report(
    gpu: &Result<GpuSnapshot, GpuError>,
    host: &HostSnapshot,
    aux: &Result<HttpReply, FetchError>,
    city: &Result<HttpReply, FetchError>,
    parsed: &Option<WeatherReport>,
) -> (r: (Vec<String>, Option<FetchError>))
    ensures
        texts(r.0@) == run_report(*gpu, *host, *aux, *city, *parsed).0,
        r.1 == run_report(*gpu, *host, *aux, *city, *parsed).1,
{
    let mut lines = gpu_report(gpu);
    append_lines(&mut lines, host.report_lines());
    match aux {
        Err(e) => {
            return (lines, Some(*e));
        },
        Ok(a) => {
            append_lines(&mut lines, aux_weather_lines(a));
        },
    }
    assert(texts(lines@) =~= gpu_report_lines(*gpu) + (host_lines(*host) + aux_lines(
        aux.unwrap(),
    )));
    match city {
        Err(e) => (lines, Some(*e)),
        Ok(c) => match city_weather_lines(c.status, parsed) {
            Ok(more) => {
                append_lines(&mut lines, more);
                assert(texts(lines@) =~= run_report(*gpu, *host, *aux, *city, *parsed).0);
                (lines, None)
            },
            Err(e) => (lines, Some(e)),
        },
    }
}

/// A failed GPU read changes only the GPU block: what follows it, and whether
/// the run ends in a fatal error, are those of a run whose GPU read succeeded.
pub proof fn gpu_failure_keeps_later_blocks(
    e: GpuError,
    g: GpuSnapshot,
    host: HostSnapshot,
    aux: Result<HttpReply, FetchError>,
    city: Result<HttpReply, FetchError>,
    parsed: Option<WeatherReport>,
)
    ensures
        run_report(Err(e), host, aux, city, parsed).0 == seq![error_line(e)] + after_gpu(
            host,
            aux,
            city,
            parsed,
        ).0,
        run_report(Ok(g), host, aux, city, parsed).0 == gpu_lines(g) + after_gpu(
            host,
            aux,
            city,
            parsed,
        ).0,
        run_report(Err(e), host, aux, city, parsed).1 == run_report(
            Ok(g),
            host,
            aux,
            city,
            parsed,
        ).1,
{
}

/// A city-weather response outside the success class gives one status line, no
/// records and no error, whatever its body holds.
pub proof fn failed_status_gives_no_records(status: u16, parsed: Option<WeatherReport>)
    requires
        !success_status(status),
    ensures
        city_outcome(status, parsed) == Ok::<Seq<Seq<char>>, FetchError>(
            seq![failure_line(status)],
        ),
{
}

/// A successful city-weather response whose body does not parse is fatal: it
/// never comes out as a report, empty or not.
pub proof fn malformed_body_is_fatal(status: u16)
    requires
        success_status(status),
    ensures
        city_outcome(status, None) == Err::<Seq<Seq<char>>, FetchError>(
            FetchError::MalformedBody,
        ),
{
}

} // verus!
