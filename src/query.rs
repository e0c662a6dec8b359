//! Storage queries and their construction from request parameters.
use vstd::prelude::*;
use vstd::string::StringExecFns;
use crate::api::ErrorResponse;
use crate::clock::{now_millis, parse_rfc3339_millis, rfc3339_millis};
use crate::types::{ModelId, ServiceId};

verus! {

pub const MILLIS_PER_MINUTE: i64 = 60_000;
pub const MILLIS_PER_HOUR: i64 = 3_600_000;
pub const MILLIS_PER_DAY: i64 = 86_400_000;

/// Largest span chrono can represent, in milliseconds.
pub const MAX_SPAN_MILLIS: i64 = 9_223_372_036_854_775_807;

/// `x` clamped into the range of `i64`.
pub open spec fn clamp_i64(x: int) -> int {
    if x < i64::MIN {
        i64::MIN as int
    } else if x > i64::MAX {
        i64::MAX as int
    } else {
        x
    }
}

/// Whole seconds in `ms` milliseconds, rounded toward zero.
pub open spec fn whole_seconds(ms: int) -> int {
    if ms >= 0 {
        ms / 1000
    } else {
        -((-ms) / 1000)
    }
}

/// A span of time, from `start` (inclusive) to `end` (exclusive), in milliseconds
/// since the epoch.
#[derive(Debug, Clone, Copy, PartialEq, Eq, Structural)]
pub struct TimeRange {
    pub start: i64,
    pub end: i64,
}

impl TimeRange {
    pub fn new(start: i64, end: i64) -> (r: TimeRange)
        ensures
            r.start == start,
            r.end == end,
    {
        TimeRange { start, end }
    }

    /// The span of `span_ms` milliseconds that ends at `end`.
    pub fn ending_at(end: i64, span_ms: i64) -> (r: TimeRange)
        ensures
            r.end == end,
            r.start == clamp_i64(end - span_ms),
    {
        let s: i128 = end as i128 - span_ms as i128;
        let start: i64 = if s < i64::MIN as i128 {
            i64::MIN
        } else if s > i64::MAX as i128 {
            i64::MAX
        } else {
            s as i64
        };
        TimeRange { start, end }
    }

    /// The last `hours` hours, up to now.
    pub fn last_hours(hours: i64) -> (r: TimeRange)
        requires
            -(MAX_SPAN_MILLIS / MILLIS_PER_HOUR) <= hours <= MAX_SPAN_MILLIS / MILLIS_PER_HOUR,
        ensures
            r.start == clamp_i64(r.end - hours * MILLIS_PER_HOUR),
    {
        TimeRange::ending_at(now_millis(), hours * MILLIS_PER_HOUR)
    }

    /// The last `days` days, up to now.
    pub fn last_days(days: i64) -> (r: TimeRange)
        requires
            -(MAX_SPAN_MILLIS / MILLIS_PER_DAY) <= days <= MAX_SPAN_MILLIS / MILLIS_PER_DAY,
        ensures
            r.start == clamp_i64(r.end - days * MILLIS_PER_DAY),
    {
        TimeRange::ending_at(now_millis(), days * MILLIS_PER_DAY)
    }

    /// The last `minutes` minutes, up to now.
    pub fn last_minutes(minutes: i64) -> (r: TimeRange)
        requires
            -(MAX_SPAN_MILLIS / MILLIS_PER_MINUTE) <= minutes <= MAX_SPAN_MILLIS
                / MILLIS_PER_MINUTE,
        ensures
            r.start == clamp_i64(r.end - minutes * MILLIS_PER_MINUTE),
    {
        TimeRange::ending_at(now_millis(), minutes * MILLIS_PER_MINUTE)
    }

    /// Length of the range in whole seconds, rounded toward zero.
    pub fn duration_secs(&self) -> (r: i64)
        ensures
            r == whole_seconds(self.end - self.start),
    {
        let d: i128 = self.end as i128 - self.start as i128;
        if d >= 0 {
            (d / 1000) as i64
        } else {
            (-((-d) / 1000)) as i64
        }
    }
}

/// Query for telemetry events.
#[derive(Debug, Clone)]
pub struct TelemetryQuery {
    pub time_range: TimeRange,
    pub service: Option<ServiceId>,
    pub model: Option<ModelId>,
    pub limit: Option<usize>,
    pub offset: Option<usize>,
    pub ascending: bool,
}

impl TelemetryQuery {
    /// All events of the range, newest first, at most 1000.
    pub fn new(time_range: TimeRange) -> (r: TelemetryQuery)
        ensures
            r.time_range == time_range,
            r.service.is_none(),
            r.model.is_none(),
            r.limit == Some(1000usize),
            r.offset.is_none(),
            !r.ascending,
    {
        TelemetryQuery {
            time_range,
            service: None,
            model: None,
            limit: Some(1000),
            offset: None,
            ascending: false,
        }
    }

    pub fn with_service(self, service: ServiceId) -> (r: TelemetryQuery)
        ensures
            r == (TelemetryQuery { service: Some(service), ..self }),
    {
        TelemetryQuery { service: Some(service), ..self }
    }

    pub fn with_model(self, model: ModelId) -> (r: TelemetryQuery)
        ensures
            r == (TelemetryQuery { model: Some(model), ..self }),
    {
        TelemetryQuery { model: Some(model), ..self }
    }

    pub fn with_limit(self, limit: usize) -> (r: TelemetryQuery)
        ensures
            r == (TelemetryQuery { limit: Some(limit), ..self }),
    {
        TelemetryQuery { limit: Some(limit), ..self }
    }

    pub fn with_offset(self, offset: usize) -> (r: TelemetryQuery)
        ensures
            r == (TelemetryQuery { offset: Some(offset), ..self }),
    {
        TelemetryQuery { offset: Some(offset), ..self }
    }

    pub fn ascending(self) -> (r: TelemetryQuery)
        ensures
            r == (TelemetryQuery { ascending: true, ..self }),
    {
        TelemetryQuery { ascending: true, ..self }
    }

    pub fn descending(self) -> (r: TelemetryQuery)
        ensures
            r == (TelemetryQuery { ascending: false, ..self }),
    {
        TelemetryQuery { ascending: false, ..self }
    }
}

/// Request parameters of the telemetry query.
#[derive(Debug, Clone)]
pub struct TelemetryQueryParams {
    pub service: Option<String>,
    pub model: Option<String>,
    /// Start time, RFC 3339.
    pub start: Option<String>,
    /// End time, RFC 3339.
    pub end: Option<String>,
    /// Span in hours up to now, when no start and end are given.
    pub hours: Option<i64>,
    pub limit: Option<usize>,
    pub offset: Option<usize>,
    pub ascending: Option<bool>,
}

/// Hours of the range when the request names none.
pub const DEFAULT_QUERY_HOURS: i64 = 24;

/// Time range of a request, given the time `now` (milliseconds): both bounds when
/// start and end are given, `None` if either does not parse; else the last `hours`
/// hours; else the last day.
pub open spec fn requested_range(
    start: Option<String>,
    end: Option<String>,
    hours: Option<i64>,
    now: i64,
) -> Option<TimeRange> {
    if start.is_some() && end.is_some() {
        let s = rfc3339_millis(start.unwrap()@);
        let e = rfc3339_millis(end.unwrap()@);
        if s.is_some() && e.is_some() {
            Some(TimeRange { start: s.unwrap() as i64, end: e.unwrap() as i64 })
        } else {
            None
        }
    } else {
        let h = if hours.is_some() {
            hours.unwrap()
        } else {
            DEFAULT_QUERY_HOURS
        };
        Some(TimeRange { start: clamp_i64(now - h * MILLIS_PER_HOUR) as i64, end: now })
    }
}

/// Resolves the time range of a request; a bound that does not parse is an
/// `invalid_time` error.
pub fn resolve_time_range(
    start: &Option<String>,
    end: &Option<String>,
    hours: Option<i64>,
    now: i64,
) -> (r: Result<TimeRange, ErrorResponse>)
    requires
        hours.is_some() && !(start.is_some() && end.is_some()) ==> -(MAX_SPAN_MILLIS
            / MILLIS_PER_HOUR) <= hours.unwrap() <= MAX_SPAN_MILLIS / MILLIS_PER_HOUR,
    ensures
        r.is_ok() == requested_range(*start, *end, hours, now).is_some(),
        r.is_ok() ==> r->Ok_0 == requested_range(*start, *end, hours, now).unwrap(),
        r.is_err() ==> r->Err_0.code@ == "invalid_time"@,
{
    match (start, end) {
        (Some(s), Some(e)) => {
            let start_ms = match parse_rfc3339_millis(s.as_str()) {
                Ok(v) => v,
                Err(msg) => {
                    return Err(
                        ErrorResponse::new(
                            "invalid_time",
                            String::from_str("Invalid start time: ").concat(msg.as_str()).as_str(),
                        ),
                    );
                },
            };
            let end_ms = match parse_rfc3339_millis(e.as_str()) {
                Ok(v) => v,
                Err(msg) => {
                    return Err(
                        ErrorResponse::new(
                            "invalid_time",
                            String::from_str("Invalid end time: ").concat(msg.as_str()).as_str(),
                        ),
                    );
                },
            };
            Ok(TimeRange::new(start_ms, end_ms))
        },
        _ => match hours {
            Some(h) => Ok(TimeRange::ending_at(now, h * MILLIS_PER_HOUR)),
            None => Ok(TimeRange::ending_at(now, DEFAULT_QUERY_HOURS * MILLIS_PER_HOUR)),
        },
    }
}

/// The telemetry query that a request asks for, given the time `now`.
pub fn telemetry_query_from_params(params: &TelemetryQueryParams, now: i64) -> (r: Result<
    TelemetryQuery,
    ErrorResponse,
>)
    requires
        params.hours.is_some() && !(params.start.is_some() && params.end.is_some()) ==> -(
        MAX_SPAN_MILLIS / MILLIS_PER_HOUR) <= params.hours.unwrap() <= MAX_SPAN_MILLIS
            / MILLIS_PER_HOUR,
    ensures
        r.is_ok() == requested_range(params.start, params.end, params.hours, now).is_some(),
        r.is_ok() ==> {
            let q = r->Ok_0;
            &&& q.time_range == requested_range(
                params.start,
                params.end,
                params.hours,
                now,
            ).unwrap()
            &&& q.service.is_some() == params.service.is_some()
            &&& params.service.is_some() ==> q.service.unwrap()@ == params.service.unwrap()@
            &&& q.model.is_some() == params.model.is_some()
            &&& params.model.is_some() ==> q.model.unwrap()@ == params.model.unwrap()@
            &&& q.limit == (if params.limit.is_some() { params.limit } else { Some(1000usize) })
            &&& q.offset == params.offset
            &&& q.ascending == (params.ascending == Some(true))
        },
{
    let range = resolve_time_range(&params.start, &params.end, params.hours, now)?;
    let mut q = TelemetryQuery::new(range);
    if let Some(s) = &params.service {
        q = q.with_service(ServiceId::from_string(s.clone()));
    }
    if let Some(m) = &params.model {
        q = q.with_model(ModelId::from_string(m.clone()));
    }
    if let Some(l) = params.limit {
        q = q.with_limit(l);
    }
    if let Some(o) = params.offset {
        q = q.with_offset(o);
    }
    if params.ascending == Some(true) {
        q = q.ascending();
    } else {
        q = q.descending();
    }
    Ok(q)
}

} // verus!
