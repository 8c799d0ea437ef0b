use elektron::prices::{chart_point, failure_body, normalize, prices_reply};
use elektron::prices::{ChartPoint, PricesReply, UpstreamRecord};
use elektron::upstream::UpstreamError;

fn record(nok: f64, eur: f64, time: &str) -> UpstreamRecord<f64> {
    UpstreamRecord { nok_per_kwh: nok, eur_per_kwh: eur, time_start: time.to_string() }
}

fn point(hour: u32, time: &str, nok: f64, eur: f64) -> ChartPoint<f64> {
    ChartPoint { hour, time: time.to_string(), price_nok: nok, price_eur: eur }
}

#[test]
fn two_records_become_two_points() {
    let records = vec![
        record(0.1234, 0.0108, "2025-01-15T00:00:00+01:00"),
        record(-0.05, -0.004, "2025-01-15T01:00:00+01:00"),
    ];
    let points = normalize(records);
    assert_eq!(
        points,
        vec![
            point(0, "2025-01-15T00:00:00+01:00", 0.1234, 0.0108),
            point(1, "2025-01-15T01:00:00+01:00", -0.05, -0.004),
        ]
    );
}

#[test]
fn happy_path_reply_is_200_with_the_points() {
    let fetched = Ok(vec![
        record(0.1234, 0.0108, "2025-01-15T00:00:00+01:00"),
        record(-0.05, -0.004, "2025-01-15T01:00:00+01:00"),
    ]);
    let reply = prices_reply(fetched);
    assert_eq!(reply.status(), 200);
    assert_eq!(
        reply,
        PricesReply::Chart(vec![
            point(0, "2025-01-15T00:00:00+01:00", 0.1234, 0.0108),
            point(1, "2025-01-15T01:00:00+01:00", -0.05, -0.004),
        ])
    );
}

#[test]
fn normalize_keeps_length_and_order() {
    let times = [
        "2025-03-30T00:00:00+01:00",
        "2025-03-30T01:00:00+01:00",
        "2025-03-30T03:00:00+02:00",
        "not a time",
        "2025-03-30T23:00:00+02:00",
    ];
    let mut records = Vec::new();
    for (i, time) in times.iter().enumerate() {
        records.push(record(i as f64, -(i as f64), time));
    }
    let points = normalize(records.clone());
    assert_eq!(points.len(), records.len());
    for i in 0..records.len() {
        assert_eq!(points[i].time, records[i].time_start);
        assert_eq!(points[i].price_nok, records[i].nok_per_kwh);
        assert_eq!(points[i].price_eur, records[i].eur_per_kwh);
    }
    let hours: Vec<u32> = points.iter().map(|p| p.hour).collect();
    assert_eq!(hours, vec![0, 1, 3, 0, 23]);
}

#[test]
fn hour_is_taken_in_the_offset_of_the_time() {
    assert_eq!(normalize(vec![record(1.0, 0.1, "2025-01-15T13:00:00+01:00")])[0].hour, 13);
    assert_eq!(normalize(vec![record(1.0, 0.1, "2025-01-15T23:59:59-11:00")])[0].hour, 23);
    assert_eq!(normalize(vec![record(1.0, 0.1, "2025-06-01T05:30:00Z")])[0].hour, 5);
    assert_eq!(normalize(vec![record(1.0, 0.1, "2025-06-01T00:00:00.250+05:30")])[0].hour, 0);
    assert_eq!(normalize(vec![record(1.0, 0.1, "2025-06-30T23:59:60+02:00")])[0].hour, 23);
    assert_eq!(normalize(vec![record(1.0, 0.1, "2025-06-30T00:30:00+23:59")])[0].hour, 0);
    assert_eq!(normalize(vec![record(1.0, 0.1, "2025-06-30T22:30:00-23:59")])[0].hour, 22);
    assert_eq!(normalize(vec![record(1.0, 0.1, "2025-06-30 07:30:00z")])[0].hour, 7);
    assert_eq!(normalize(vec![record(1.0, 0.1, "0000-01-01t19:00:00.123456789123+00:00")])[0].hour, 19);
}

#[test]
fn every_hour_of_a_day_comes_out_as_itself() {
    for hour in 0..24u32 {
        let time = format!("2025-01-15T{:02}:00:00+01:00", hour);
        let points = normalize(vec![record(0.5, 0.05, &time)]);
        assert_eq!(points[0].hour, hour);
        assert!(points[0].hour <= 23);
    }
}

#[test]
fn unreadable_time_gives_hour_zero_and_leaves_the_rest() {
    for time in ["", "yesterday", "2025-01-15", "2025-01-15T25:00:00+01:00", "2025-01-15T13:00:00"] {
        let points = normalize(vec![record(0.75, 0.065, time)]);
        assert_eq!(points, vec![point(0, time, 0.75, 0.065)]);
    }
}

#[test]
fn chart_point_takes_the_hour_it_is_given() {
    let made = chart_point(record(2.5, 0.2, "2025-01-15T07:00:00+01:00"), Some(7));
    assert_eq!(made, point(7, "2025-01-15T07:00:00+01:00", 2.5, 0.2));
    let fallback = chart_point(record(2.5, 0.2, "garbage"), None);
    assert_eq!(fallback, point(0, "garbage", 2.5, 0.2));
}

#[test]
fn empty_list_is_an_empty_chart_with_200() {
    let reply = prices_reply(Ok(Vec::<UpstreamRecord<f64>>::new()));
    assert_eq!(reply.status(), 200);
    assert_eq!(reply, PricesReply::Chart(vec![]));
}

#[test]
fn upstream_404_is_a_500_that_starts_with_error() {
    let reply: PricesReply<f64> = prices_reply(Err(UpstreamError::Status(404)));
    assert_eq!(reply.status(), 500);
    match reply {
        PricesReply::Failed(body) => {
            assert!(body.starts_with("Error:"));
            assert_eq!(body, "Error: API request failed with status: 404 Not Found");
        }
        PricesReply::Chart(_) => panic!("a failure must not give a chart"),
    }
}

#[test]
fn malformed_upstream_body_is_a_500() {
    let error = UpstreamError::Decode("expected value at line 1 column 1".to_string());
    let reply: PricesReply<f64> = prices_reply(Err(error));
    assert_eq!(reply.status(), 500);
    assert_eq!(
        reply,
        PricesReply::Failed("Error: expected value at line 1 column 1".to_string())
    );
}

#[test]
fn transport_failure_is_a_500() {
    let error = UpstreamError::Transport("connection refused".to_string());
    assert_eq!(failure_body(&error), "Error: connection refused");
    let reply: PricesReply<f64> = prices_reply(Err(error));
    assert_eq!(reply.status(), 500);
}
