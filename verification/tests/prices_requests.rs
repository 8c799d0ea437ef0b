use elektron::prices::{ChartPoint, PricesReply, UpstreamRecord};
use elektron::prices_request::{step, PricesAction, PricesEvent, PricesState};
use elektron::upstream::CivilDate;

fn record(nok: f64, eur: f64, time: &str) -> UpstreamRecord<f64> {
    UpstreamRecord { nok_per_kwh: nok, eur_per_kwh: eur, time_start: time.to_string() }
}

fn today() -> CivilDate {
    CivilDate { year: 2025, month: 1, day: 15 }
}

/// Carries a request through against an upstream that answers as given.
fn request(
    answer: Result<u16, &str>,
    body: Result<Vec<UpstreamRecord<f64>>, &str>,
) -> (PricesReply<f64>, Vec<String>) {
    let mut asked = Vec::new();
    let mut state = PricesState::Start;
    let mut event = PricesEvent::Requested { today: today() };
    for _ in 0..8 {
        let (next, action) = step(state, event);
        state = next;
        event = match action {
            PricesAction::Fetch { url } => {
                asked.push(format!("GET {}", url));
                match answer {
                    Ok(status) => PricesEvent::Answered { status },
                    Err(reason) => PricesEvent::Unanswered { reason: reason.to_string() },
                }
            }
            PricesAction::Decode => {
                asked.push("decode".to_string());
                match &body {
                    Ok(records) => PricesEvent::Decoded { records: records.clone() },
                    Err(reason) => PricesEvent::Undecodable { reason: reason.to_string() },
                }
            }
            PricesAction::Respond(reply) => {
                assert_eq!(state, PricesState::Finished);
                return (reply, asked);
            }
        };
    }
    panic!("the request was not answered");
}

const GET_TODAY: &str = "GET https://www.hvakosterstrommen.no/api/v1/prices/2025/01-15_NO2.json";

#[test]
fn records_from_upstream_give_the_chart() {
    let (reply, asked) = request(
        Ok(200),
        Ok(vec![
            record(0.1234, 0.0108, "2025-01-15T00:00:00+01:00"),
            record(-0.05, -0.004, "2025-01-15T01:00:00+01:00"),
        ]),
    );
    assert_eq!(asked, vec![GET_TODAY.to_string(), "decode".to_string()]);
    assert_eq!(reply.status(), 200);
    assert_eq!(
        reply,
        PricesReply::Chart(vec![
            ChartPoint {
                hour: 0,
                time: "2025-01-15T00:00:00+01:00".to_string(),
                price_nok: 0.1234,
                price_eur: 0.0108,
            },
            ChartPoint {
                hour: 1,
                time: "2025-01-15T01:00:00+01:00".to_string(),
                price_nok: -0.05,
                price_eur: -0.004,
            },
        ])
    );
}

#[test]
fn upstream_404_gives_500() {
    let (reply, asked) = request(Ok(404), Ok(vec![record(1.0, 0.1, "2025-01-15T00:00:00+01:00")]));
    assert_eq!(asked, vec![GET_TODAY.to_string()]);
    assert_eq!(reply.status(), 500);
    assert_eq!(
        reply,
        PricesReply::Failed("Error: API request failed with status: 404 Not Found".to_string())
    );
}

#[test]
fn malformed_upstream_json_gives_500() {
    let (reply, asked) = request(Ok(200), Err("expected a sequence at line 1 column 10"));
    assert_eq!(asked, vec![GET_TODAY.to_string(), "decode".to_string()]);
    assert_eq!(reply.status(), 500);
    assert_eq!(
        reply,
        PricesReply::Failed("Error: expected a sequence at line 1 column 10".to_string())
    );
}

#[test]
fn empty_array_gives_empty_chart() {
    let (reply, _) = request(Ok(200), Ok(vec![]));
    assert_eq!(reply.status(), 200);
    assert_eq!(reply, PricesReply::Chart(vec![]));
}

#[test]
fn unreachable_upstream_is_a_500() {
    let (reply, asked) = request(Err("dns error"), Ok(vec![]));
    assert_eq!(asked, vec![GET_TODAY.to_string()]);
    assert_eq!(reply.status(), 500);
    assert_eq!(reply, PricesReply::Failed("Error: dns error".to_string()));
}

#[test]
fn any_status_but_success_fails_without_reading_the_body() {
    for status in [100u16, 199, 300, 301, 400, 403, 500, 503, 999] {
        let (reply, asked) = request(Ok(status), Ok(vec![]));
        assert_eq!(asked.len(), 1);
        assert_eq!(reply.status(), 500);
    }
    for status in [200u16, 201, 204, 299] {
        let (reply, asked) = request(Ok(status), Ok(vec![]));
        assert_eq!(asked.len(), 2);
        assert_eq!(reply.status(), 200);
    }
}

#[test]
fn first_step_asks_for_the_list_of_the_day() {
    let (state, action) = step::<f64>(
        PricesState::Start,
        PricesEvent::Requested { today: CivilDate { year: 2026, month: 10, day: 28 } },
    );
    assert_eq!(state, PricesState::Fetching);
    assert_eq!(
        action,
        PricesAction::Fetch {
            url: "https://www.hvakosterstrommen.no/api/v1/prices/2026/10-28_NO2.json".to_string()
        }
    );
}

#[test]
fn event_out_of_order_ends_the_request_with_500() {
    let out_of_order: PricesAction<f64> =
        PricesAction::Respond(PricesReply::Failed("Error: request handled out of order".to_string()));
    let (state, action) = step::<f64>(PricesState::Start, PricesEvent::Answered { status: 200 });
    assert_eq!(state, PricesState::Finished);
    assert_eq!(action, out_of_order);
    let (_, action) = step::<f64>(PricesState::Fetching, PricesEvent::Decoded { records: vec![] });
    assert_eq!(action, out_of_order);
    let (_, action) = step::<f64>(PricesState::Decoding, PricesEvent::Requested { today: today() });
    assert_eq!(action, out_of_order);
    let (_, action) = step::<f64>(PricesState::Finished, PricesEvent::Answered { status: 200 });
    assert_eq!(action, out_of_order);
    match action {
        PricesAction::Respond(reply) => assert_eq!(reply.status(), 500),
        _ => panic!("no answer"),
    }
}
