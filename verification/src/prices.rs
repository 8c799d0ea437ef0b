//! From the upstream price records to the chart points that the page draws,
//! and the answer of the prices endpoint.
//!
//! Prices pass through as they are: the type `P` stands for a price, and a
//! chart point holds the very values of its record. The price in øre that
//! the page draws is a hundred times the price in NOK; that product is a
//! floating-point one and is taken where the points are written out.

use vstd::prelude::*;
use vstd::string::*;
use crate::upstream::{UpstreamError, UpstreamErrorView};

verus! {

/// One hour's price as the upstream service reports it.
#[derive(Clone, Debug, PartialEq)]
pub struct UpstreamRecord<P> {
    /// The price in NOK per kWh.
    pub nok_per_kwh: P,
    /// The price in EUR per kWh.
    pub eur_per_kwh: P,
    /// The start of the hour: a date-time with its offset, in RFC 3339.
    pub time_start: String,
}

/// What an [`UpstreamRecord`] holds.
pub struct UpstreamRecordView<P> {
    pub nok_per_kwh: P,
    pub eur_per_kwh: P,
    pub time_start: Seq<char>,
}

impl<P> View for UpstreamRecord<P> {
    type V = UpstreamRecordView<P>;

    open spec fn view(&self) -> UpstreamRecordView<P> {
        UpstreamRecordView {
            nok_per_kwh: self.nok_per_kwh,
            eur_per_kwh: self.eur_per_kwh,
            time_start: self.time_start@,
        }
    }
}

/// One hour's price as the page draws it.
#[derive(Clone, Debug, PartialEq)]
pub struct ChartPoint<P> {
    /// The hour of the day at which the price starts, in the offset that
    /// the record's time carries.
    pub hour: u32,
    /// The record's time, as it came.
    pub time: String,
    /// The price in NOK per kWh, as it came.
    pub price_nok: P,
    /// The price in EUR per kWh, as it came.
    pub price_eur: P,
}

/// What a [`ChartPoint`] holds.
pub struct ChartPointView<P> {
    pub hour: u32,
    pub time: Seq<char>,
    pub price_nok: P,
    pub price_eur: P,
}

impl<P> View for ChartPoint<P> {
    type V = ChartPointView<P>;

    open spec fn view(&self) -> ChartPointView<P> {
        ChartPointView {
            hour: self.hour,
            time: self.time@,
            price_nok: self.price_nok,
            price_eur: self.price_eur,
        }
    }
}

/// What a list of records holds.
pub open spec fn records_view<P>(records: Seq<UpstreamRecord<P>>) -> Seq<UpstreamRecordView<P>> {
    records.map_values(|record: UpstreamRecord<P>| record@)
}

/// What a list of chart points holds.
pub open spec fn points_view<P>(points: Seq<ChartPoint<P>>) -> Seq<ChartPointView<P>> {
    points.map_values(|point: ChartPoint<P>| point@)
}

/// The hour of the day that an RFC 3339 date-time names, in the offset that
/// it carries; none for a text that is no such date-time.
pub uninterp spec fn rfc3339_hour(text: Seq<char>) -> Option<u32>;

/// Whether a character is a decimal digit.
pub open spec fn is_digit(c: char) -> bool {
    '0' <= c <= '9'
}

/// The number that a decimal digit stands for.
pub open spec fn digit_value(c: char) -> int {
    c as int - '0' as int
}

/// The hour that a date-time writes out: the two digits that follow the
/// ten characters of the date and the one that parts date and time.
pub open spec fn written_hour(text: Seq<char>) -> int {
    digit_value(text[11]) * 10 + digit_value(text[12])
}

/// What is known of the hour that was read from a text: it is an hour of
/// the day, and the one that the text writes out in two digits.
pub open spec fn reads_as(text: Seq<char>, hour: u32) -> bool {
    &&& hour <= 23
    &&& text.len() >= 19
    &&& is_digit(text[11])
    &&& is_digit(text[12])
    &&& hour == written_hour(text)
}

/// Reads a date-time with `chrono::DateTime::parse_from_rfc3339` and takes
/// its hour with `chrono::Timelike::hour`.
///
/// Taken on trust: whether a text is read, and as which hour, depends on
/// the text alone; a text that is read has the date, a separator and the
/// time of day in its first nineteen characters, the hour in two digits
/// among them; and the hour taken is that hour as written, which is the
/// local time in the offset that the text carries, from 0 to 23.
#[verifier::external_body]
fn parse_hour(text: &str) -> (hour: Option<u32>)
    ensures
        hour == rfc3339_hour(text@),
        hour matches Some(h) ==> reads_as(text@, h),
{
    match chrono::DateTime::parse_from_rfc3339(text) {
        Ok(moment) => Some(chrono::Timelike::hour(&moment)),
        Err(_) => None,
    }
}

/// The hour of a chart point, given what reading the record's time gave:
/// the hour read, or 0 where the time could not be read.
pub open spec fn hour_or_midnight(parsed: Option<u32>) -> u32 {
    match parsed {
        Some(hour) => hour,
        None => 0,
    }
}

/// The chart point of a record, given what reading the record's time gave.
pub open spec fn point_of<P>(record: UpstreamRecordView<P>, parsed: Option<u32>) -> ChartPointView<
    P,
> {
    ChartPointView {
        hour: hour_or_midnight(parsed),
        time: record.time_start,
        price_nok: record.nok_per_kwh,
        price_eur: record.eur_per_kwh,
    }
}

/// The chart point of a record.
pub open spec fn normalized<P>(record: UpstreamRecordView<P>) -> ChartPointView<P> {
    point_of(record, rfc3339_hour(record.time_start))
}

/// The chart points of a list of records: one for each, in the same order.
pub open spec fn normalized_all<P>(records: Seq<UpstreamRecordView<P>>) -> Seq<ChartPointView<P>> {
    records.map_values(|record: UpstreamRecordView<P>| normalized(record))
}

/// Makes the chart point of a record, given what reading the record's time
/// gave: the hour read, or 0 where the time could not be read; the time and
/// the prices as they came.
pub fn chart_point<P>(record: UpstreamRecord<P>, parsed: Option<u32>) -> (point: ChartPoint<P>)
    ensures
        point@ == point_of(record@, parsed),
{
    let hour = match parsed {
        Some(hour) => hour,
        None => 0,
    };
    ChartPoint {
        hour,
        time: record.time_start,
        price_nok: record.nok_per_kwh,
        price_eur: record.eur_per_kwh,
    }
}

/// Turns the upstream records into chart points, one for one and in order.
///
/// Never fails: a record whose time cannot be read gets the hour 0. Every
/// hour is one of the day, and where the time was read it is the hour that
/// the time writes out.
pub fn normalize<P>(records: Vec<UpstreamRecord<P>>) -> (points: Vec<ChartPoint<P>>)
    ensures
        points_view(points@) == normalized_all(records_view(records@)),
        forall|i: int| 0 <= i < points@.len() ==> (#[trigger] points@[i]).hour <= 23,
        forall|i: int|
            0 <= i < points@.len() && rfc3339_hour(records@[i].time_start@) is Some ==> reads_as(
                records@[i].time_start@,
                (#[trigger] points@[i]).hour,
            ),
{
    let ghost all = records@;
    let mut points: Vec<ChartPoint<P>> = Vec::new();
    for record in it: records
        invariant
            it.seq() == all,
            points@.len() == it.index(),
            forall|i: int| 0 <= i < points@.len() ==> (#[trigger] points@[i])@ == normalized(all[i]@),
            forall|i: int| 0 <= i < points@.len() ==> (#[trigger] points@[i]).hour <= 23,
            forall|i: int|
                0 <= i < points@.len() && rfc3339_hour(all[i].time_start@) is Some ==> reads_as(
                    all[i].time_start@,
                    (#[trigger] points@[i]).hour,
                ),
    {
        let parsed = parse_hour(record.time_start.as_str());
        let point = chart_point(record, parsed);
        points.push(point);
    }
    points
}

/// A list of records and its chart points are of one length, and each point
/// is the chart point of the record at its place: it carries that record's
/// time and prices.
pub proof fn law_normalize_keeps_order<P>(records: Seq<UpstreamRecordView<P>>, i: int)
    requires
        0 <= i < records.len(),
    ensures
        normalized_all(records).len() == records.len(),
        normalized_all(records)[i] == normalized(records[i]),
        normalized_all(records)[i].time == records[i].time_start,
        normalized_all(records)[i].price_nok == records[i].nok_per_kwh,
        normalized_all(records)[i].price_eur == records[i].eur_per_kwh,
{
}

/// A record whose time is read as a date-time gets the hour that was read.
pub proof fn law_hour_is_the_one_read<P>(record: UpstreamRecordView<P>, hour: u32)
    requires
        rfc3339_hour(record.time_start) == Some(hour),
    ensures
        normalized(record).hour == hour,
        normalized_all(seq![record])[0].hour == hour,
{
}

/// A record whose time cannot be read as a date-time gets the hour 0, and
/// its time and prices are carried over all the same.
pub proof fn law_unreadable_time_is_midnight<P>(record: UpstreamRecordView<P>)
    requires
        rfc3339_hour(record.time_start) is None,
    ensures
        normalized(record) == (ChartPointView {
            hour: 0,
            time: record.time_start,
            price_nok: record.nok_per_kwh,
            price_eur: record.eur_per_kwh,
        }),
        normalized_all(seq![record])[0] == normalized(record),
{
}

/// The answer of the prices endpoint.
#[derive(Debug, PartialEq)]
pub enum PricesReply<P> {
    /// The chart points, to be sent as a JSON array with status 200.
    Chart(Vec<ChartPoint<P>>),
    /// The text to be sent as plain text with status 500.
    Failed(String),
}

/// What a [`PricesReply`] holds.
pub enum PricesReplyView<P> {
    Chart(Seq<ChartPointView<P>>),
    Failed(Seq<char>),
}

impl<P> View for PricesReply<P> {
    type V = PricesReplyView<P>;

    open spec fn view(&self) -> PricesReplyView<P> {
        match self {
            PricesReply::Chart(points) => PricesReplyView::Chart(points_view(points@)),
            PricesReply::Failed(text) => PricesReplyView::Failed(text@),
        }
    }
}

impl<P> PricesReplyView<P> {
    /// The HTTP status of the answer.
    pub open spec fn status_code(self) -> u16 {
        match self {
            PricesReplyView::Chart(_) => 200,
            PricesReplyView::Failed(_) => 500,
        }
    }
}

impl<P> PricesReply<P> {
    /// The HTTP status of the answer: 200 with chart points, also with
    /// none at all, and 500 for a failure.
    pub fn status(&self) -> (code: u16)
        ensures
            code == self@.status_code(),
    {
        match self {
            PricesReply::Chart(_) => 200,
            PricesReply::Failed(_) => 500,
        }
    }
}

/// The body that reports a failure to fetch the prices.
pub open spec fn failure_text(error: UpstreamErrorView) -> Seq<char> {
    "Error: "@ + error.message_text()
}

/// The body that reports a failure to fetch the prices: `Error: ` and the
/// error's message.
pub fn failure_body(error: &UpstreamError) -> (body: String)
    ensures
        body@ == failure_text(error@),
{
    let mut body = String::from_str("Error: ");
    let message = error.message();
    body.append(message.as_str());
    body
}

/// The answer that follows from what fetching the prices gave.
pub open spec fn answer_to<P>(fetched: Result<Seq<UpstreamRecordView<P>>, UpstreamErrorView>)
    -> PricesReplyView<P> {
    match fetched {
        Ok(records) => PricesReplyView::Chart(normalized_all(records)),
        Err(error) => PricesReplyView::Failed(failure_text(error)),
    }
}

/// Answers a request for the prices, given what fetching them gave: the
/// chart points of the records, or the report of the failure, whichever
/// kind of failure it was.
pub fn prices_reply<P>(fetched: Result<Vec<UpstreamRecord<P>>, UpstreamError>) -> (reply:
    PricesReply<P>)
    ensures
        reply@ == answer_to(
            match fetched {
                Ok(records) => Ok(records_view(records@)),
                Err(error) => Err(error@),
            },
        ),
{
    match fetched {
        Ok(records) => PricesReply::Chart(normalize(records)),
        Err(error) => PricesReply::Failed(failure_body(&error)),
    }
}

} // verus!
