//! One request for the prices, as a machine that decides while its caller
//! talks to the upstream service.
//!
//! The caller starts in [`PricesState::Start`] with the event
//! [`PricesEvent::Requested`] and the date of today, performs the action
//! that each step asks for, and hands back what came of it as the next
//! event, until a step asks it to respond.

use vstd::prelude::*;
use vstd::string::*;
use crate::prices::{answer_to, prices_reply, records_view};
use crate::prices::{PricesReply, PricesReplyView, UpstreamRecord, UpstreamRecordView};
use crate::upstream::{check_status, is_success, upstream_url, url_text};
use crate::upstream::{CivilDate, UpstreamError, UpstreamErrorView};

verus! {

/// How far a request for the prices has come.
#[derive(Clone, Copy, Debug, PartialEq, Eq, Structural)]
pub enum PricesState {
    /// Nothing has been done yet.
    Start,
    /// The day's price list has been asked for.
    Fetching,
    /// The upstream service answered with success; its body is being read.
    Decoding,
    /// The request has been answered.
    Finished,
}

/// What the caller reports to the machine.
#[derive(Debug, PartialEq)]
pub enum PricesEvent<P> {
    /// A request has arrived, on this date in the local time zone.
    Requested { today: CivilDate },
    /// The upstream service answered with this status.
    Answered { status: u16 },
    /// The upstream service could not be reached; the text says why.
    Unanswered { reason: String },
    /// The body of the answer held these records.
    Decoded { records: Vec<UpstreamRecord<P>> },
    /// The body of the answer is no list of price records; the text says why.
    Undecodable { reason: String },
}

/// What a [`PricesEvent`] holds.
pub enum PricesEventView<P> {
    Requested { today: CivilDate },
    Answered { status: u16 },
    Unanswered { reason: Seq<char> },
    Decoded { records: Seq<UpstreamRecordView<P>> },
    Undecodable { reason: Seq<char> },
}

impl<P> View for PricesEvent<P> {
    type V = PricesEventView<P>;

    open spec fn view(&self) -> PricesEventView<P> {
        match self {
            PricesEvent::Requested { today } => PricesEventView::Requested { today: *today },
            PricesEvent::Answered { status } => PricesEventView::Answered { status: *status },
            PricesEvent::Unanswered { reason } => PricesEventView::Unanswered { reason: reason@ },
            PricesEvent::Decoded { records } => PricesEventView::Decoded {
                records: records_view(records@),
            },
            PricesEvent::Undecodable { reason } => PricesEventView::Undecodable { reason: reason@ },
        }
    }
}

/// What the machine asks of the caller.
#[derive(Debug, PartialEq)]
pub enum PricesAction<P> {
    /// Send one GET request to this address and report
    /// [`PricesEvent::Answered`] or [`PricesEvent::Unanswered`].
    Fetch { url: String },
    /// Read the body of the answer as a JSON array of price records and
    /// report [`PricesEvent::Decoded`] or [`PricesEvent::Undecodable`].
    Decode,
    /// Send this answer; the request is over.
    Respond(PricesReply<P>),
}

/// What a [`PricesAction`] holds.
pub enum PricesActionView<P> {
    Fetch { url: Seq<char> },
    Decode,
    Respond(PricesReplyView<P>),
}

impl<P> View for PricesAction<P> {
    type V = PricesActionView<P>;

    open spec fn view(&self) -> PricesActionView<P> {
        match self {
            PricesAction::Fetch { url } => PricesActionView::Fetch { url: url@ },
            PricesAction::Decode => PricesActionView::Decode,
            PricesAction::Respond(reply) => PricesActionView::Respond(reply@),
        }
    }
}

impl PricesState {
    /// How many steps the request is from its end, at most.
    pub open spec fn steps_left(self) -> nat {
        match self {
            PricesState::Start => 3,
            PricesState::Fetching => 2,
            PricesState::Decoding => 1,
            PricesState::Finished => 0,
        }
    }
}

/// The report of an event that the state did not ask for.
pub open spec fn out_of_order_text() -> Seq<char> {
    "Error: request handled out of order"@
}

/// The step that ends the request with the answer to what fetching gave.
pub open spec fn respond<P>(fetched: Result<Seq<UpstreamRecordView<P>>, UpstreamErrorView>) -> (
    PricesState,
    PricesActionView<P>,
) {
    (PricesState::Finished, PricesActionView::Respond(answer_to(fetched)))
}

/// The machine's transition: the state and the action that follow from a
/// state and an event.
///
/// An event that the state did not ask for ends the request with status
/// 500.
pub open spec fn next<P>(state: PricesState, event: PricesEventView<P>) -> (
    PricesState,
    PricesActionView<P>,
) {
    match (state, event) {
        (PricesState::Start, PricesEventView::Requested { today }) => (
            PricesState::Fetching,
            PricesActionView::Fetch { url: url_text(today) },
        ),
        (PricesState::Fetching, PricesEventView::Answered { status }) => if is_success(status) {
            (PricesState::Decoding, PricesActionView::Decode)
        } else {
            respond(Err(UpstreamErrorView::Status(status)))
        },
        (PricesState::Fetching, PricesEventView::Unanswered { reason }) => respond(
            Err(UpstreamErrorView::Transport(reason)),
        ),
        (PricesState::Decoding, PricesEventView::Decoded { records }) => respond(Ok(records)),
        (PricesState::Decoding, PricesEventView::Undecodable { reason }) => respond(
            Err(UpstreamErrorView::Decode(reason)),
        ),
        _ => (
            PricesState::Finished,
            PricesActionView::Respond(PricesReplyView::Failed(out_of_order_text())),
        ),
    }
}

/// Ends the request with the answer to what fetching gave.
fn responded<P>(fetched: Result<Vec<UpstreamRecord<P>>, UpstreamError>) -> (step: (
    PricesState,
    PricesAction<P>,
))
    ensures
        (step.0, step.1@) == respond(
            match fetched {
                Ok(records) => Ok(records_view(records@)),
                Err(error) => Err(error@),
            },
        ),
{
    (PricesState::Finished, PricesAction::Respond(prices_reply(fetched)))
}

/// Ends a request whose event the state did not ask for.
fn out_of_order<P>() -> (step: (PricesState, PricesAction<P>))
    ensures
        step.0 == PricesState::Finished,
        step.1@ == PricesActionView::<P>::Respond(PricesReplyView::Failed(out_of_order_text())),
{
    let body = String::from_str("Error: request handled out of order");
    (PricesState::Finished, PricesAction::Respond(PricesReply::Failed(body)))
}

/// Takes one step of a request for the prices: from the state the request
/// is in and what the caller reports, to the state it is in next and what
/// the caller is to do.
pub fn step<P>(state: PricesState, event: PricesEvent<P>) -> (step: (PricesState, PricesAction<P>))
    ensures
        (step.0, step.1@) == next(state, event@),
{
    match state {
        PricesState::Start => match event {
            PricesEvent::Requested { today } => (
                PricesState::Fetching,
                PricesAction::Fetch { url: upstream_url(today) },
            ),
            _ => out_of_order(),
        },
        PricesState::Fetching => match event {
            PricesEvent::Answered { status } => match check_status(status) {
                Ok(_) => (PricesState::Decoding, PricesAction::Decode),
                Err(error) => responded(Err(error)),
            },
            PricesEvent::Unanswered { reason } => responded(Err(UpstreamError::Transport(reason))),
            _ => out_of_order(),
        },
        PricesState::Decoding => match event {
            PricesEvent::Decoded { records } => responded(Ok(records)),
            PricesEvent::Undecodable { reason } => responded(Err(UpstreamError::Decode(reason))),
            _ => out_of_order(),
        },
        PricesState::Finished => out_of_order(),
    }
}

/// What fetching the prices gives, from what the upstream service did: its
/// answer's status, or why there was no answer, and the records in the
/// answer's body, or why it held none.
pub open spec fn fetched<P>(
    answer: Result<u16, Seq<char>>,
    body: Result<Seq<UpstreamRecordView<P>>, Seq<char>>,
) -> Result<Seq<UpstreamRecordView<P>>, UpstreamErrorView> {
    match answer {
        Err(reason) => Err(UpstreamErrorView::Transport(reason)),
        Ok(status) => if !is_success(status) {
            Err(UpstreamErrorView::Status(status))
        } else {
            match body {
                Ok(records) => Ok(records),
                Err(reason) => Err(UpstreamErrorView::Decode(reason)),
            }
        },
    }
}

/// The event that reports the upstream service's answer, or the lack of one.
pub open spec fn answer_event<P>(answer: Result<u16, Seq<char>>) -> PricesEventView<P> {
    match answer {
        Ok(status) => PricesEventView::Answered { status },
        Err(reason) => PricesEventView::Unanswered { reason },
    }
}

/// The event that reports what the body of the answer held.
pub open spec fn body_event<P>(body: Result<Seq<UpstreamRecordView<P>>, Seq<char>>)
    -> PricesEventView<P> {
    match body {
        Ok(records) => PricesEventView::Decoded { records },
        Err(reason) => PricesEventView::Undecodable { reason },
    }
}

/// The answer that the machine gives when it is fed `events` one by one from
/// `state`; none if the events run out before it answers.
pub open spec fn run<P>(state: PricesState, events: Seq<PricesEventView<P>>) -> Option<
    PricesReplyView<P>,
>
    decreases events.len(),
{
    if events.len() == 0 {
        None
    } else {
        match next(state, events[0]) {
            (_, PricesActionView::Respond(reply)) => Some(reply),
            (after, _) => run(after, events.drop_first()),
        }
    }
}

/// A request that is carried through first asks for the price list of
/// today, that is for one GET of the address for that date, and ends in the
/// answer to what fetching gave: the chart points of the records with
/// status 200, or the report of the failure with status 500.
pub proof fn law_run_gives_reply<P>(
    today: CivilDate,
    answer: Result<u16, Seq<char>>,
    body: Result<Seq<UpstreamRecordView<P>>, Seq<char>>,
)
    ensures
        next::<P>(PricesState::Start, PricesEventView::Requested { today }) == (
            PricesState::Fetching,
            PricesActionView::<P>::Fetch { url: url_text(today) },
        ),
        run(
            PricesState::Start,
            seq![PricesEventView::Requested { today }, answer_event(answer), body_event(body)],
        ) == Some(answer_to(fetched(answer, body))),
        answer_to(fetched(answer, body)).status_code() == (if fetched(answer, body) is Ok {
            200u16
        } else {
            500u16
        }),
{
    reveal_with_fuel(run, 4);
}

/// Every step answers the request or brings it one step nearer to its end,
/// whatever the event; a step that answers ends the request.
pub proof fn law_step_answers_or_advances<P>(state: PricesState, event: PricesEventView<P>)
    ensures
        next(state, event).1 is Respond <==> next(state, event).0 == PricesState::Finished,
        !(next(state, event).1 is Respond) ==> next(state, event).0.steps_left() + 1
            == state.steps_left(),
{
}

/// A request is answered once the machine has been fed as many events as
/// the state has steps left, whatever the events are: from the start, three.
pub proof fn law_run_answers<P>(state: PricesState, events: Seq<PricesEventView<P>>)
    requires
        events.len() >= state.steps_left(),
        events.len() >= 1,
    ensures
        run(state, events) is Some,
    decreases events.len(),
{
    let (after, action) = next(state, events[0]);
    law_step_answers_or_advances(state, events[0]);
    if !(action is Respond) {
        law_run_answers(after, events.drop_first());
    }
}

/// The body of the upstream answer is read only after a status of success.
pub proof fn law_decode_only_after_success<P>(state: PricesState, event: PricesEventView<P>)
    requires
        next(state, event).1 is Decode,
    ensures
        state == PricesState::Fetching,
        event matches PricesEventView::Answered { status } && is_success(status),
{
}

} // verus!
