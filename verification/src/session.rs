//! One run, from the look for a persisted record to the persisted successor.
//!
//! The run is a state machine. This module decides; the program around it
//! acts. It performs the [`Action`] it is given and hands back the
//! [`Event`] that came of it, until the action is `Finish` or `Abort`.

use crate::activation::{
    activation_request, request_for, response_outcome, secret_from_response, ActivationRequest,
    RequestModel,
};
use crate::failure::{Failure, FailureModel};
use crate::otp::{code_for, hotp, issued_line, output_line};
use crate::record::{advanced, load_outcome, persisted_text, HOTPData, RecordModel};
use crate::text::{decimal, decimal_text, trim, trimmed};
use vstd::prelude::*;
use vstd::string::StringExecFns;

verus! {

/// Where a run stands.
#[derive(Clone, Debug, PartialEq, Eq)]
pub enum Stage {
    /// Nothing is known yet: the persisted state is being looked for.
    Start,
    /// There is no persisted state; the activation code is being asked for.
    AwaitingCode,
    /// The activation request is on its way.
    AwaitingResponse,
    /// The exchange gave this secret; the PIN is being asked for.
    AwaitingPin(String),
    /// A code has been issued; the successor record is being written.
    Persisting,
    Done,
    Failed,
}

/// What the program reports back.
#[derive(Clone, Debug, PartialEq, Eq)]
pub enum Event {
    /// The persisted state exists; this is its text.
    StateFound(String),
    /// There is no persisted state.
    StateAbsent,
    /// The user entered this line.
    Line(String),
    /// The exchange gave a response with this status and this body.
    Response { status: u16, body: String },
    /// The exchange gave no response: no connection, a timeout, a body
    /// that could not be read.
    TransportFailed(String),
    /// The state has been written.
    Persisted,
    /// Reading or writing failed.
    IoFailed(String),
}

/// What the program is to do next.
#[derive(Clone, Debug, PartialEq, Eq)]
pub enum Action {
    /// Look for the persisted state and report `StateFound` or `StateAbsent`.
    ReadState,
    /// Show the prompt, read one line and report it.
    Ask(String),
    /// Send the request and report `Response`, whatever its status, or
    /// `TransportFailed` where there is none.
    Send(ActivationRequest),
    /// Show `line`, then write `state` as the persisted state, and report
    /// `Persisted`.
    Emit { line: String, state: String },
    /// End the run: it succeeded.
    Finish,
    /// End the run with this failure. Nothing is to be written.
    Abort(Failure),
}

pub enum StageModel {
    Start,
    AwaitingCode,
    AwaitingResponse,
    AwaitingPin(Seq<char>),
    Persisting,
    Done,
    Failed,
}

pub enum EventModel {
    StateFound(Seq<char>),
    StateAbsent,
    Line(Seq<char>),
    Response { status: u16, body: Seq<char> },
    TransportFailed(Seq<char>),
    Persisted,
    IoFailed(Seq<char>),
}

pub enum ActionModel {
    ReadState,
    Ask(Seq<char>),
    Send(RequestModel),
    Emit { line: Seq<char>, state: Seq<char> },
    Finish,
    Abort(FailureModel),
}

impl View for Stage {
    type V = StageModel;

    open spec fn view(&self) -> StageModel {
        match self {
            Stage::Start => StageModel::Start,
            Stage::AwaitingCode => StageModel::AwaitingCode,
            Stage::AwaitingResponse => StageModel::AwaitingResponse,
            Stage::AwaitingPin(secret) => StageModel::AwaitingPin(secret@),
            Stage::Persisting => StageModel::Persisting,
            Stage::Done => StageModel::Done,
            Stage::Failed => StageModel::Failed,
        }
    }
}

impl View for Event {
    type V = EventModel;

    open spec fn view(&self) -> EventModel {
        match self {
            Event::StateFound(text) => EventModel::StateFound(text@),
            Event::StateAbsent => EventModel::StateAbsent,
            Event::Line(line) => EventModel::Line(line@),
            Event::Response { status, body } => EventModel::Response {
                status: *status,
                body: body@,
            },
            Event::TransportFailed(detail) => EventModel::TransportFailed(detail@),
            Event::Persisted => EventModel::Persisted,
            Event::IoFailed(detail) => EventModel::IoFailed(detail@),
        }
    }
}

impl View for Action {
    type V = ActionModel;

    open spec fn view(&self) -> ActionModel {
        match self {
            Action::ReadState => ActionModel::ReadState,
            Action::Ask(prompt) => ActionModel::Ask(prompt@),
            Action::Send(request) => ActionModel::Send(request@),
            Action::Emit { line, state } => ActionModel::Emit { line: line@, state: state@ },
            Action::Finish => ActionModel::Finish,
            Action::Abort(failure) => ActionModel::Abort(failure@),
        }
    }
}

pub open spec fn code_prompt() -> Seq<char> {
    "Enter activation code: "@
}

pub open spec fn pin_prompt() -> Seq<char> {
    "Enter BoilerKey PIN: "@
}

/// The echo of a response body.
pub open spec fn echo_of(body: Seq<char>) -> Seq<char> {
    "Response: "@ + body
}

/// Whether a status tells of success: 200 to 299.
pub open spec fn is_success(status: u16) -> bool {
    200 <= status <= 299
}

/// What is said of a response whose status tells of no success.
pub open spec fn refusal(status: u16) -> Seq<char> {
    "HTTP status "@ + decimal(status as nat)
}

/// The end of a run in failure.
pub open spec fn failed(failure: FailureModel) -> (StageModel, ActionModel) {
    (StageModel::Failed, ActionModel::Abort(failure))
}

/// What is issued for a record: the line with the code for its counter,
/// and as state to write the record with the counter one higher. A record
/// whose counter has no next value gets no code.
pub open spec fn issue_model(r: RecordModel) -> (StageModel, ActionModel) {
    match advanced(r) {
        None => failed(FailureModel::CounterExhausted),
        Some(next) => (
            StageModel::Persisting,
            ActionModel::Emit {
                line: issued_line(r.pin, hotp(r.secret, r.counter)),
                state: persisted_text(next),
            },
        ),
    }
}

/// The next stage and the action to take, for a stage and an event.
pub open spec fn step_model(stage: StageModel, event: EventModel) -> (StageModel, ActionModel) {
    match (stage, event) {
        (StageModel::Done, _) => (StageModel::Done, ActionModel::Finish),
        (StageModel::Failed, _) => failed(FailureModel::OutOfTurn),
        (_, EventModel::IoFailed(detail)) => failed(FailureModel::Io(detail)),
        (StageModel::Start, EventModel::StateFound(text)) => match load_outcome(text) {
            Ok(record) => issue_model(record),
            Err(fault) => failed(FailureModel::Decode(fault)),
        },
        (StageModel::Start, EventModel::StateAbsent) => (
            StageModel::AwaitingCode,
            ActionModel::Ask(code_prompt()),
        ),
        (StageModel::AwaitingCode, EventModel::Line(code)) => (
            StageModel::AwaitingResponse,
            ActionModel::Send(request_for(code)),
        ),
        (StageModel::AwaitingResponse, EventModel::Response { status, body }) => if !is_success(
            status,
        ) {
            failed(FailureModel::Transport(refusal(status)))
        } else {
            match response_outcome(body) {
                Ok(secret) => (StageModel::AwaitingPin(secret), ActionModel::Ask(pin_prompt())),
                Err(fault) => failed(FailureModel::Decode(fault)),
            }
        },
        (StageModel::AwaitingResponse, EventModel::TransportFailed(detail)) => failed(
            FailureModel::Transport(detail),
        ),
        (StageModel::AwaitingPin(secret), EventModel::Line(line)) => issue_model(
            RecordModel { secret, counter: 0, pin: trimmed(line) },
        ),
        (StageModel::Persisting, EventModel::Persisted) => (
            StageModel::Done,
            ActionModel::Finish,
        ),
        _ => failed(FailureModel::OutOfTurn),
    }
}

/// How a run begins.
pub fn begin() -> (r: (Stage, Action))
    ensures
        r.0@ == StageModel::Start,
        r.1@ == ActionModel::ReadState,
{
    (Stage::Start, Action::ReadState)
}

/// The echo to show for a response body.
pub fn response_echo(body: &str) -> (r: String)
    ensures
        r@ == echo_of(body@),
{
    let mut echo = String::from_str("Response: ");
    echo.append(body);
    echo
}

fn fail(failure: Failure) -> (r: (Stage, Action))
    ensures
        (r.0@, r.1@) == failed(failure@),
{
    (Stage::Failed, Action::Abort(failure))
}

/// Issues the code for a record and prepares its successor.
pub fn issue(record: HOTPData) -> (r: (Stage, Action))
    ensures
        (r.0@, r.1@) == issue_model(record@),
{
    let code = code_for(record.secret.as_str(), record.counter);
    let line = output_line(record.pin.as_str(), code.as_str());
    match record.advance() {
        None => fail(Failure::CounterExhausted),
        Some(next) => (Stage::Persisting, Action::Emit { line, state: next.persist() }),
    }
}

/// Takes the run one step on.
pub fn step(stage: Stage, event: Event) -> (r: (Stage, Action))
    ensures
        (r.0@, r.1@) == step_model(stage@, event@),
{
    match (stage, event) {
        (Stage::Done, _) => (Stage::Done, Action::Finish),
        (Stage::Failed, _) => fail(Failure::OutOfTurn),
        (_, Event::IoFailed(detail)) => fail(Failure::Io(detail)),
        (Stage::Start, Event::StateFound(text)) => match HOTPData::load(text.as_str()) {
            Ok(record) => issue(record),
            Err(e) => fail(Failure::Decode(e)),
        },
        (Stage::Start, Event::StateAbsent) => (
            Stage::AwaitingCode,
            Action::Ask(String::from_str("Enter activation code: ")),
        ),
        (Stage::AwaitingCode, Event::Line(code)) => (
            Stage::AwaitingResponse,
            Action::Send(activation_request(code.as_str())),
        ),
        (Stage::AwaitingResponse, Event::Response { status, body }) => if status < 200 || status
            > 299 {
            let mut detail = String::from_str("HTTP status ");
            detail.append(decimal_text(status).as_str());
            fail(Failure::Transport(detail))
        } else {
            match secret_from_response(body.as_str()) {
                Ok(secret) => (
                    Stage::AwaitingPin(secret),
                    Action::Ask(String::from_str("Enter BoilerKey PIN: ")),
                ),
                Err(e) => fail(Failure::Decode(e)),
            }
        },
        (Stage::AwaitingResponse, Event::TransportFailed(detail)) => fail(
            Failure::Transport(detail),
        ),
        (Stage::AwaitingPin(secret), Event::Line(line)) => issue(
            HOTPData::new(secret, trim(line.as_str())),
        ),
        (Stage::Persisting, Event::Persisted) => (Stage::Done, Action::Finish),
        _ => fail(Failure::OutOfTurn),
    }
}

/// The record that a step has in hand to issue a code for: the one that
/// was found persisted, or the one that an activation has just completed.
pub open spec fn record_in_hand(stage: StageModel, event: EventModel) -> Option<RecordModel> {
    match (stage, event) {
        (StageModel::Start, EventModel::StateFound(text)) => match load_outcome(text) {
            Ok(record) => Some(record),
            Err(_) => None,
        },
        (StageModel::AwaitingPin(secret), EventModel::Line(line)) => Some(
            RecordModel { secret, counter: 0, pin: trimmed(line) },
        ),
        _ => None,
    }
}

/// Whenever a step shows a code, it is the code for the counter of the
/// record in hand, and the state it has written holds that record with the
/// counter one higher. No other step shows a code or writes state.
pub proof fn lemma_emits_current_persists_next(stage: StageModel, event: EventModel)
    ensures
        match step_model(stage, event).1 {
            ActionModel::Emit { line, state } => {
                &&& record_in_hand(stage, event) matches Some(r)
                &&& r.counter < u64::MAX
                &&& line == issued_line(r.pin, hotp(r.secret, r.counter))
                &&& state == persisted_text(
                    RecordModel { secret: r.secret, counter: (r.counter + 1) as u64, pin: r.pin },
                )
                &&& step_model(stage, event).0 == StageModel::Persisting
            },
            _ => !(record_in_hand(stage, event) matches Some(r) && r.counter < u64::MAX),
        },
{
}

/// How many activation requests a run sends, from a stage on, while it is
/// handed these events.
pub open spec fn requests_sent(stage: StageModel, events: Seq<EventModel>) -> nat
    decreases events.len(),
{
    if events.len() == 0 {
        0
    } else {
        let (next, action) = step_model(stage, events[0]);
        let sent: nat = if action is Send {
            1
        } else {
            0
        };
        sent + requests_sent(next, events.drop_first())
    }
}

/// Once the activation code has been used, no request is sent for the
/// rest of the run, whatever happens.
pub proof fn lemma_no_second_request(stage: StageModel, events: Seq<EventModel>)
    requires
        stage != StageModel::Start,
        stage != StageModel::AwaitingCode,
    ensures
        requests_sent(stage, events) == 0,
    decreases events.len(),
{
    if events.len() > 0 {
        let (next, action) = step_model(stage, events[0]);
        lemma_no_second_request(next, events.drop_first());
    }
}

/// A run sends at most one activation request.
pub proof fn lemma_at_most_one_request(events: Seq<EventModel>)
    ensures
        requests_sent(StageModel::Start, events) <= 1,
{
    if events.len() > 0 {
        let (next, action) = step_model(StageModel::Start, events[0]);
        let rest = events.drop_first();
        if next == StageModel::AwaitingCode {
            if rest.len() > 0 {
                let (after, second) = step_model(next, rest[0]);
                lemma_no_second_request(after, rest.drop_first());
            }
            assert(requests_sent(next, rest) <= 1);
        } else {
            lemma_no_second_request(next, rest);
        }
    }
}

/// A run that finds persisted state sends no activation request.
pub proof fn lemma_found_state_sends_none(text: Seq<char>, events: Seq<EventModel>)
    ensures
        requests_sent(StageModel::Start, seq![EventModel::StateFound(text)] + events) == 0,
{
    let all = seq![EventModel::StateFound(text)] + events;
    assert(all[0] == EventModel::StateFound(text));
    assert(all.drop_first() =~= events);
    let (next, action) = step_model(StageModel::Start, all[0]);
    lemma_no_second_request(next, events);
}

/// A run that finds no persisted state asks for the activation code, and
/// with the code entered sends exactly one activation request: the one for
/// that code.
pub proof fn lemma_absent_state_sends_one(code: Seq<char>, events: Seq<EventModel>)
    ensures
        step_model(StageModel::Start, EventModel::StateAbsent) == (
            StageModel::AwaitingCode,
            ActionModel::Ask(code_prompt()),
        ),
        step_model(StageModel::AwaitingCode, EventModel::Line(code)).1 == ActionModel::Send(
            request_for(code),
        ),
        requests_sent(
            StageModel::Start,
            seq![EventModel::StateAbsent, EventModel::Line(code)] + events,
        ) == 1,
{
    let all = seq![EventModel::StateAbsent, EventModel::Line(code)] + events;
    let rest = all.drop_first();
    assert(all[0] == EventModel::StateAbsent);
    assert(rest[0] == EventModel::Line(code));
    assert(rest.drop_first() =~= events);
    lemma_no_second_request(StageModel::AwaitingResponse, events);
    assert(requests_sent(StageModel::AwaitingCode, rest) == 1);
}

} // verus!
