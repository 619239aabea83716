//! What the daemon decides for one connection.
//!
//! A connection carries one request and one response. The caller reads the
//! request text, hands it to [`task`], and gets a [`Step`]: either the
//! response to send, or the acquisition to make first. The outcome of that
//! acquisition goes to [`inhibit`], which gives the response.
//!
//! Other connections may be served between the two steps. If the label has
//! been inhibited meanwhile, [`inhibit`] keeps the lock that is held and
//! drops the new one, so that no lock is left behind.

use vstd::prelude::*;
use crate::protocol::{request_of_text, ErrorKind, Request, RequestModel, Response, ResponseModel, Status};
use crate::state::{holds, inhibited, is_acquisition_for, labels, released, AcquireCall, State};

verus! {

/// What to do next for a connection.
pub enum Step {
    /// Send this response and close.
    Reply(Response),
    /// Make this call to the power-management service, then pass its
    /// outcome to [`inhibit`] with the label.
    Acquire { label: String, call: AcquireCall },
}

/// A step, without the arguments of the call.
pub enum StepModel {
    Reply(ResponseModel),
    Acquire { label: Seq<char> },
}

/// What reading a message gives: the request, or the response that reports
/// why there is none. `None` stands for a message that could not be read.
pub open spec fn read_outcome(message: Option<Seq<char>>) -> Result<RequestModel, ResponseModel> {
    match message {
        None => Err(ResponseModel::Error { kind: ErrorKind::SocketError }),
        Some(text) => match request_of_text(text) {
            Some(request) => Ok(request),
            None => Err(ResponseModel::Error { kind: ErrorKind::InvalidRequest }),
        },
    }
}

/// The status of a label.
pub open spec fn status_of<H>(entries: Seq<(Seq<char>, H)>, label: Seq<char>) -> Status {
    if holds(entries, label) {
        Status::Inhibits
    } else {
        Status::Free
    }
}

/// The response to an inhibit request, given the outcome of the acquisition.
pub open spec fn inhibit_response<H>(entries: Seq<(Seq<char>, H)>, label: Seq<char>, lock: Option<H>) -> ResponseModel {
    if holds(entries, label) || lock is Some {
        ResponseModel::Success
    } else {
        ResponseModel::Error { kind: ErrorKind::OperationFailed }
    }
}

/// The step that a message calls for.
pub open spec fn task_step<H>(entries: Seq<(Seq<char>, H)>, message: Option<Seq<char>>) -> StepModel {
    match read_outcome(message) {
        Err(response) => StepModel::Reply(response),
        Ok(RequestModel::Inhibit { id }) => if holds(entries, id) {
            StepModel::Reply(ResponseModel::Success)
        } else {
            StepModel::Acquire { label: id }
        },
        Ok(RequestModel::Release { id }) => StepModel::Reply(ResponseModel::Success),
        Ok(RequestModel::Status { id }) => StepModel::Reply(
            ResponseModel::Status { status: status_of(entries, id) },
        ),
        Ok(RequestModel::ActiveInhibitors) => StepModel::Reply(
            ResponseModel::ActiveInhibitors { active_inhibitors: labels(entries) },
        ),
    }
}

/// The registry after the step that a message calls for: a release request
/// releases its label, and nothing else changes.
pub open spec fn task_state<H>(entries: Seq<(Seq<char>, H)>, message: Option<Seq<char>>) -> Seq<(Seq<char>, H)> {
    match read_outcome(message) {
        Ok(RequestModel::Release { id }) => released(entries, id),
        _ => entries,
    }
}

/// The characters of an optional text.
pub open spec fn text_view(message: Option<&str>) -> Option<Seq<char>> {
    match message {
        Some(text) => Some(text@),
        None => None,
    }
}

/// Whether a step is the one that the model names, with the call in its
/// fixed form.
pub open spec fn step_is(step: Step, model: StepModel) -> bool {
    match step {
        Step::Reply(response) => model == StepModel::Reply(response@),
        Step::Acquire { label, call } => model == (StepModel::Acquire { label: label@ })
            && is_acquisition_for(call, label@),
    }
}

/// Reads the request of a connection from its message. `None` stands for
/// a message that could not be read. Where there is no request, the error
/// is the response to send.
pub fn read(message: Option<&str>) -> (r: Result<Request, Response>)
    ensures
        match r {
            Ok(request) => read_outcome(text_view(message)) == Ok::<RequestModel, ResponseModel>(
                request@,
            ),
            Err(response) => read_outcome(text_view(message)) == Err::<
                RequestModel,
                ResponseModel,
            >(response@),
        },
{
    let text = match message {
        Some(text) => text,
        None => { return Err(ErrorKind::SocketError.response()); },
    };
    match Request::des(text) {
        Some(request) => Ok(request),
        None => Err(ErrorKind::InvalidRequest.response()),
    }
}

/// Serves an inhibit request, given the outcome of the acquisition: `Some`
/// with the lock that was acquired, `None` where none was.
pub fn inhibit<H>(state: &mut State<H>, id: &str, lock: Option<H>) -> (r: Response)
    ensures
        r@ == inhibit_response(old(state)@, id@, lock),
        final(state)@ == inhibited(old(state)@, id@, lock),
{
    match state.inhibit(id, lock) {
        Ok(_) => Response::Success,
        Err(_) => ErrorKind::OperationFailed.response(),
    }
}

/// Serves a release request.
pub fn release<H>(state: &mut State<H>, id: &str) -> (r: Response)
    ensures
        r@ == ResponseModel::Success,
        final(state)@ == released(old(state)@, id@),
{
    state.release(id);
    Response::Success
}

/// Serves a status request.
pub fn status<H>(state: &State<H>, id: &str) -> (r: Response)
    ensures
        r@ == (ResponseModel::Status { status: status_of(state@, id@) }),
{
    let status = if state.is_inhibited(id) {
        Status::Inhibits
    } else {
        Status::Free
    };
    Response::Status { status }
}

/// Serves a request for the labels that are held.
pub fn active_inhibitors<H>(state: &State<H>) -> (r: Response)
    ensures
        r@ == (ResponseModel::ActiveInhibitors { active_inhibitors: labels(state@) }),
{
    let active_inhibitors = state.active_inhibitors();
    Response::ActiveInhibitors { active_inhibitors }
}

/// Handles the message of one connection. `None` stands for a message that
/// could not be read.
pub fn task<H>(state: &mut State<H>, message: Option<&str>) -> (step: Step)
    ensures
        step_is(step, task_step(old(state)@, text_view(message))),
        final(state)@ == task_state(old(state)@, text_view(message)),
{
    let request = match read(message) {
        Ok(request) => request,
        Err(response) => { return Step::Reply(response); },
    };
    match request {
        Request::Inhibit { id } => match state.acquisition(id.as_str()) {
            Some(call) => Step::Acquire { label: id, call },
            None => Step::Reply(inhibit(state, id.as_str(), None)),
        },
        Request::Release { id } => Step::Reply(release(state, id.as_str())),
        Request::Status { id } => Step::Reply(status(state, id.as_str())),
        Request::ActiveInhibitors => Step::Reply(active_inhibitors(state)),
    }
}

} // verus!
