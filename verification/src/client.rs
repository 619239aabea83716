//! What the client makes of the daemon's answers.
//!
//! The client sends one request and reads one response. The functions here
//! turn what came back into the lines to print, or into the sentence that
//! says what went wrong.

use vstd::prelude::*;
use vstd::string::StringExecFns;
use crate::protocol::{labels_of, response_of_text, ErrorKind, Request, RequestModel, Response, ResponseModel, Status};
use crate::text::owned;

verus! {

/// What the command line asks for.
#[derive(Clone, Debug, PartialEq, Eq)]
pub enum Command {
    Inhibit { id: String },
    Release { id: String },
    Status { id: Option<String> },
}

/// How the exchange with the daemon went.
pub enum Exchange {
    /// The request could not be written.
    WriteFailed,
    /// The response could not be read.
    ReadFailed,
    /// The daemon sent this text.
    Received(String),
}

/// The sentence for an error that the daemon reported, for the operation
/// of the given name.
pub open spec fn error_text(kind: ErrorKind, operation_name: Seq<char>) -> Seq<char> {
    match kind {
        ErrorKind::SocketError =>
            "doppio-daemon failed to respond. Are doppio and doppio-daemon of the same version?"@,
        ErrorKind::InvalidRequest =>
            "doppio-daemon failed did not understand the request. Are doppio and doppio-daemon of the same version?"@,
        ErrorKind::OperationFailed => "doppio-daemon failed to "@ + operation_name
            + ". Try restarting doppio-daemon"@,
    }
}

/// The sentence for a response of the wrong variant.
pub open spec fn unexpected_text() -> Seq<char> {
    "Unexpected response from doppio-daemon. Are doppio and doppio-daemon of the same version?"@
}

/// What an exchange gives: the response, or the sentence that says why
/// there is none.
pub open spec fn exchange_result(exchange: Exchange) -> Result<ResponseModel, Seq<char>> {
    match exchange {
        Exchange::WriteFailed => Err("Failed to write to doppio socket. Is doppio-daemon running?"@),
        Exchange::ReadFailed => Err("Failed to read from doppio socket. Is doppio-daemon running?"@),
        Exchange::Received(text) => match response_of_text(text@) {
            Some(response) => Ok(response),
            None => Err(
                "Failed to parse doppio-daemon response. Are doppio and doppio-daemon of the same version?"@,
            ),
        },
    }
}

/// What the answer to an inhibit or a release request means.
pub open spec fn done_result(response: ResponseModel) -> Result<(), Seq<char>> {
    match response {
        ResponseModel::Success => Ok(()),
        ResponseModel::Error { kind } => Err(error_text(kind, "inhibit"@)),
        _ => Err(unexpected_text()),
    }
}

/// What the answer to a status request means: the line to print.
pub open spec fn status_result(response: ResponseModel) -> Result<Seq<char>, Seq<char>> {
    match response {
        ResponseModel::Status { status: Status::Inhibits } => Ok("inhibits"@),
        ResponseModel::Status { status: Status::Free } => Ok("free"@),
        ResponseModel::Error { kind } => Err(error_text(kind, "get status"@)),
        _ => Err(unexpected_text()),
    }
}

/// What the answer to a request for all labels means: the lines to print.
pub open spec fn all_status_result(response: ResponseModel) -> Result<Seq<Seq<char>>, Seq<char>> {
    match response {
        ResponseModel::ActiveInhibitors { active_inhibitors } => Ok(active_inhibitors),
        ResponseModel::Error { kind } => Err(error_text(kind, "get status"@)),
        _ => Err(unexpected_text()),
    }
}

/// The request that a command sends.
pub open spec fn command_request(command: Command) -> RequestModel {
    match command {
        Command::Inhibit { id } => RequestModel::Inhibit { id: id@ },
        Command::Release { id } => RequestModel::Release { id: id@ },
        Command::Status { id: Some(id) } => RequestModel::Status { id: id@ },
        Command::Status { id: None } => RequestModel::ActiveInhibitors,
    }
}

/// The lines that a command prints for a response, or the sentence that
/// says what went wrong.
pub open spec fn command_report(command: Command, response: ResponseModel) -> Result<Seq<Seq<char>>, Seq<char>> {
    match command {
        Command::Inhibit { .. } | Command::Release { .. } => match done_result(response) {
            Ok(_) => Ok(Seq::empty()),
            Err(text) => Err(text),
        },
        Command::Status { id: Some(_) } => match status_result(response) {
            Ok(line) => Ok(seq![line]),
            Err(text) => Err(text),
        },
        Command::Status { id: None } => all_status_result(response),
    }
}

/// The sentence for an error that the daemon reported.
pub fn parse_error(kind: ErrorKind, operation_name: &str) -> (r: String)
    ensures
        r@ == error_text(kind, operation_name@),
{
    match kind {
        ErrorKind::SocketError => owned(
            "doppio-daemon failed to respond. Are doppio and doppio-daemon of the same version?",
        ),
        ErrorKind::InvalidRequest => owned(
            "doppio-daemon failed did not understand the request. Are doppio and doppio-daemon of the same version?",
        ),
        ErrorKind::OperationFailed => {
            let mut text = owned("doppio-daemon failed to ");
            text.append(operation_name);
            text.append(". Try restarting doppio-daemon");
            text
        },
    }
}

/// The sentence for a response of the wrong variant.
pub fn unexpected_response() -> (r: String)
    ensures
        r@ == unexpected_text(),
{
    owned("Unexpected response from doppio-daemon. Are doppio and doppio-daemon of the same version?")
}

/// Reads the response out of an exchange with the daemon.
pub fn communicate(exchange: &Exchange) -> (r: Result<Response, String>)
    ensures
        match r {
            Ok(response) => exchange_result(*exchange) == Ok::<ResponseModel, Seq<char>>(response@),
            Err(text) => exchange_result(*exchange) == Err::<ResponseModel, Seq<char>>(text@),
        },
{
    match exchange {
        Exchange::WriteFailed => Err(
            owned("Failed to write to doppio socket. Is doppio-daemon running?"),
        ),
        Exchange::ReadFailed => Err(
            owned("Failed to read from doppio socket. Is doppio-daemon running?"),
        ),
        Exchange::Received(text) => match Response::des(text.as_str()) {
            Some(response) => Ok(response),
            None => Err(
                owned(
                    "Failed to parse doppio-daemon response. Are doppio and doppio-daemon of the same version?",
                ),
            ),
        },
    }
}

/// Reads the answer to an inhibit request.
pub fn inhibit(response: &Response) -> (r: Result<(), String>)
    ensures
        match r {
            Ok(_) => done_result(response@) is Ok,
            Err(text) => done_result(response@) == Err::<(), Seq<char>>(text@),
        },
{
    match response {
        Response::Success => Ok(()),
        Response::Status { .. } => Err(unexpected_response()),
        Response::ActiveInhibitors { .. } => Err(unexpected_response()),
        Response::Error { kind } => Err(parse_error(*kind, "inhibit")),
    }
}

/// Reads the answer to a release request. A failure is reported in the
/// words of a failed inhibit.
pub fn release(response: &Response) -> (r: Result<(), String>)
    ensures
        match r {
            Ok(_) => done_result(response@) is Ok,
            Err(text) => done_result(response@) == Err::<(), Seq<char>>(text@),
        },
{
    match response {
        Response::Success => Ok(()),
        Response::Status { .. } => Err(unexpected_response()),
        Response::ActiveInhibitors { .. } => Err(unexpected_response()),
        Response::Error { kind } => Err(parse_error(*kind, "inhibit")),
    }
}

/// Reads the answer to a status request: the line to print.
pub fn status(response: &Response) -> (r: Result<String, String>)
    ensures
        match r {
            Ok(line) => status_result(response@) == Ok::<Seq<char>, Seq<char>>(line@),
            Err(text) => status_result(response@) == Err::<Seq<char>, Seq<char>>(text@),
        },
{
    match response {
        Response::Status { status } => match status {
            Status::Inhibits => Ok(owned("inhibits")),
            Status::Free => Ok(owned("free")),
        },
        Response::Success => Err(unexpected_response()),
        Response::ActiveInhibitors { .. } => Err(unexpected_response()),
        Response::Error { kind } => Err(parse_error(*kind, "get status")),
    }
}

/// Reads the answer to a request for all labels: the lines to print, one
/// for each label, in the order of the response.
pub fn all_status(response: &Response) -> (r: Result<Vec<String>, String>)
    ensures
        match r {
            Ok(lines) => all_status_result(response@) == Ok::<Seq<Seq<char>>, Seq<char>>(
                labels_of(lines@),
            ),
            Err(text) => all_status_result(response@) == Err::<Seq<Seq<char>>, Seq<char>>(text@),
        },
{
    match response {
        Response::ActiveInhibitors { active_inhibitors } => Ok(active_inhibitors.clone()),
        Response::Success => Err(unexpected_response()),
        Response::Status { .. } => Err(unexpected_response()),
        Response::Error { kind } => Err(parse_error(*kind, "get status")),
    }
}

impl Command {
    /// The request that the command sends.
    pub fn request(&self) -> (r: Request)
        ensures
            r@ == command_request(*self),
    {
        match self {
            Command::Inhibit { id } => Request::Inhibit { id: id.clone() },
            Command::Release { id } => Request::Release { id: id.clone() },
            Command::Status { id: Some(id) } => Request::Status { id: id.clone() },
            Command::Status { id: None } => Request::ActiveInhibitors,
        }
    }

    /// The lines to print for the response to the command's request.
    pub fn report(&self, response: &Response) -> (r: Result<Vec<String>, String>)
        ensures
            match r {
                Ok(lines) => command_report(*self, response@) == Ok::<Seq<Seq<char>>, Seq<char>>(
                    labels_of(lines@),
                ),
                Err(text) => command_report(*self, response@) == Err::<Seq<Seq<char>>, Seq<char>>(
                    text@,
                ),
            },
    {
        match self {
            Command::Inhibit { .. } => match inhibit(response) {
                Ok(_) => {
                    let lines: Vec<String> = Vec::new();
                    assert(labels_of(lines@) =~= Seq::<Seq<char>>::empty());
                    Ok(lines)
                },
                Err(text) => Err(text),
            },
            Command::Release { .. } => match release(response) {
                Ok(_) => {
                    let lines: Vec<String> = Vec::new();
                    assert(labels_of(lines@) =~= Seq::<Seq<char>>::empty());
                    Ok(lines)
                },
                Err(text) => Err(text),
            },
            Command::Status { id: Some(_) } => match status(response) {
                Ok(line) => {
                    let mut lines: Vec<String> = Vec::new();
                    lines.push(line);
                    assert(labels_of(lines@) =~= seq![line@]);
                    Ok(lines)
                },
                Err(text) => Err(text),
            },
            Command::Status { id: None } => all_status(response),
        }
    }
}

} // verus!
