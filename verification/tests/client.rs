use doppio::client::{
    all_status, communicate, inhibit, parse_error, release, status, unexpected_response, Command,
    Exchange,
};
use doppio::protocol::{ErrorKind, Request, Response, Status};

const UNEXPECTED: &str =
    "Unexpected response from doppio-daemon. Are doppio and doppio-daemon of the same version?";

#[test]
fn sentences_for_reported_errors() {
    assert_eq!(
        parse_error(ErrorKind::SocketError, "inhibit"),
        "doppio-daemon failed to respond. Are doppio and doppio-daemon of the same version?"
    );
    assert_eq!(
        parse_error(ErrorKind::InvalidRequest, "inhibit"),
        "doppio-daemon failed did not understand the request. Are doppio and doppio-daemon of the same version?"
    );
    assert_eq!(
        parse_error(ErrorKind::OperationFailed, "inhibit"),
        "doppio-daemon failed to inhibit. Try restarting doppio-daemon"
    );
    assert_eq!(
        parse_error(ErrorKind::OperationFailed, "get status"),
        "doppio-daemon failed to get status. Try restarting doppio-daemon"
    );
    assert_eq!(unexpected_response(), UNEXPECTED);
}

#[test]
fn an_exchange_gives_the_response_or_a_sentence() {
    assert_eq!(
        communicate(&Exchange::WriteFailed),
        Err("Failed to write to doppio socket. Is doppio-daemon running?".to_string())
    );
    assert_eq!(
        communicate(&Exchange::ReadFailed),
        Err("Failed to read from doppio socket. Is doppio-daemon running?".to_string())
    );
    assert_eq!(
        communicate(&Exchange::Received("{\"type\":\"Ok\"}".to_string())),
        Ok(Response::Success)
    );
    assert_eq!(
        communicate(&Exchange::Received("{\"type\":\"Bogus\"}".to_string())),
        Err("Failed to parse doppio-daemon response. Are doppio and doppio-daemon of the same version?"
            .to_string())
    );
    assert_eq!(
        communicate(&Exchange::Received(String::new())),
        Err("Failed to parse doppio-daemon response. Are doppio and doppio-daemon of the same version?"
            .to_string())
    );
}

#[test]
fn answers_to_inhibit_and_release() {
    let listing = Response::ActiveInhibitors { active_inhibitors: vec![] };
    let free = Response::Status { status: Status::Free };
    let failed = Response::Error { kind: ErrorKind::OperationFailed };
    assert_eq!(inhibit(&Response::Success), Ok(()));
    assert_eq!(release(&Response::Success), Ok(()));
    assert_eq!(inhibit(&listing), Err(UNEXPECTED.to_string()));
    assert_eq!(release(&listing), Err(UNEXPECTED.to_string()));
    assert_eq!(inhibit(&free), Err(UNEXPECTED.to_string()));
    assert_eq!(release(&free), Err(UNEXPECTED.to_string()));
    assert_eq!(
        inhibit(&failed),
        Err("doppio-daemon failed to inhibit. Try restarting doppio-daemon".to_string())
    );
    assert_eq!(
        release(&failed),
        Err("doppio-daemon failed to inhibit. Try restarting doppio-daemon".to_string())
    );
}

#[test]
fn answers_to_status() {
    assert_eq!(status(&Response::Status { status: Status::Inhibits }), Ok("inhibits".to_string()));
    assert_eq!(status(&Response::Status { status: Status::Free }), Ok("free".to_string()));
    assert_eq!(status(&Response::Success), Err(UNEXPECTED.to_string()));
    assert_eq!(
        status(&Response::ActiveInhibitors { active_inhibitors: vec![] }),
        Err(UNEXPECTED.to_string())
    );
    assert_eq!(
        status(&Response::Error { kind: ErrorKind::OperationFailed }),
        Err("doppio-daemon failed to get status. Try restarting doppio-daemon".to_string())
    );
}

#[test]
fn answers_to_all_status() {
    assert_eq!(
        all_status(&Response::ActiveInhibitors {
            active_inhibitors: vec!["x".to_string(), "y".to_string()]
        }),
        Ok(vec!["x".to_string(), "y".to_string()])
    );
    assert_eq!(all_status(&Response::Success), Err(UNEXPECTED.to_string()));
    assert_eq!(
        all_status(&Response::Status { status: Status::Free }),
        Err(UNEXPECTED.to_string())
    );
    assert_eq!(
        all_status(&Response::Error { kind: ErrorKind::SocketError }),
        Err("doppio-daemon failed to respond. Are doppio and doppio-daemon of the same version?"
            .to_string())
    );
}

#[test]
fn a_command_sends_its_request() {
    assert_eq!(
        Command::Inhibit { id: "a".to_string() }.request(),
        Request::Inhibit { id: "a".to_string() }
    );
    assert_eq!(
        Command::Release { id: "a".to_string() }.request(),
        Request::Release { id: "a".to_string() }
    );
    assert_eq!(
        Command::Status { id: Some("a".to_string()) }.request(),
        Request::Status { id: "a".to_string() }
    );
    assert_eq!(Command::Status { id: None }.request(), Request::ActiveInhibitors);
}

#[test]
fn a_command_reports_the_lines_to_print() {
    let inhibit = Command::Inhibit { id: "a".to_string() };
    let release = Command::Release { id: "a".to_string() };
    let one = Command::Status { id: Some("a".to_string()) };
    let all = Command::Status { id: None };
    let listing =
        Response::ActiveInhibitors { active_inhibitors: vec!["x".to_string(), "y".to_string()] };
    assert_eq!(inhibit.report(&Response::Success), Ok(vec![]));
    assert_eq!(release.report(&Response::Success), Ok(vec![]));
    assert_eq!(
        one.report(&Response::Status { status: Status::Inhibits }),
        Ok(vec!["inhibits".to_string()])
    );
    assert_eq!(all.report(&listing), Ok(vec!["x".to_string(), "y".to_string()]));
    assert_eq!(one.report(&listing), Err(UNEXPECTED.to_string()));
    assert_eq!(all.report(&Response::Success), Err(UNEXPECTED.to_string()));
    assert_eq!(
        release.report(&Response::Error { kind: ErrorKind::OperationFailed }),
        Err("doppio-daemon failed to inhibit. Try restarting doppio-daemon".to_string())
    );
}
