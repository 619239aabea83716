use doppio::protocol::{ErrorKind, Request, Response, Status};

fn label(s: &str) -> String {
    s.to_string()
}

#[test]
fn request_texts_are_exact() {
    assert_eq!(
        Request::Inhibit { id: label("backup-job") }.ser(),
        "{\"type\":\"Inhibit\",\"id\":\"backup-job\"}"
    );
    assert_eq!(
        Request::Release { id: label("backup-job") }.ser(),
        "{\"type\":\"Release\",\"id\":\"backup-job\"}"
    );
    assert_eq!(
        Request::Status { id: label("backup-job") }.ser(),
        "{\"type\":\"Status\",\"id\":\"backup-job\"}"
    );
    assert_eq!(Request::ActiveInhibitors.ser(), "{\"type\":\"ActiveInhibitors\"}");
}

#[test]
fn response_texts_are_exact() {
    assert_eq!(Response::Success.ser(), "{\"type\":\"Ok\"}");
    assert_eq!(
        Response::Status { status: Status::Inhibits }.ser(),
        "{\"type\":\"Status\",\"status\":\"Inhibits\"}"
    );
    assert_eq!(
        Response::Status { status: Status::Free }.ser(),
        "{\"type\":\"Status\",\"status\":\"Free\"}"
    );
    assert_eq!(
        Response::ActiveInhibitors { active_inhibitors: vec![label("x"), label("y")] }.ser(),
        "{\"type\":\"ActiveInhibitors\",\"active_inhibitors\":[\"x\",\"y\"]}"
    );
    assert_eq!(
        Response::ActiveInhibitors { active_inhibitors: vec![] }.ser(),
        "{\"type\":\"ActiveInhibitors\",\"active_inhibitors\":[]}"
    );
    assert_eq!(
        Response::Error { kind: ErrorKind::SocketError }.ser(),
        "{\"type\":\"Error\",\"kind\":\"SocketError\"}"
    );
    assert_eq!(
        Response::Error { kind: ErrorKind::InvalidRequest }.ser(),
        "{\"type\":\"Error\",\"kind\":\"InvalidRequest\"}"
    );
    assert_eq!(
        Response::Error { kind: ErrorKind::OperationFailed }.ser(),
        "{\"type\":\"Error\",\"kind\":\"OperationFailed\"}"
    );
}

#[test]
fn requests_are_read_from_their_texts() {
    assert_eq!(
        Request::des("{\"type\":\"Inhibit\",\"id\":\"backup-job\"}"),
        Some(Request::Inhibit { id: label("backup-job") })
    );
    assert_eq!(
        Request::des("{\"type\":\"Release\",\"id\":\"backup-job\"}"),
        Some(Request::Release { id: label("backup-job") })
    );
    assert_eq!(
        Request::des("{\"type\":\"Status\",\"id\":\"backup-job\"}"),
        Some(Request::Status { id: label("backup-job") })
    );
    assert_eq!(Request::des("{\"type\":\"ActiveInhibitors\"}"), Some(Request::ActiveInhibitors));
}

#[test]
fn responses_are_read_from_their_texts() {
    assert_eq!(Response::des("{\"type\":\"Ok\"}"), Some(Response::Success));
    assert_eq!(
        Response::des("{\"type\":\"Status\",\"status\":\"Inhibits\"}"),
        Some(Response::Status { status: Status::Inhibits })
    );
    assert_eq!(
        Response::des("{\"type\":\"Status\",\"status\":\"Free\"}"),
        Some(Response::Status { status: Status::Free })
    );
    assert_eq!(
        Response::des("{\"type\":\"ActiveInhibitors\",\"active_inhibitors\":[\"x\",\"y\"]}"),
        Some(Response::ActiveInhibitors { active_inhibitors: vec![label("x"), label("y")] })
    );
    assert_eq!(
        Response::des("{\"type\":\"Error\",\"kind\":\"OperationFailed\"}"),
        Some(Response::Error { kind: ErrorKind::OperationFailed })
    );
}

#[test]
fn every_request_survives_the_wire() {
    let requests = vec![
        Request::Inhibit { id: label("a") },
        Request::Release { id: label("b") },
        Request::Status { id: label("c") },
        Request::ActiveInhibitors,
        Request::Inhibit { id: label("") },
        Request::Inhibit { id: label("with \"quotes\" and \\ and \n newline") },
        Request::Status { id: label("caf\u{e9} \u{1f4a4}") },
    ];
    for request in requests {
        let text = request.ser();
        assert_eq!(Request::des(&text), Some(request.clone()));
        assert_eq!(Request::des(&text).unwrap().ser(), text);
    }
}

#[test]
fn every_response_survives_the_wire() {
    let responses = vec![
        Response::Success,
        Response::Status { status: Status::Inhibits },
        Response::Status { status: Status::Free },
        Response::ActiveInhibitors { active_inhibitors: vec![] },
        Response::ActiveInhibitors { active_inhibitors: vec![label("x"), label("y \"z\"")] },
        Response::Error { kind: ErrorKind::SocketError },
        Response::Error { kind: ErrorKind::InvalidRequest },
        Response::Error { kind: ErrorKind::OperationFailed },
    ];
    for response in responses {
        let text = response.ser();
        assert_eq!(Response::des(&text), Some(response.clone()));
        assert_eq!(Response::des(&text).unwrap().ser(), text);
    }
}

#[test]
fn a_label_is_escaped_on_the_wire() {
    assert_eq!(
        Request::Inhibit { id: label("a\"b") }.ser(),
        "{\"type\":\"Inhibit\",\"id\":\"a\\\"b\"}"
    );
    assert_eq!(
        Request::des("{\"type\":\"Inhibit\",\"id\":\"a\\u0041\"}"),
        Some(Request::Inhibit { id: label("aA") })
    );
}

#[test]
fn text_that_is_no_request_is_refused() {
    assert_eq!(Request::des(""), None);
    assert_eq!(Request::des("not json"), None);
    assert_eq!(Request::des("{\"type\":\"Bogus\"}"), None);
    assert_eq!(Request::des("{\"type\":\"Inhibit\"}"), None);
    assert_eq!(Request::des("{\"type\":\"Inhibit\",\"id\":7}"), None);
    assert_eq!(Request::des("{\"id\":\"x\"}"), None);
    assert_eq!(Request::des("{\"type\":7,\"id\":\"x\"}"), None);
    assert_eq!(Request::des("[\"Inhibit\",\"x\"]"), None);
    assert_eq!(Request::des("\"Inhibit\""), None);
    assert_eq!(Request::des("{\"type\":\"Inhibit\",\"id\":\"x\"} trailing"), None);
    assert_eq!(Request::des("{\"type\":\"inhibit\",\"id\":\"x\"}"), None);
    assert_eq!(Request::des("{\"type\":\"Ok\"}"), None);
}

#[test]
fn text_that_is_no_response_is_refused() {
    assert_eq!(Response::des(""), None);
    assert_eq!(Response::des("{\"type\":\"Bogus\"}"), None);
    assert_eq!(Response::des("{\"type\":\"Status\"}"), None);
    assert_eq!(Response::des("{\"type\":\"Status\",\"status\":\"Maybe\"}"), None);
    assert_eq!(Response::des("{\"type\":\"Error\",\"kind\":\"Other\"}"), None);
    assert_eq!(Response::des("{\"type\":\"Error\"}"), None);
    assert_eq!(Response::des("{\"type\":\"ActiveInhibitors\"}"), None);
    assert_eq!(Response::des("{\"type\":\"ActiveInhibitors\",\"active_inhibitors\":\"x\"}"), None);
    assert_eq!(
        Response::des("{\"type\":\"ActiveInhibitors\",\"active_inhibitors\":[\"x\",1]}"),
        None
    );
    assert_eq!(Response::des("{\"type\":\"Inhibit\",\"id\":\"x\"}"), None);
}

#[test]
fn members_that_a_variant_does_not_name_are_ignored() {
    assert_eq!(
        Request::des("{\"extra\":1,\"id\":\"x\",\"type\":\"Release\"}"),
        Some(Request::Release { id: label("x") })
    );
    assert_eq!(
        Request::des(" { \"type\" : \"ActiveInhibitors\" , \"id\" : [] } "),
        Some(Request::ActiveInhibitors)
    );
    assert_eq!(Response::des("{\"type\":\"Ok\",\"status\":\"Free\"}"), Some(Response::Success));
}

#[test]
fn values_are_read_member_by_member() {
    let mut object = serde_json::Map::new();
    object.insert(label("type"), serde_json::Value::String(label("Status")));
    object.insert(label("id"), serde_json::Value::String(label("x")));
    let value = serde_json::Value::Object(object);
    assert_eq!(Request::from_value(&value), Some(Request::Status { id: label("x") }));
    assert_eq!(Response::from_value(&value), None);

    let text = serde_json::Value::String(label("Status"));
    assert_eq!(Request::from_value(&text), None);
    assert_eq!(Response::from_value(&text), None);

    let mut listing = serde_json::Map::new();
    listing.insert(label("type"), serde_json::Value::String(label("ActiveInhibitors")));
    listing.insert(
        label("active_inhibitors"),
        serde_json::Value::Array(vec![
            serde_json::Value::String(label("x")),
            serde_json::Value::String(label("y")),
        ]),
    );
    assert_eq!(
        Response::from_value(&serde_json::Value::Object(listing)),
        Some(Response::ActiveInhibitors { active_inhibitors: vec![label("x"), label("y")] })
    );
}

#[test]
fn values_are_built_member_by_member() {
    let value = Request::Inhibit { id: label("x") }.to_value();
    let object = value.as_object().unwrap();
    let keys: Vec<&String> = object.keys().collect();
    assert_eq!(keys, vec!["type", "id"]);
    assert_eq!(object.get("type").unwrap().as_str(), Some("Inhibit"));
    assert_eq!(object.get("id").unwrap().as_str(), Some("x"));

    let value = Response::ActiveInhibitors { active_inhibitors: vec![label("x"), label("y")] }
        .to_value();
    let items = value.get("active_inhibitors").unwrap().as_array().unwrap();
    assert_eq!(items.len(), 2);
    assert_eq!(items[0].as_str(), Some("x"));
    assert_eq!(items[1].as_str(), Some("y"));
    assert_eq!(value.get("type").unwrap().as_str(), Some("ActiveInhibitors"));

    assert_eq!(Response::Success.to_value().as_object().unwrap().len(), 1);
}

#[test]
fn names_of_statuses_and_kinds() {
    assert_eq!(Status::Inhibits.name(), "Inhibits");
    assert_eq!(Status::Free.name(), "Free");
    assert_eq!(Status::from_name("Inhibits"), Some(Status::Inhibits));
    assert_eq!(Status::from_name("Free"), Some(Status::Free));
    assert_eq!(Status::from_name("free"), None);
    assert_eq!(ErrorKind::SocketError.name(), "SocketError");
    assert_eq!(ErrorKind::InvalidRequest.name(), "InvalidRequest");
    assert_eq!(ErrorKind::OperationFailed.name(), "OperationFailed");
    assert_eq!(ErrorKind::from_name("SocketError"), Some(ErrorKind::SocketError));
    assert_eq!(ErrorKind::from_name("InvalidRequest"), Some(ErrorKind::InvalidRequest));
    assert_eq!(ErrorKind::from_name("OperationFailed"), Some(ErrorKind::OperationFailed));
    assert_eq!(ErrorKind::from_name(""), None);
}

#[test]
fn an_error_kind_gives_its_response() {
    assert_eq!(
        ErrorKind::SocketError.response(),
        Response::Error { kind: ErrorKind::SocketError }
    );
    assert_eq!(
        ErrorKind::InvalidRequest.response(),
        Response::Error { kind: ErrorKind::InvalidRequest }
    );
    assert_eq!(
        ErrorKind::OperationFailed.response(),
        Response::Error { kind: ErrorKind::OperationFailed }
    );
}
