//! The wire protocol: requests, responses, and their JSON form.
//!
//! A message is one JSON object. Its member `type` selects the variant; the
//! other members carry the variant's fields. Members that a variant does not
//! name are ignored when reading.

use vstd::prelude::*;
use crate::json::{as_items, as_text, doc_of, find_member, list_value, member, object_value, parse, parsed, render, rendered, text_value, Doc};
use crate::text::{owned, same_text};

verus! {

/// What a client asks of the daemon.
#[derive(Clone, Debug, PartialEq, Eq)]
pub enum Request {
    Inhibit { id: String },
    Release { id: String },
    Status { id: String },
    ActiveInhibitors,
}

/// What the daemon answers.
#[derive(Clone, Debug, PartialEq, Eq)]
pub enum Response {
    Success,
    Status { status: Status },
    ActiveInhibitors { active_inhibitors: Vec<String> },
    Error { kind: ErrorKind },
}

/// Whether a label holds an inhibitor.
#[derive(Clone, Copy, Debug, PartialEq, Eq, Structural)]
pub enum Status {
    Inhibits,
    Free,
}

/// Why a request was not served.
#[derive(Clone, Copy, Debug, PartialEq, Eq, Structural)]
pub enum ErrorKind {
    SocketError,
    InvalidRequest,
    OperationFailed,
}

/// A request, with its labels as sequences of characters.
pub enum RequestModel {
    Inhibit { id: Seq<char> },
    Release { id: Seq<char> },
    Status { id: Seq<char> },
    ActiveInhibitors,
}

/// A response, with its labels as sequences of characters.
pub enum ResponseModel {
    Success,
    Status { status: Status },
    ActiveInhibitors { active_inhibitors: Seq<Seq<char>> },
    Error { kind: ErrorKind },
}

impl View for Request {
    type V = RequestModel;

    open spec fn view(&self) -> RequestModel {
        match *self {
            Request::Inhibit { id } => RequestModel::Inhibit { id: id@ },
            Request::Release { id } => RequestModel::Release { id: id@ },
            Request::Status { id } => RequestModel::Status { id: id@ },
            Request::ActiveInhibitors => RequestModel::ActiveInhibitors,
        }
    }
}

impl View for Response {
    type V = ResponseModel;

    open spec fn view(&self) -> ResponseModel {
        match *self {
            Response::Success => ResponseModel::Success,
            Response::Status { status } => ResponseModel::Status { status },
            Response::ActiveInhibitors { active_inhibitors } => ResponseModel::ActiveInhibitors {
                active_inhibitors: labels_of(active_inhibitors@),
            },
            Response::Error { kind } => ResponseModel::Error { kind },
        }
    }
}

/// The labels that a list of strings holds, in its order.
pub open spec fn labels_of(strings: Seq<String>) -> Seq<Seq<char>> {
    strings.map_values(|s: String| s@)
}

/// The view of an optional request.
pub open spec fn request_view(r: Option<Request>) -> Option<RequestModel> {
    match r {
        Some(request) => Some(request@),
        None => None,
    }
}

/// An object with the member `type` alone.
pub open spec fn tagged(tag: Seq<char>) -> Doc {
    Doc::Object(seq![("type"@, Doc::Text(tag))])
}

/// An object with the member `type` and one text member after it.
pub open spec fn tagged_text(tag: Seq<char>, key: Seq<char>, text: Seq<char>) -> Doc {
    Doc::Object(seq![("type"@, Doc::Text(tag)), (key, Doc::Text(text))])
}

/// The document that stands for a request.
pub open spec fn request_doc(r: RequestModel) -> Doc {
    match r {
        RequestModel::Inhibit { id } => tagged_text("Inhibit"@, "id"@, id),
        RequestModel::Release { id } => tagged_text("Release"@, "id"@, id),
        RequestModel::Status { id } => tagged_text("Status"@, "id"@, id),
        RequestModel::ActiveInhibitors => tagged("ActiveInhibitors"@),
    }
}

/// The text member of a document under a key, if it has one.
pub open spec fn text_member(doc: Doc, key: Seq<char>) -> Option<Seq<char>> {
    match doc.member(key) {
        Some(m) => m.text(),
        None => None,
    }
}

/// The request that a document stands for, if it stands for one.
pub open spec fn decode_request(doc: Doc) -> Option<RequestModel> {
    match text_member(doc, "type"@) {
        Some(tag) => {
            if tag == "Inhibit"@ {
                match text_member(doc, "id"@) {
                    Some(id) => Some(RequestModel::Inhibit { id }),
                    None => None,
                }
            } else if tag == "Release"@ {
                match text_member(doc, "id"@) {
                    Some(id) => Some(RequestModel::Release { id }),
                    None => None,
                }
            } else if tag == "Status"@ {
                match text_member(doc, "id"@) {
                    Some(id) => Some(RequestModel::Status { id }),
                    None => None,
                }
            } else if tag == "ActiveInhibitors"@ {
                Some(RequestModel::ActiveInhibitors)
            } else {
                None
            }
        },
        None => None,
    }
}

/// The request that a text stands for: the text parses as JSON, and the
/// document stands for a request.
pub open spec fn request_of_text(text: Seq<char>) -> Option<RequestModel> {
    match parsed(text) {
        Some(doc) => decode_request(doc),
        None => None,
    }
}

/// Reads the text member of a value under a key.
fn read_text<'a>(value: &'a serde_json::Value, key: &str) -> (r: Option<&'a str>)
    ensures
        match r {
            Some(s) => text_member(doc_of(*value), key@) == Some(s@),
            None => text_member(doc_of(*value), key@) is None,
        },
{
    match member(value, key) {
        Some(m) => as_text(m),
        None => None,
    }
}

impl Request {
    /// Reads a request from a parsed JSON value.
    pub fn from_value(value: &serde_json::Value) -> (r: Option<Request>)
        ensures
            request_view(r) == decode_request(doc_of(*value)),
    {
        let tag = match read_text(value, "type") {
            Some(tag) => tag,
            None => { return None; },
        };
        if same_text(tag, "Inhibit") {
            match read_text(value, "id") {
                Some(id) => Some(Request::Inhibit { id: owned(id) }),
                None => None,
            }
        } else if same_text(tag, "Release") {
            match read_text(value, "id") {
                Some(id) => Some(Request::Release { id: owned(id) }),
                None => None,
            }
        } else if same_text(tag, "Status") {
            match read_text(value, "id") {
                Some(id) => Some(Request::Status { id: owned(id) }),
                None => None,
            }
        } else if same_text(tag, "ActiveInhibitors") {
            Some(Request::ActiveInhibitors)
        } else {
            None
        }
    }

    /// Reads a request from its wire text. Text that is not JSON, or not a
    /// request, gives `None`.
    pub fn des(data: &str) -> (r: Option<Request>)
        ensures
            request_view(r) == request_of_text(data@),
    {
        match parse(data) {
            Ok(value) => Request::from_value(&value),
            Err(_) => None,
        }
    }
}

/// The view of an optional response.
pub open spec fn response_view(r: Option<Response>) -> Option<ResponseModel> {
    match r {
        Some(response) => Some(response@),
        None => None,
    }
}

/// The name of a status on the wire.
pub open spec fn status_name(status: Status) -> Seq<char> {
    match status {
        Status::Inhibits => "Inhibits"@,
        Status::Free => "Free"@,
    }
}

/// The status that a name stands for.
pub open spec fn status_of_name(name: Seq<char>) -> Option<Status> {
    if name == "Inhibits"@ {
        Some(Status::Inhibits)
    } else if name == "Free"@ {
        Some(Status::Free)
    } else {
        None
    }
}

/// The name of an error kind on the wire.
pub open spec fn kind_name(kind: ErrorKind) -> Seq<char> {
    match kind {
        ErrorKind::SocketError => "SocketError"@,
        ErrorKind::InvalidRequest => "InvalidRequest"@,
        ErrorKind::OperationFailed => "OperationFailed"@,
    }
}

/// The error kind that a name stands for.
pub open spec fn kind_of_name(name: Seq<char>) -> Option<ErrorKind> {
    if name == "SocketError"@ {
        Some(ErrorKind::SocketError)
    } else if name == "InvalidRequest"@ {
        Some(ErrorKind::InvalidRequest)
    } else if name == "OperationFailed"@ {
        Some(ErrorKind::OperationFailed)
    } else {
        None
    }
}

/// The documents of a list of labels, each a text.
pub open spec fn text_docs(labels: Seq<Seq<char>>) -> Seq<Doc> {
    labels.map_values(|label: Seq<char>| Doc::Text(label))
}

/// The labels that a list of documents holds, if each is a text.
pub open spec fn texts_of(items: Seq<Doc>) -> Option<Seq<Seq<char>>> {
    if forall|i: int| 0 <= i < items.len() ==> (#[trigger] items[i]) is Text {
        Some(items.map_values(|d: Doc| d->Text_0))
    } else {
        None
    }
}

/// The document that stands for a response.
pub open spec fn response_doc(r: ResponseModel) -> Doc {
    match r {
        ResponseModel::Success => tagged("Ok"@),
        ResponseModel::Status { status } => tagged_text("Status"@, "status"@, status_name(status)),
        ResponseModel::ActiveInhibitors { active_inhibitors } => Doc::Object(
            seq![
                ("type"@, Doc::Text("ActiveInhibitors"@)),
                ("active_inhibitors"@, Doc::List(text_docs(active_inhibitors))),
            ],
        ),
        ResponseModel::Error { kind } => tagged_text("Error"@, "kind"@, kind_name(kind)),
    }
}

/// The response that a document stands for, if it stands for one.
pub open spec fn decode_response(doc: Doc) -> Option<ResponseModel> {
    match text_member(doc, "type"@) {
        Some(tag) => {
            if tag == "Ok"@ {
                Some(ResponseModel::Success)
            } else if tag == "Status"@ {
                match text_member(doc, "status"@) {
                    Some(name) => match status_of_name(name) {
                        Some(status) => Some(ResponseModel::Status { status }),
                        None => None,
                    },
                    None => None,
                }
            } else if tag == "ActiveInhibitors"@ {
                match doc.member("active_inhibitors"@) {
                    Some(Doc::List(items)) => match texts_of(items) {
                        Some(active_inhibitors) => Some(
                            ResponseModel::ActiveInhibitors { active_inhibitors },
                        ),
                        None => None,
                    },
                    _ => None,
                }
            } else if tag == "Error"@ {
                match text_member(doc, "kind"@) {
                    Some(name) => match kind_of_name(name) {
                        Some(kind) => Some(ResponseModel::Error { kind }),
                        None => None,
                    },
                    None => None,
                }
            } else {
                None
            }
        },
        None => None,
    }
}

/// The response that a text stands for: the text parses as JSON, and the
/// document stands for a response.
pub open spec fn response_of_text(text: Seq<char>) -> Option<ResponseModel> {
    match parsed(text) {
        Some(doc) => decode_response(doc),
        None => None,
    }
}

impl Status {
    /// The status that a wire name stands for.
    pub fn from_name(name: &str) -> (r: Option<Status>)
        ensures
            r == status_of_name(name@),
    {
        if same_text(name, "Inhibits") {
            Some(Status::Inhibits)
        } else if same_text(name, "Free") {
            Some(Status::Free)
        } else {
            None
        }
    }

    /// The wire name of the status.
    pub fn name(self) -> (r: String)
        ensures
            r@ == status_name(self),
    {
        match self {
            Status::Inhibits => owned("Inhibits"),
            Status::Free => owned("Free"),
        }
    }
}

impl ErrorKind {
    /// The response that reports this kind of error.
    pub fn response(self) -> (r: Response)
        ensures
            r@ == (ResponseModel::Error { kind: self }),
    {
        Response::Error { kind: self }
    }

    /// The error kind that a wire name stands for.
    pub fn from_name(name: &str) -> (r: Option<ErrorKind>)
        ensures
            r == kind_of_name(name@),
    {
        if same_text(name, "SocketError") {
            Some(ErrorKind::SocketError)
        } else if same_text(name, "InvalidRequest") {
            Some(ErrorKind::InvalidRequest)
        } else if same_text(name, "OperationFailed") {
            Some(ErrorKind::OperationFailed)
        } else {
            None
        }
    }

    /// The wire name of the error kind.
    pub fn name(self) -> (r: String)
        ensures
            r@ == kind_name(self),
    {
        match self {
            ErrorKind::SocketError => owned("SocketError"),
            ErrorKind::InvalidRequest => owned("InvalidRequest"),
            ErrorKind::OperationFailed => owned("OperationFailed"),
        }
    }
}

/// Reads a list of labels from the items of an array: every item has to be
/// a text.
fn read_labels(items: &Vec<serde_json::Value>) -> (r: Option<Vec<String>>)
    ensures
        match r {
            Some(labels) => texts_of(items@.map_values(|v: serde_json::Value| doc_of(v))) == Some(
                labels_of(labels@),
            ),
            None => texts_of(items@.map_values(|v: serde_json::Value| doc_of(v))) is None,
        },
{
    let ghost docs = items@.map_values(|v: serde_json::Value| doc_of(v));
    let mut labels: Vec<String> = Vec::new();
    let mut i: usize = 0;
    while i < items.len()
        invariant
            i <= items.len(),
            docs == items@.map_values(|v: serde_json::Value| doc_of(v)),
            labels@.len() == i,
            forall|j: int| 0 <= j < i ==> docs[j] == Doc::Text(#[trigger] labels@[j]@),
        decreases items.len() - i,
    {
        match as_text(&items[i]) {
            Some(label) => {
                labels.push(owned(label));
            },
            None => {
                assert(!(docs[i as int] is Text));
                return None;
            },
        }
        i = i + 1;
    }
    assert(texts_of(docs) == Some(labels_of(labels@))) by {
        assert forall|j: int| 0 <= j < docs.len() implies (#[trigger] docs[j]) is Text by {
            assert(docs[j] == Doc::Text(labels@[j]@));
        }
        assert(docs.map_values(|d: Doc| d->Text_0) =~= labels_of(labels@));
    }
    Some(labels)
}

impl Response {
    /// Reads a response from a parsed JSON value.
    pub fn from_value(value: &serde_json::Value) -> (r: Option<Response>)
        ensures
            response_view(r) == decode_response(doc_of(*value)),
    {
        let tag = match read_text(value, "type") {
            Some(tag) => tag,
            None => { return None; },
        };
        if same_text(tag, "Ok") {
            Some(Response::Success)
        } else if same_text(tag, "Status") {
            match read_text(value, "status") {
                Some(name) => match Status::from_name(name) {
                    Some(status) => Some(Response::Status { status }),
                    None => None,
                },
                None => None,
            }
        } else if same_text(tag, "ActiveInhibitors") {
            match member(value, "active_inhibitors") {
                Some(list) => match as_items(list) {
                    Some(items) => match read_labels(items) {
                        Some(active_inhibitors) => Some(
                            Response::ActiveInhibitors { active_inhibitors },
                        ),
                        None => None,
                    },
                    None => None,
                },
                None => None,
            }
        } else if same_text(tag, "Error") {
            match read_text(value, "kind") {
                Some(name) => match ErrorKind::from_name(name) {
                    Some(kind) => Some(Response::Error { kind }),
                    None => None,
                },
                None => None,
            }
        } else {
            None
        }
    }

    /// Reads a response from its wire text. Text that is not JSON, or not a
    /// response, gives `None`.
    pub fn des(data: &str) -> (r: Option<Response>)
        ensures
            response_view(r) == response_of_text(data@),
    {
        match parse(data) {
            Ok(value) => Response::from_value(&value),
            Err(_) => None,
        }
    }
}

/// The fields of an object, as the documents that their values hold.
pub open spec fn field_docs(fields: Seq<(String, serde_json::Value)>) -> Seq<(Seq<char>, Doc)> {
    fields.map_values(|f: (String, serde_json::Value)| (f.0@, doc_of(f.1)))
}

/// No member that carries a field is named `type`.
proof fn lemma_member_keys()
    ensures
        "id"@ != "type"@,
        "status"@ != "type"@,
        "kind"@ != "type"@,
        "active_inhibitors"@ != "type"@,
{
    reveal_strlit("type");
    reveal_strlit("id");
    reveal_strlit("status");
    reveal_strlit("kind");
    reveal_strlit("active_inhibitors");
    assert("type"@.len() == 4);
    assert("id"@.len() == 2);
    assert("status"@.len() == 6);
    assert("active_inhibitors"@.len() == 17);
    assert("kind"@[0] == 'k');
    assert("type"@[0] == 't');
}

/// Builds the object with the member `type` alone.
fn tagged_value(tag: &str) -> (r: serde_json::Value)
    ensures
        doc_of(r) == tagged(tag@),
{
    let mut fields: Vec<(String, serde_json::Value)> = Vec::new();
    fields.push((owned("type"), text_value(owned(tag))));
    assert(field_docs(fields@) =~= seq![("type"@, Doc::Text(tag@))]);
    object_value(fields)
}

/// Builds the object with the member `type` and one more member after it.
fn tagged_member_value(tag: &str, key: &str, value: serde_json::Value) -> (r: serde_json::Value)
    requires
        key@ != "type"@,
    ensures
        doc_of(r) == Doc::Object(seq![("type"@, Doc::Text(tag@)), (key@, doc_of(value))]),
{
    let mut fields: Vec<(String, serde_json::Value)> = Vec::new();
    fields.push((owned("type"), text_value(owned(tag))));
    fields.push((owned(key), value));
    assert(field_docs(fields@) =~= seq![("type"@, Doc::Text(tag@)), (key@, doc_of(value))]);
    object_value(fields)
}

/// Builds the array of the given labels, each a text.
fn labels_value(labels: &Vec<String>) -> (r: serde_json::Value)
    ensures
        doc_of(r) == Doc::List(text_docs(labels_of(labels@))),
{
    let mut items: Vec<serde_json::Value> = Vec::new();
    let mut i: usize = 0;
    while i < labels.len()
        invariant
            i <= labels.len(),
            items@.len() == i,
            forall|j: int| 0 <= j < i ==> doc_of(#[trigger] items@[j]) == Doc::Text(labels@[j]@),
        decreases labels.len() - i,
    {
        items.push(text_value(labels[i].clone()));
        i = i + 1;
    }
    assert(items@.map_values(|v: serde_json::Value| doc_of(v)) =~= text_docs(labels_of(labels@)));
    list_value(items)
}

impl Request {
    /// The JSON value that stands for the request.
    pub fn to_value(&self) -> (r: serde_json::Value)
        ensures
            doc_of(r) == request_doc(self@),
    {
        proof {
            lemma_member_keys();
        }
        match self {
            Request::Inhibit { id } => tagged_member_value("Inhibit", "id", text_value(id.clone())),
            Request::Release { id } => tagged_member_value("Release", "id", text_value(id.clone())),
            Request::Status { id } => tagged_member_value("Status", "id", text_value(id.clone())),
            Request::ActiveInhibitors => tagged_value("ActiveInhibitors"),
        }
    }

    /// The wire text of the request.
    pub fn ser(&self) -> (r: String)
        ensures
            r@ == rendered(request_doc(self@)),
    {
        let value = self.to_value();
        render(&value)
    }
}

impl Response {
    /// The JSON value that stands for the response.
    pub fn to_value(&self) -> (r: serde_json::Value)
        ensures
            doc_of(r) == response_doc(self@),
    {
        proof {
            lemma_member_keys();
        }
        match self {
            Response::Success => tagged_value("Ok"),
            Response::Status { status } => tagged_member_value(
                "Status",
                "status",
                text_value(status.name()),
            ),
            Response::ActiveInhibitors { active_inhibitors } => tagged_member_value(
                "ActiveInhibitors",
                "active_inhibitors",
                labels_value(active_inhibitors),
            ),
            Response::Error { kind } => tagged_member_value("Error", "kind", text_value(kind.name())),
        }
    }

    /// The wire text of the response.
    pub fn ser(&self) -> (r: String)
        ensures
            r@ == rendered(response_doc(self@)),
    {
        let value = self.to_value();
        render(&value)
    }
}

/// The member `type` of an object that holds it alone is found.
proof fn lemma_tagged_member(tag: Seq<char>)
    ensures
        tagged(tag).member("type"@) == Some(Doc::Text(tag)),
{
    let fields = seq![("type"@, Doc::Text(tag))];
    assert(find_member(fields, "type"@) == Some(Doc::Text(tag)));
}

/// The members of an object with `type` and one more member are found
/// under their keys.
proof fn lemma_tagged_members(tag: Seq<char>, key: Seq<char>, value: Doc)
    requires
        key != "type"@,
    ensures
        Doc::Object(seq![("type"@, Doc::Text(tag)), (key, value)]).member("type"@) == Some(
            Doc::Text(tag),
        ),
        Doc::Object(seq![("type"@, Doc::Text(tag)), (key, value)]).member(key) == Some(value),
{
    let fields = seq![("type"@, Doc::Text(tag)), (key, value)];
    let rest = fields.subrange(1, fields.len() as int);
    assert(rest[0] == (key, value));
    assert(find_member(rest, key) == Some(value));
    assert(find_member(fields, key) == Some(value));
    assert(find_member(fields, "type"@) == Some(Doc::Text(tag)));
}

/// The wire names of the variants differ from one another.
proof fn lemma_tags_differ()
    ensures
        "Inhibit"@ != "Release"@,
        "Inhibit"@ != "Status"@,
        "Inhibit"@ != "ActiveInhibitors"@,
        "Release"@ != "Status"@,
        "Release"@ != "ActiveInhibitors"@,
        "Status"@ != "ActiveInhibitors"@,
        "Ok"@ != "Status"@,
        "Ok"@ != "ActiveInhibitors"@,
        "Ok"@ != "Error"@,
        "Status"@ != "Error"@,
        "ActiveInhibitors"@ != "Error"@,
        "Inhibits"@ != "Free"@,
        "SocketError"@ != "InvalidRequest"@,
        "SocketError"@ != "OperationFailed"@,
        "InvalidRequest"@ != "OperationFailed"@,
{
    reveal_strlit("Inhibit");
    reveal_strlit("Release");
    reveal_strlit("Status");
    reveal_strlit("ActiveInhibitors");
    reveal_strlit("Ok");
    reveal_strlit("Error");
    reveal_strlit("Inhibits");
    reveal_strlit("Free");
    reveal_strlit("SocketError");
    reveal_strlit("InvalidRequest");
    reveal_strlit("OperationFailed");
    assert("Inhibit"@.len() == 7);
    assert("Release"@.len() == 7);
    assert("Inhibit"@[0] == 'I');
    assert("Release"@[0] == 'R');
    assert("Status"@.len() == 6);
    assert("ActiveInhibitors"@.len() == 16);
    assert("Ok"@.len() == 2);
    assert("Error"@.len() == 5);
    assert("Inhibits"@.len() == 8);
    assert("Free"@.len() == 4);
    assert("SocketError"@.len() == 11);
    assert("InvalidRequest"@.len() == 14);
    assert("OperationFailed"@.len() == 15);
}

/// Reading the document of a request gives the request back.
pub proof fn law_request_round_trip(r: RequestModel)
    ensures
        decode_request(request_doc(r)) == Some(r),
{
    lemma_member_keys();
    lemma_tags_differ();
    match r {
        RequestModel::Inhibit { id } => {
            lemma_tagged_members("Inhibit"@, "id"@, Doc::Text(id));
        },
        RequestModel::Release { id } => {
            lemma_tagged_members("Release"@, "id"@, Doc::Text(id));
        },
        RequestModel::Status { id } => {
            lemma_tagged_members("Status"@, "id"@, Doc::Text(id));
        },
        RequestModel::ActiveInhibitors => {
            lemma_tagged_member("ActiveInhibitors"@);
        },
    }
}

/// Reading the document of a response gives the response back.
pub proof fn law_response_round_trip(r: ResponseModel)
    ensures
        decode_response(response_doc(r)) == Some(r),
{
    lemma_member_keys();
    lemma_tags_differ();
    match r {
        ResponseModel::Success => {
            lemma_tagged_member("Ok"@);
        },
        ResponseModel::Status { status } => {
            lemma_tagged_members("Status"@, "status"@, Doc::Text(status_name(status)));
        },
        ResponseModel::ActiveInhibitors { active_inhibitors } => {
            let items = text_docs(active_inhibitors);
            lemma_tagged_members("ActiveInhibitors"@, "active_inhibitors"@, Doc::List(items));
            assert(items.map_values(|d: Doc| d->Text_0) =~= active_inhibitors);
        },
        ResponseModel::Error { kind } => {
            lemma_tagged_members("Error"@, "kind"@, Doc::Text(kind_name(kind)));
        },
    }
}

/// A document that reads as a message, written out again from that message,
/// reads as the same message: the two documents are equivalent.
pub proof fn law_reencoding_is_equivalent(doc: Doc)
    ensures
        decode_request(doc) matches Some(r) ==> decode_request(request_doc(r)) == decode_request(
            doc,
        ),
        decode_response(doc) matches Some(r) ==> decode_response(response_doc(r))
            == decode_response(doc),
{
    if let Some(r) = decode_request(doc) {
        law_request_round_trip(r);
    }
    if let Some(r) = decode_response(doc) {
        law_response_round_trip(r);
    }
}

} // verus!
