use vstd::prelude::*;

verus! {

/// The HTTP method of a request.
#[derive(Clone, Copy, Debug, PartialEq, Eq, Structural)]
pub enum Method {
    Get,
    Post,
    Put,
}

/// What the body of the reply to a request holds, for the sender to decode.
#[derive(Clone, Copy, Debug, PartialEq, Eq, Structural)]
pub enum Expect {
    /// Nothing is read from the body.
    Nothing,
    /// `{"id": ...}`: the identifier of a published event.
    EventId,
    /// `{"wait_group_instance_id": ...}`: the identifier of a new wait-group instance.
    InstanceId,
    /// `{"events": [{"id": ..., "data": ...}], "offset": ..., "limit": ...}`.
    EventsPage,
    /// `{"outcome": ...}`: the outcome of a subscription registration.
    Outcome,
}

/// One planned HTTP exchange: everything the sender needs to issue it.
#[derive(Clone, Debug)]
pub struct Request {
    pub method: Method,
    /// The full address, query included.
    pub url: String,
    pub headers: Vec<(String, String)>,
    /// The JSON body, if the request has one.
    pub body: Option<String>,
    pub expects: Expect,
}

/// The mathematical value of a [`Request`].
pub struct RequestView {
    pub method: Method,
    pub url: Seq<char>,
    pub headers: Seq<(Seq<char>, Seq<char>)>,
    pub body: Option<Seq<char>>,
    pub expects: Expect,
}

/// The view of an optional string.
pub open spec fn opt_text(s: Option<String>) -> Option<Seq<char>> {
    match s {
        Some(t) => Some(t@),
        None => None,
    }
}

impl View for Request {
    type V = RequestView;

    open spec fn view(&self) -> RequestView {
        RequestView {
            method: self.method,
            url: self.url@,
            headers: self.headers.deep_view(),
            body: opt_text(self.body),
            expects: self.expects,
        }
    }
}

/// What came back for one request, as handed over by the sender.
#[derive(Clone, Debug)]
pub enum Reply<T> {
    /// The request could not be sent, or the connection failed.
    Unsent(String),
    /// A response arrived with this status; `body` is the decoded body, or
    /// `None` when the body did not have the expected shape.
    Received { status: u16, body: Option<T> },
}

/// Why a single exchange failed.
#[derive(Clone, Debug, PartialEq, Eq)]
pub enum Error {
    /// The request could not be sent or the connection failed; the sender's message.
    Transport(String),
    /// A response arrived with a status other than the operation's success status.
    UnexpectedStatus(u16),
    /// The response body did not have the expected shape.
    Decode,
    /// The service answered a wait-group creation with an empty identifier.
    EmptyInstanceId,
}

/// Which statuses count as success for an operation.
#[derive(Clone, Copy, Debug, PartialEq, Eq, Structural)]
pub enum Success {
    Exactly(u16),
    AnyTwoHundred,
    AnyStatus,
}

pub open spec fn accepts(success: Success, status: u16) -> bool {
    match success {
        Success::Exactly(code) => status == code,
        Success::AnyTwoHundred => 200 <= status < 300,
        Success::AnyStatus => true,
    }
}

/// The verdict on a reply: the transport failure, then a wrong status, then
/// an undecodable body are errors, in that order of precedence.
pub open spec fn judged<T>(reply: Reply<T>, success: Success) -> Result<T, Error> {
    match reply {
        Reply::Unsent(message) => Err(Error::Transport(message)),
        Reply::Received { status, body } => {
            if !accepts(success, status) {
                Err(Error::UnexpectedStatus(status))
            } else {
                match body {
                    Some(b) => Ok(b),
                    None => Err(Error::Decode),
                }
            }
        },
    }
}

/// Judges a reply against the statuses that count as success.
pub fn judge<T>(reply: Reply<T>, success: Success) -> (r: Result<T, Error>)
    ensures
        r == judged(reply, success),
{
    match reply {
        Reply::Unsent(message) => Err(Error::Transport(message)),
        Reply::Received { status, body } => {
            let ok = match success {
                Success::Exactly(code) => status == code,
                Success::AnyTwoHundred => 200 <= status && status < 300,
                Success::AnyStatus => true,
            };
            if !ok {
                Err(Error::UnexpectedStatus(status))
            } else {
                match body {
                    Some(b) => Ok(b),
                    None => Err(Error::Decode),
                }
            }
        },
    }
}

} // verus!
