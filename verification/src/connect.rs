//! Whether a client that was sent to this backend has come to the right one.

use vstd::prelude::*;
use crate::text;

verus! {

pub const SUPPORTED_PROTOCOL_VERSION: &'static str = "1";

pub const STANDALONE_BACKEND_ID: &'static str = "standalone";

/// How a connection is judged.
#[derive(Clone, Copy, PartialEq, Eq, Debug, Structural)]
pub enum ConnectStatus {
    Accepted,
    InvalidArgument,
    UnsupportedProtocol,
    BackendMismatch,
    InternalError,
}

/// What a client sends.
#[derive(Debug)]
pub struct ValidateConnectionRequest {
    pub backend_id: String,
    pub protocol_version: String,
    pub nonce: Vec<u8>,
}

/// What it is answered; the nonce comes back as it was sent.
#[derive(Debug)]
pub struct ValidateConnectionResponse {
    pub status: ConnectStatus,
    pub backend_id: String,
    pub message: String,
    pub nonce_echo: Vec<u8>,
}

/// The status, the id of the backend and the message of an answer.
pub open spec fn answer_of(r: ValidateConnectionResponse) -> (ConnectStatus, Seq<char>, Seq<char>) {
    (r.status, r.backend_id@, r.message@)
}

fn response(status: ConnectStatus, backend_id: String, message: &str, nonce_echo: Vec<u8>) -> (r:
    ValidateConnectionResponse)
    ensures
        answer_of(r) == (status, backend_id@, message@),
        r.nonce_echo == nonce_echo,
{
    ValidateConnectionResponse { status, backend_id, message: message.to_owned(), nonce_echo }
}

/// What is wrong with the version of the protocol, and how it is said.
pub open spec fn protocol_fault(version: Seq<char>) -> Option<(ConnectStatus, Seq<char>)> {
    let version = text::trimmed(version);
    if version.len() == 0 {
        Some((ConnectStatus::InvalidArgument, "protocol_version is required"@))
    } else if version != SUPPORTED_PROTOCOL_VERSION@ {
        Some(
            (
                ConnectStatus::UnsupportedProtocol,
                "unsupported protocol_version `"@ + version + "`; expected `"@
                    + SUPPORTED_PROTOCOL_VERSION@ + "`"@,
            ),
        )
    } else {
        None
    }
}

fn find_protocol_fault(version: &str) -> (r: Option<(ConnectStatus, String)>)
    ensures
        match r {
            Some((status, message)) => protocol_fault(version@) == Some((status, message@)),
            None => protocol_fault(version@) is None,
        },
{
    let trimmed: String = text::trim(version);
    if trimmed.as_str().is_empty() {
        return Some((ConnectStatus::InvalidArgument, "protocol_version is required".to_owned()));
    }
    if !text::str_eq(trimmed.as_str(), SUPPORTED_PROTOCOL_VERSION) {
        let mut message: String = "unsupported protocol_version `".to_owned();
        message.append(trimmed.as_str());
        message.append("`; expected `");
        message.append(SUPPORTED_PROTOCOL_VERSION);
        message.append("`");
        return Some((ConnectStatus::UnsupportedProtocol, message));
    }
    None
}

/// The service. A backend that is registered with a broker keeps what it knows of its
/// registration; a standalone one has an id of its own.
#[derive(Debug)]
pub struct ConnectServiceImpl<B> {
    pub broker_registration_state: Option<B>,
    pub backend_id: String,
}

impl<B> ConnectServiceImpl<B> {
    pub fn new(broker_registration_state: B) -> (r: Self)
        ensures
            r.broker_registration_state == Some(broker_registration_state),
            r.backend_id@ == ""@,
    {
        ConnectServiceImpl {
            broker_registration_state: Some(broker_registration_state),
            backend_id: "".to_owned(),
        }
    }

    pub fn new_standalone() -> (r: Self)
        ensures
            r.broker_registration_state is None,
            r.backend_id@ == STANDALONE_BACKEND_ID@,
    {
        ConnectServiceImpl {
            broker_registration_state: None,
            backend_id: STANDALONE_BACKEND_ID.to_owned(),
        }
    }

    /// The answer of a standalone backend: it is whichever backend the client asks
    /// for.
    pub fn validate_standalone(&self, req: ValidateConnectionRequest) -> (r:
        ValidateConnectionResponse)
        ensures
            r.nonce_echo == req.nonce,
            r.status is Accepted ==> text::trimmed(req.protocol_version@) == "1"@,
            answer_of(r) == match protocol_fault(req.protocol_version@) {
                Some((status, message)) => (status, self.backend_id@, message),
                None => (
                    ConnectStatus::Accepted,
                    if text::trimmed(req.backend_id@).len() == 0 {
                        self.backend_id@
                    } else {
                        text::trimmed(req.backend_id@)
                    },
                    "connection validated (standalone mode)"@,
                ),
            },
    {
        match find_protocol_fault(req.protocol_version.as_str()) {
            Some((status, message)) => {
                return response(status, self.backend_id.clone(), message.as_str(), req.nonce);
            },
            None => {},
        }
        let requested: String = text::trim(req.backend_id.as_str());
        let backend_id: String = if requested.as_str().is_empty() {
            self.backend_id.clone()
        } else {
            requested
        };
        response(
            ConnectStatus::Accepted,
            backend_id,
            "connection validated (standalone mode)",
            req.nonce,
        )
    }
}

/// The id of the backend as far as it is registered.
pub open spec fn current_backend_id(registered: Option<Seq<char>>) -> Seq<char> {
    match registered {
        Some(id) => id,
        None => ""@,
    }
}

/// The answer of a backend that is, or is not yet, registered with a broker.
pub open spec fn registered_answer(
    registered: Option<Seq<char>>,
    backend_id: Seq<char>,
    protocol_version: Seq<char>,
) -> (ConnectStatus, Seq<char>, Seq<char>) {
    let current = current_backend_id(registered);
    if text::trimmed(backend_id).len() == 0 {
        (ConnectStatus::InvalidArgument, current, "backend_id is required"@)
    } else {
        match protocol_fault(protocol_version) {
            Some((status, message)) => (status, current, message),
            None => match registered {
                None => (
                    ConnectStatus::InternalError,
                    ""@,
                    "broker registration state is not ready"@,
                ),
                Some(id) => if text::trimmed(backend_id) != id {
                    (
                        ConnectStatus::BackendMismatch,
                        id,
                        "requested backend_id does not match current backend"@,
                    )
                } else {
                    (ConnectStatus::Accepted, id, "connection validated"@)
                },
            },
        }
    }
}

/// `registered` is the id under which the backend is registered.
pub fn validate_registered(registered: Option<String>, req: ValidateConnectionRequest) -> (r:
    ValidateConnectionResponse)
    ensures
        r.nonce_echo == req.nonce,
        r.status is Accepted ==> text::trimmed(req.protocol_version@) == "1"@
            && crate::engine::opt_text(registered) == Some(r.backend_id@) && r.backend_id@
            == text::trimmed(req.backend_id@),
        answer_of(r) == registered_answer(
            crate::engine::opt_text(registered),
            req.backend_id@,
            req.protocol_version@,
        ),
{
    let current: String = match &registered {
        Some(id) => id.clone(),
        None => "".to_owned(),
    };
    let requested: String = text::trim(req.backend_id.as_str());
    if requested.as_str().is_empty() {
        return response(
            ConnectStatus::InvalidArgument,
            current,
            "backend_id is required",
            req.nonce,
        );
    }
    match find_protocol_fault(req.protocol_version.as_str()) {
        Some((status, message)) => {
            return response(status, current, message.as_str(), req.nonce);
        },
        None => {},
    }
    match registered {
        None => response(
            ConnectStatus::InternalError,
            "".to_owned(),
            "broker registration state is not ready",
            req.nonce,
        ),
        Some(id) => {
            if !text::str_eq(requested.as_str(), id.as_str()) {
                return response(
                    ConnectStatus::BackendMismatch,
                    id,
                    "requested backend_id does not match current backend",
                    req.nonce,
                );
            }
            response(ConnectStatus::Accepted, id, "connection validated", req.nonce)
        },
    }
}

/// A registered backend accepts a client exactly where the client names it and speaks
/// the supported version of the protocol.
pub proof fn only_the_named_backend_accepts(
    registered: Option<Seq<char>>,
    backend_id: Seq<char>,
    protocol_version: Seq<char>,
)
    ensures
        registered_answer(registered, backend_id, protocol_version).0 == ConnectStatus::Accepted
            <==> (registered == Some(text::trimmed(backend_id)) && text::trimmed(backend_id).len()
            > 0 && text::trimmed(protocol_version) == SUPPORTED_PROTOCOL_VERSION@),
{
    reveal_strlit("1");
}

/// The one version of the protocol that is spoken is the first, whatever whitespace is around
/// it. One that is missing is the caller's fault, and any other is not supported.
pub proof fn only_the_first_version_is_spoken(version: Seq<char>)
    ensures
        protocol_fault(version) is None <==> text::trimmed(version) == "1"@,
        protocol_fault(version) matches Some(fault) ==> (fault.0 is InvalidArgument) == (
        text::trimmed(version).len() == 0) && (fault.0 is UnsupportedProtocol) == (text::trimmed(
            version,
        ).len() > 0),
{
    reveal_strlit("1");
}

/// A client that is refused is told which backend it has come to, as far as that is known; a
/// missing id counts before the version, and the version before the registration.
pub proof fn refusals_name_the_backend(
    registered: Option<Seq<char>>,
    backend_id: Seq<char>,
    protocol_version: Seq<char>,
)
    ensures
        ({
            let answer = registered_answer(registered, backend_id, protocol_version);
            let named = text::trimmed(backend_id).len() > 0;
            let spoken = text::trimmed(protocol_version) == "1"@;
            &&& (registered matches Some(id) ==> answer.1 == id)
            &&& registered is None ==> answer.1 == ""@
            &&& !named ==> answer.0 is InvalidArgument
            &&& named && !spoken ==> answer.0 is InvalidArgument || answer.0 is UnsupportedProtocol
            &&& answer.0 is InternalError <==> named && spoken && registered is None
            &&& answer.0 is BackendMismatch <==> named && spoken && registered is Some
                && registered != Some(text::trimmed(backend_id))
        }),
{
    only_the_first_version_is_spoken(protocol_version);
}

/// An answer is seen by its status, its backend and its message.
pub proof fn answers_are_seen_in_full(r: ValidateConnectionResponse)
    ensures
        answer_of(r).0 == r.status,
        answer_of(r).1 == r.backend_id@,
        answer_of(r).2 == r.message@,
{
}

} // verus!
