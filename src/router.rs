use vstd::prelude::*;
use vstd::utf8::{decode_utf8, valid_utf8};
use crate::error::PayloadDecodeError;
use crate::subscription::QOS_AT_LEAST_ONCE;

verus! {

/// Relies on std::str::from_utf8: the text of the bytes where they are
/// valid UTF-8, and an error otherwise.
#[verifier::external_body]
fn utf8_text(bytes: &[u8]) -> (r: Option<String>)
    ensures
        r is Some <==> valid_utf8(bytes@),
        r is Some ==> r->0@ == decode_utf8(bytes@),
{
    match std::str::from_utf8(bytes) {
        Ok(text) => Some(text.to_string()),
        Err(_) => None,
    }
}

/// One received frame.
#[derive(Clone, Debug)]
pub struct InboundMessage {
    pub topic: String,
    pub payload: Vec<u8>,
}

/// What the hub's topic scheme makes of an inbound topic.
#[derive(Clone, Debug)]
pub enum MessageClassification {
    /// A one-way message, with its property list.
    Notification { properties: Vec<(String, String)> },
    /// A request that needs a correlated response.
    Command { name: String, correlation_id: String },
    Unrecognized,
}

/// A decoded notification, for the notification handler.
#[derive(Clone, Debug)]
pub struct Notification {
    pub topic: String,
    pub properties: Vec<(String, String)>,
    pub text: String,
}

/// The response to a command; the hub derives its topic from the
/// correlation id and the status.
#[derive(Clone, Debug)]
pub struct CommandResponse {
    pub correlation_id: String,
    pub status: u16,
    pub body: String,
    pub qos: i32,
}

/// A decoded command together with the response to publish for it.
#[derive(Clone, Debug)]
pub struct MethodCall {
    pub name: String,
    pub correlation_id: String,
    pub text: String,
    pub response: CommandResponse,
}

/// Where an inbound message went.
#[derive(Clone, Debug)]
pub enum Routed {
    Notified(Notification),
    Responded(MethodCall),
    Dropped,
}

/// The status of a handled command.
pub const STATUS_SUCCESS: u16 = 200;

/// The body of a successful command response.
pub open spec fn success_body() -> Seq<char> {
    "{\"status\": \"success\"}"@
}

pub open spec fn notification_of(
    r: Result<Notification, PayloadDecodeError>,
    topic: Seq<char>,
    properties: Seq<(String, String)>,
    payload: Seq<u8>,
) -> bool {
    if valid_utf8(payload) {
        r is Ok && r->Ok_0.topic@ == topic && r->Ok_0.properties@ == properties
            && r->Ok_0.text@ == decode_utf8(payload)
    } else {
        r == Err::<Notification, PayloadDecodeError>(PayloadDecodeError::NotText)
    }
}

/// How a command is answered: every command with a text payload succeeds with
/// the success body, correlated by its id.
pub open spec fn method_call_of(
    r: Result<MethodCall, PayloadDecodeError>,
    name: Seq<char>,
    correlation_id: Seq<char>,
    payload: Seq<u8>,
) -> bool {
    if valid_utf8(payload) {
        &&& r is Ok
        &&& r->Ok_0.name@ == name
        &&& r->Ok_0.correlation_id@ == correlation_id
        &&& r->Ok_0.text@ == decode_utf8(payload)
        &&& r->Ok_0.response.correlation_id@ == correlation_id
        &&& r->Ok_0.response.status == STATUS_SUCCESS
        &&& r->Ok_0.response.body@ == success_body()
        &&& r->Ok_0.response.qos == QOS_AT_LEAST_ONCE
    } else {
        r == Err::<MethodCall, PayloadDecodeError>(PayloadDecodeError::NotText)
    }
}

/// Decodes a notification for its handler: it gets no response.
pub fn process_c2d_message(
    topic: &str,
    properties: Vec<(String, String)>,
    payload: &[u8],
) -> (r: Result<Notification, PayloadDecodeError>)
    ensures
        notification_of(r, topic@, properties@, payload@),
{
    match utf8_text(payload) {
        Some(text) => Ok(Notification { topic: topic.to_owned(), properties, text }),
        None => Err(PayloadDecodeError::NotText),
    }
}

/// Decodes a command and answers it: status 200 with the success body, on
/// the response channel of its correlation id.
pub fn process_method_message(
    name: &str,
    correlation_id: &str,
    payload: &[u8],
) -> (r: Result<MethodCall, PayloadDecodeError>)
    ensures
        method_call_of(r, name@, correlation_id@, payload@),
{
    match utf8_text(payload) {
        Some(text) => {
            let body = "{\"status\": \"success\"}".to_owned();
            let response = CommandResponse {
                correlation_id: correlation_id.to_owned(),
                status: STATUS_SUCCESS,
                body,
                qos: QOS_AT_LEAST_ONCE,
            };
            Ok(
                MethodCall {
                    name: name.to_owned(),
                    correlation_id: correlation_id.to_owned(),
                    text,
                    response,
                },
            )
        },
        None => Err(PayloadDecodeError::NotText),
    }
}

/// What routing a message with this topic, payload and classification gives.
pub open spec fn routed_as(
    topic: Seq<char>,
    payload: Seq<u8>,
    c: MessageClassification,
    r: Result<Routed, PayloadDecodeError>,
) -> bool {
    match c {
        MessageClassification::Notification { properties } => match r {
            Ok(Routed::Notified(n)) => notification_of(Ok(n), topic, properties@, payload),
            Ok(_) => false,
            Err(e) => notification_of(Err(e), topic, properties@, payload),
        },
        MessageClassification::Command { name, correlation_id } => match r {
            Ok(Routed::Responded(m)) => method_call_of(Ok(m), name@, correlation_id@, payload),
            Ok(_) => false,
            Err(e) => method_call_of(Err(e), name@, correlation_id@, payload),
        },
        MessageClassification::Unrecognized => r is Ok && r->Ok_0 is Dropped,
    }
}

/// The responses that routing leaves to publish.
pub open spec fn responses_of(r: Result<Routed, PayloadDecodeError>) -> Seq<CommandResponse> {
    match r {
        Ok(Routed::Responded(m)) => seq![m.response],
        _ => Seq::empty(),
    }
}

/// Hands one inbound message to the handler that its classification names.
pub fn route(message: InboundMessage, classification: MessageClassification) -> (r: Result<
    Routed,
    PayloadDecodeError,
>)
    ensures
        routed_as(message.topic@, message.payload@, classification, r),
{
    match classification {
        MessageClassification::Notification { properties } => {
            match process_c2d_message(message.topic.as_str(), properties, message.payload.as_slice()) {
                Ok(n) => Ok(Routed::Notified(n)),
                Err(e) => Err(e),
            }
        },
        MessageClassification::Command { name, correlation_id } => {
            match process_method_message(
                name.as_str(),
                correlation_id.as_str(),
                message.payload.as_slice(),
            ) {
                Ok(m) => Ok(Routed::Responded(m)),
                Err(e) => Err(e),
            }
        },
        MessageClassification::Unrecognized => Ok(Routed::Dropped),
    }
}

/// A command whose payload is text gets exactly one response, on the
/// channel of its own correlation id, with status 200 and the success body;
/// a notification or an unrecognized message gets none.
pub proof fn lemma_routing_responses(
    topic: Seq<char>,
    payload: Seq<u8>,
    c: MessageClassification,
    r: Result<Routed, PayloadDecodeError>,
)
    requires
        routed_as(topic, payload, c, r),
    ensures
        match c {
            MessageClassification::Command { name, correlation_id } => valid_utf8(payload) ==> {
                &&& responses_of(r).len() == 1
                &&& responses_of(r)[0].correlation_id@ == correlation_id@
                &&& responses_of(r)[0].status == STATUS_SUCCESS
                &&& responses_of(r)[0].body@ == success_body()
            },
            _ => responses_of(r).len() == 0,
        },
{
}

} // verus!
