//! Delivery operations.
//!
//! Each operation against the gateway — reply, push, multicast, narrowcast,
//! broadcast, status poll, content fetch — is split into a request builder
//! whose contract pins the exact wire payload, and a response decoder whose
//! contract pins the typed result for every transport outcome.  The
//! transport itself (HTTP, bearer credential, URLs) is a collaborator
//! outside this crate: it hands a decoder the status, the raw body text and
//! the body parsed as a wire document, and receives a payload string from an
//! encoder.

use vstd::prelude::*;

use crate::batch::{batch_wire, Messages};
use crate::filter::{
    append_string_list, filter_text, limit_text, recipient_text, serialize_filter,
    serialize_limit, serialize_recipient, string_list_text, Filter, Limit, Recipient,
};
use crate::json::{
    append_json, append_json_string, json_text, jv_view, obj_lookup, obj_view, str_text, JsonSpec,
    JsonValue,
};

verus! {

/// Why a delivery operation failed before or after the transport.
#[derive(Clone, Copy, Debug, PartialEq, Eq, Structural)]
pub enum DeliveryError {
    /// The batch violates an invariant that composition should have caught;
    /// a defensive double-check, not the primary enforcement point.
    EncodingError,
    /// The gateway reported broadcast success without the request-id header
    /// it owes; a protocol violation, surfaced rather than ignored.
    MissingRequestId,
    /// The response body matches no known success or error shape.
    DecodeError,
}

/// A gateway status code in the success range.
pub open spec fn is_success_status(status: u16) -> bool {
    200 <= status < 300
}

/// The `notificationDisabled` pair, present only when the caller chose.
pub open spec fn notification_field(b: Option<bool>) -> Seq<char> {
    match b {
        Some(true) => ",\"notificationDisabled\":true"@,
        Some(false) => ",\"notificationDisabled\":false"@,
        None => Seq::empty(),
    }
}

/// Appends the optional `notificationDisabled` pair.
fn append_notification(out: &mut String, b: &Option<bool>)
    ensures
        final(out)@ == old(out)@ + notification_field(*b),
{
    match b {
        Some(v) => {
            if *v {
                out.append(",\"notificationDisabled\":true");
            } else {
                out.append(",\"notificationDisabled\":false");
            }
        },
        None => {},
    }
}

/// A reply to a user event, addressed by the event's reply token.
pub struct SendReplyMessageRequest {
    pub reply_token: String,
    pub messages: Messages,
    pub notification_disabled: Option<bool>,
}

/// The wire payload of a reply request.
pub open spec fn reply_payload(r: SendReplyMessageRequest) -> Seq<char> {
    "{\"replyToken\":"@ + str_text(r.reply_token@) + ",\"messages\":"@ + json_text(
        batch_wire(r.messages@),
    ) + notification_field(r.notification_disabled) + "}"@
}

impl SendReplyMessageRequest {
    /// Serializes the request.  Fails with `EncodingError` only when the
    /// batch holds more than five messages, which composition rules out.
    pub fn encode(&self) -> (r: Result<String, DeliveryError>)
        ensures
            match r {
                Ok(s) => self.messages@.len() <= 5 && s@ == reply_payload(*self),
                Err(e) => self.messages@.len() > 5 && e == DeliveryError::EncodingError,
            },
    {
        if self.messages.len() > 5 {
            return Err(DeliveryError::EncodingError);
        }
        let mut out = String::new();
        out.append("{\"replyToken\":");
        append_json_string(&mut out, self.reply_token.as_str());
        out.append(",\"messages\":");
        let mj = self.messages.to_json();
        append_json(&mut out, &mj);
        append_notification(&mut out, &self.notification_disabled);
        out.append("}");
        proof {
            assert(out@ =~= reply_payload(*self));
        }
        Ok(out)
    }
}

/// A push to one recipient, addressed by its identifier.
pub struct SendPushMessageRequest {
    pub to: String,
    pub messages: Messages,
    pub notification_disabled: Option<bool>,
}

/// The wire payload of a push request.
pub open spec fn push_payload(r: SendPushMessageRequest) -> Seq<char> {
    "{\"to\":"@ + str_text(r.to@) + ",\"messages\":"@ + json_text(batch_wire(r.messages@))
        + notification_field(r.notification_disabled) + "}"@
}

impl SendPushMessageRequest {
    /// Serializes the request.  Fails with `EncodingError` only when the
    /// batch holds more than five messages, which composition rules out.
    pub fn encode(&self) -> (r: Result<String, DeliveryError>)
        ensures
            match r {
                Ok(s) => self.messages@.len() <= 5 && s@ == push_payload(*self),
                Err(e) => self.messages@.len() > 5 && e == DeliveryError::EncodingError,
            },
    {
        if self.messages.len() > 5 {
            return Err(DeliveryError::EncodingError);
        }
        let mut out = String::new();
        out.append("{\"to\":");
        append_json_string(&mut out, self.to.as_str());
        out.append(",\"messages\":");
        let mj = self.messages.to_json();
        append_json(&mut out, &mj);
        append_notification(&mut out, &self.notification_disabled);
        out.append("}");
        proof {
            assert(out@ =~= push_payload(*self));
        }
        Ok(out)
    }
}

/// A push to a set of recipients, addressed by their identifiers.
pub struct SendMulticastMessageRequest {
    pub to: Vec<String>,
    pub messages: Messages,
    pub notification_disabled: Option<bool>,
}

/// The wire payload of a multicast request.
pub open spec fn multicast_payload(r: SendMulticastMessageRequest) -> Seq<char> {
    "{\"to\":["@ + string_list_text(r.to@.map_values(|s: String| s@)) + "],\"messages\":"@
        + json_text(batch_wire(r.messages@)) + notification_field(r.notification_disabled) + "}"@
}

impl SendMulticastMessageRequest {
    /// Serializes the request.  Fails with `EncodingError` only when the
    /// batch holds more than five messages, which composition rules out.
    pub fn encode(&self) -> (r: Result<String, DeliveryError>)
        ensures
            match r {
                Ok(s) => self.messages@.len() <= 5 && s@ == multicast_payload(*self),
                Err(e) => self.messages@.len() > 5 && e == DeliveryError::EncodingError,
            },
    {
        if self.messages.len() > 5 {
            return Err(DeliveryError::EncodingError);
        }
        let mut out = String::new();
        out.append("{\"to\":[");
        append_string_list(&mut out, &self.to);
        out.append("],\"messages\":");
        let mj = self.messages.to_json();
        append_json(&mut out, &mj);
        append_notification(&mut out, &self.notification_disabled);
        out.append("}");
        proof {
            assert(out@ =~= multicast_payload(*self));
        }
        Ok(out)
    }
}

/// The optional `recipient` pair of a narrowcast payload.
pub open spec fn recipient_field(r: Option<Recipient>) -> Seq<char> {
    match r {
        Some(rr) => ",\"recipient\":"@ + recipient_text(rr),
        None => Seq::empty(),
    }
}

/// The optional `filter` pair of a narrowcast payload.
pub open spec fn filter_field(f: Option<Filter>) -> Seq<char> {
    match f {
        Some(ff) => ",\"filter\":"@ + filter_text(ff),
        None => Seq::empty(),
    }
}

/// The optional `limit` pair of a narrowcast payload.
pub open spec fn limit_field(l: Option<Limit>) -> Seq<char> {
    match l {
        Some(ll) => ",\"limit\":"@ + limit_text(ll),
        None => Seq::empty(),
    }
}

/// A delivery to the audience a recipient tree and a demographic filter
/// resolve, optionally capped.
pub struct SendNarrowcastMessageRequest {
    pub messages: Messages,
    pub recipient: Option<Recipient>,
    pub filter: Option<Filter>,
    pub limit: Option<Limit>,
    pub notification_disabled: Option<bool>,
}

/// The wire payload of a narrowcast request.
pub open spec fn narrowcast_payload(r: SendNarrowcastMessageRequest) -> Seq<char> {
    "{\"messages\":"@ + json_text(batch_wire(r.messages@)) + recipient_field(r.recipient)
        + filter_field(r.filter) + limit_field(r.limit) + notification_field(
        r.notification_disabled,
    ) + "}"@
}

impl SendNarrowcastMessageRequest {
    /// Serializes the request, consuming it; the filter trees are walked
    /// iteratively, so arbitrary depth is safe.  Fails with `EncodingError`
    /// only when the batch holds more than five messages.
    pub fn encode(self) -> (r: Result<String, DeliveryError>)
        ensures
            match r {
                Ok(s) => self.messages@.len() <= 5 && s@ == narrowcast_payload(self),
                Err(e) => self.messages@.len() > 5 && e == DeliveryError::EncodingError,
            },
    {
        let ghost req = self;
        if self.messages.len() > 5 {
            return Err(DeliveryError::EncodingError);
        }
        let mut out = String::new();
        out.append("{\"messages\":");
        let mj = self.messages.to_json();
        append_json(&mut out, &mj);
        match self.recipient {
            Some(rr) => {
                out.append(",\"recipient\":");
                let s = serialize_recipient(rr);
                out.append(s.as_str());
            },
            None => {},
        }
        proof {
            assert(out@ =~= "{\"messages\":"@ + json_text(batch_wire(req.messages@))
                + recipient_field(req.recipient));
        }
        match self.filter {
            Some(ff) => {
                out.append(",\"filter\":");
                let s = serialize_filter(ff);
                out.append(s.as_str());
            },
            None => {},
        }
        match self.limit {
            Some(ll) => {
                out.append(",\"limit\":");
                let s = serialize_limit(&ll);
                out.append(s.as_str());
            },
            None => {},
        }
        append_notification(&mut out, &self.notification_disabled);
        out.append("}");
        proof {
            assert(out@ =~= narrowcast_payload(req));
        }
        Ok(out)
    }
}

/// A broadcast to every friend of the channel.
pub struct SendBroadcastMessageRequest {
    pub messages: Messages,
}

/// The wire payload of a broadcast request.
pub open spec fn broadcast_payload(r: SendBroadcastMessageRequest) -> Seq<char> {
    "{\"messages\":"@ + json_text(batch_wire(r.messages@)) + "}"@
}

impl SendBroadcastMessageRequest {
    /// Serializes the request.  Fails with `EncodingError` only when the
    /// batch holds more than five messages, which composition rules out.
    pub fn encode(&self) -> (r: Result<String, DeliveryError>)
        ensures
            match r {
                Ok(s) => self.messages@.len() <= 5 && s@ == broadcast_payload(*self),
                Err(e) => self.messages@.len() > 5 && e == DeliveryError::EncodingError,
            },
    {
        if self.messages.len() > 5 {
            return Err(DeliveryError::EncodingError);
        }
        let mut out = String::new();
        out.append("{\"messages\":");
        let mj = self.messages.to_json();
        append_json(&mut out, &mj);
        out.append("}");
        proof {
            assert(out@ =~= broadcast_payload(*self));
        }
        Ok(out)
    }
}

/// A poll for the progress of a previously accepted narrowcast.
pub struct GetNarrowcastMessageStatusRequest {
    pub request_id: String,
}

impl GetNarrowcastMessageStatusRequest {
    /// The query string of the poll; the request id is a gateway-issued
    /// token and is passed through verbatim.
    pub fn encode_query(&self) -> (s: String)
        ensures
            s@ == "requestId="@ + self.request_id@,
    {
        let mut out = String::new();
        out.append("requestId=");
        out.append(self.request_id.as_str());
        out
    }
}

/// A fetch of previously sent media content by message id.
pub struct GetContentRequest {
    pub message_id: String,
}

/// View of one entry of a structured gateway error.
pub ghost struct ErrorDetailV {
    pub message: Option<Seq<char>>,
    pub property: Option<Seq<char>>,
}

/// One entry of a structured gateway error body.
pub struct ErrorDetail {
    pub message: Option<String>,
    pub property: Option<String>,
}

impl View for ErrorDetail {
    type V = ErrorDetailV;

    open spec fn view(&self) -> ErrorDetailV {
        ErrorDetailV {
            message: match self.message {
                Some(m) => Some(m@),
                None => None,
            },
            property: match self.property {
                Some(p) => Some(p@),
                None => None,
            },
        }
    }
}

/// View of a structured gateway error body.
pub ghost struct GatewayErrorBodyV {
    pub message: Seq<char>,
    pub details: Seq<ErrorDetailV>,
}

/// The gateway's structured error body: a message and its detail entries.
pub struct GatewayErrorBody {
    pub message: String,
    pub details: Vec<ErrorDetail>,
}

impl View for GatewayErrorBody {
    type V = GatewayErrorBodyV;

    open spec fn view(&self) -> GatewayErrorBodyV {
        GatewayErrorBodyV {
            message: self.message@,
            details: self.details@.map_values(|d: ErrorDetail| d@),
        }
    }
}

/// How one detail entry is read from a wire document: an object whose
/// optional `message` and `property` strings are taken when present.
pub open spec fn detail_unwire(j: JsonSpec) -> Option<ErrorDetailV> {
    match j {
        JsonSpec::Obj(ps) => Some(
            ErrorDetailV {
                message: match obj_lookup(ps, "message"@) {
                    Some(JsonSpec::Str(t)) => Some(t),
                    _ => None,
                },
                property: match obj_lookup(ps, "property"@) {
                    Some(JsonSpec::Str(t)) => Some(t),
                    _ => None,
                },
            },
        ),
        _ => None,
    }
}

pub open spec fn details_unwire(ds: Seq<JsonSpec>) -> Option<Seq<ErrorDetailV>>
    decreases ds.len(),
{
    if ds.len() == 0 {
        Some(Seq::empty())
    } else {
        match (details_unwire(ds.drop_last()), detail_unwire(ds.last())) {
            (Some(init), Some(d)) => Some(init.push(d)),
            _ => None,
        }
    }
}

/// How a structured error body is read from a wire document: an object with
/// a string `message` and, when present, an array of detail objects under
/// `details`.
pub open spec fn error_body_unwire(j: JsonSpec) -> Option<GatewayErrorBodyV> {
    match j {
        JsonSpec::Obj(ps) => match obj_lookup(ps, "message"@) {
            Some(JsonSpec::Str(m)) => match obj_lookup(ps, "details"@) {
                Some(JsonSpec::Arr(ds)) => match details_unwire(ds) {
                    Some(list) => Some(GatewayErrorBodyV { message: m, details: list }),
                    None => None,
                },
                Some(_) => None,
                None => Some(GatewayErrorBodyV { message: m, details: Seq::empty() }),
            },
            _ => None,
        },
        _ => None,
    }
}

/// Reads one detail entry from a wire document.
fn decode_detail(v: &JsonValue) -> (r: Option<ErrorDetail>)
    ensures
        match r {
            Some(d) => detail_unwire(v@) == Some(d@),
            None => detail_unwire(v@) is None,
        },
{
    match v {
        JsonValue::Obj(ps) => {
            let message: Option<String> = match crate::json::obj_get(ps, "message") {
                Some(JsonValue::Str(t)) => Some(t.clone()),
                _ => None,
            };
            let property: Option<String> = match crate::json::obj_get(ps, "property") {
                Some(JsonValue::Str(t)) => Some(t.clone()),
                _ => None,
            };
            Some(ErrorDetail { message, property })
        },
        _ => None,
    }
}

/// Reads a structured error body from a wire document, if it has that
/// shape.
pub fn decode_error_body(v: &JsonValue) -> (r: Option<GatewayErrorBody>)
    ensures
        match r {
            Some(b) => error_body_unwire(v@) == Some(b@),
            None => error_body_unwire(v@) is None,
        },
{
    match v {
        JsonValue::Obj(ps) => {
            let message: String = match crate::json::obj_get(ps, "message") {
                Some(JsonValue::Str(t)) => t.clone(),
                _ => {
                    return None;
                },
            };
            match crate::json::obj_get(ps, "details") {
                Some(JsonValue::Arr(ds)) => {
                    let mut details: Vec<ErrorDetail> = Vec::new();
                    let n = ds.len();
                    let mut i: usize = 0;
                    while i < n
                        invariant
                            n == ds@.len(),
                            i <= n,
                            jv_view(*v) == JsonSpec::Obj(obj_view(ps@)),
                            obj_lookup(obj_view(ps@), "message"@) == Some(
                                JsonSpec::Str(message@),
                            ),
                            obj_lookup(obj_view(ps@), "details"@) == Some(
                                JsonSpec::Arr(crate::json::arr_view(ds@)),
                            ),
                            details_unwire(crate::json::arr_view(ds@).take(i as int)) == Some(
                                details@.map_values(|d: ErrorDetail| d@),
                            ),
                        decreases n - i,
                    {
                        proof {
                            crate::json::lemma_arr_view_index(ds@);
                        }
                        match decode_detail(&ds[i]) {
                            Some(d) => {
                                let ghost dv = d@;
                                details.push(d);
                                proof {
                                    let av = crate::json::arr_view(ds@);
                                    assert(av.take(i + 1).drop_last() =~= av.take(i as int));
                                    assert(av.take(i + 1).last() == jv_view(ds@[i as int]));
                                    assert(details@.map_values(|d: ErrorDetail| d@) =~= details@.drop_last().map_values(
                                        |d: ErrorDetail| d@,
                                    ).push(dv));
                                }
                            },
                            None => {
                                proof {
                                    let av = crate::json::arr_view(ds@);
                                    crate::json::lemma_arr_view_index(ds@);
                                    lemma_details_unwire_none(av, i as int);
                                }
                                return None;
                            },
                        }
                        i += 1;
                    }
                    proof {
                        crate::json::lemma_arr_view_index(ds@);
                        assert(crate::json::arr_view(ds@).take(n as int) =~= crate::json::arr_view(
                            ds@,
                        ));
                    }
                    Some(GatewayErrorBody { message, details })
                },
                Some(_) => None,
                None => {
                    let details: Vec<ErrorDetail> = Vec::new();
                    proof {
                        assert(details@.map_values(|d: ErrorDetail| d@) =~= Seq::<
                            ErrorDetailV,
                        >::empty());
                    }
                    Some(GatewayErrorBody { message, details })
                },
            }
        },
        _ => None,
    }
}

/// If one element of the array fails to read, the whole array does.
proof fn lemma_details_unwire_none(ds: Seq<JsonSpec>, i: int)
    requires
        0 <= i < ds.len(),
        detail_unwire(ds[i]) is None,
    ensures
        details_unwire(ds) is None,
    decreases ds.len(),
{
    if i == ds.len() - 1 {
        assert(ds.last() == ds[i]);
    } else {
        assert(ds.drop_last()[i] == ds[i]);
        lemma_details_unwire_none(ds.drop_last(), i);
    }
}

pub open spec fn err_opt_view(e: Option<GatewayErrorBody>) -> Option<GatewayErrorBodyV> {
    match e {
        Some(b) => Some(b@),
        None => None,
    }
}

/// The structured error the transport's reply carries, when its body parses
/// to that shape.
pub open spec fn extracted_error(body: Option<JsonValue>) -> Option<GatewayErrorBodyV> {
    match body {
        Some(v) => error_body_unwire(v@),
        None => None,
    }
}

/// The decode shared by the reply, push, multicast and narrowcast sends:
/// on a success status the diagnostics are empty; on failure the raw body
/// text is preserved and the structured error extracted when parseable.
fn decode_send(status: u16, body_text: String, body: Option<JsonValue>) -> (r: (
    String,
    Option<GatewayErrorBody>,
))
    ensures
        is_success_status(status) ==> r.0@ == Seq::<char>::empty() && r.1 is None,
        !is_success_status(status) ==> r.0@ == body_text@ && err_opt_view(r.1) == extracted_error(
            body,
        ),
{
    if 200 <= status && status < 300 {
        (String::new(), None)
    } else {
        let error = match &body {
            Some(v) => decode_error_body(v),
            None => None,
        };
        (body_text, error)
    }
}

/// The decoded outcome of a reply send.
pub struct SendReplyMessageResponse {
    pub status: u16,
    pub system_message: String,
    pub error: Option<GatewayErrorBody>,
}

impl SendReplyMessageResponse {
    /// Decodes the transport's outcome: on a success status the diagnostics
    /// are empty; on failure the raw body text is preserved and the
    /// structured error extracted when parseable.
    pub fn decode(status: u16, body_text: String, body: Option<JsonValue>) -> (r: Self)
        ensures
            r.status == status,
            is_success_status(status) ==> r.system_message@ == Seq::<char>::empty() && r.error
                is None,
            !is_success_status(status) ==> r.system_message@ == body_text@ && err_opt_view(r.error)
                == extracted_error(body),
    {
        let (system_message, error) = decode_send(status, body_text, body);
        SendReplyMessageResponse { status, system_message, error }
    }
}

/// The decoded outcome of a push send.
pub struct SendPushMessageResponse {
    pub status: u16,
    pub system_message: String,
    pub error: Option<GatewayErrorBody>,
}

impl SendPushMessageResponse {
    /// Decodes the transport's outcome: on a success status the diagnostics
    /// are empty; on failure the raw body text is preserved and the
    /// structured error extracted when parseable.
    pub fn decode(status: u16, body_text: String, body: Option<JsonValue>) -> (r: Self)
        ensures
            r.status == status,
            is_success_status(status) ==> r.system_message@ == Seq::<char>::empty() && r.error
                is None,
            !is_success_status(status) ==> r.system_message@ == body_text@ && err_opt_view(r.error)
                == extracted_error(body),
    {
        let (system_message, error) = decode_send(status, body_text, body);
        SendPushMessageResponse { status, system_message, error }
    }
}

/// The decoded outcome of a multicast send.
pub struct SendMulticastMessageResponse {
    pub status: u16,
    pub system_message: String,
    pub error: Option<GatewayErrorBody>,
}

impl SendMulticastMessageResponse {
    /// Decodes the transport's outcome: on a success status the diagnostics
    /// are empty; on failure the raw body text is preserved and the
    /// structured error extracted when parseable.
    pub fn decode(status: u16, body_text: String, body: Option<JsonValue>) -> (r: Self)
        ensures
            r.status == status,
            is_success_status(status) ==> r.system_message@ == Seq::<char>::empty() && r.error
                is None,
            !is_success_status(status) ==> r.system_message@ == body_text@ && err_opt_view(r.error)
                == extracted_error(body),
    {
        let (system_message, error) = decode_send(status, body_text, body);
        SendMulticastMessageResponse { status, system_message, error }
    }
}

/// The decoded outcome of a narrowcast send.
pub struct SendNarrowcastMessageResponse {
    pub status: u16,
    pub system_message: String,
    pub error: Option<GatewayErrorBody>,
}

impl SendNarrowcastMessageResponse {
    /// Decodes the transport's outcome: on a success status the diagnostics
    /// are empty; on failure the raw body text is preserved and the
    /// structured error extracted when parseable.
    pub fn decode(status: u16, body_text: String, body: Option<JsonValue>) -> (r: Self)
        ensures
            r.status == status,
            is_success_status(status) ==> r.system_message@ == Seq::<char>::empty() && r.error
                is None,
            !is_success_status(status) ==> r.system_message@ == body_text@ && err_opt_view(r.error)
                == extracted_error(body),
    {
        let (system_message, error) = decode_send(status, body_text, body);
        SendNarrowcastMessageResponse { status, system_message, error }
    }
}

/// The decoded outcome of a broadcast send; a successful broadcast carries
/// the request id the gateway assigned.
pub struct SendBroadcastMessageResponse {
    pub status: u16,
    pub request_id: Option<String>,
    pub system_message: String,
    pub error: Option<GatewayErrorBody>,
}

impl SendBroadcastMessageResponse {
    /// Decodes the transport's outcome.  On a success status the gateway
    /// owes the request-id header: its absence is `MissingRequestId`, a
    /// protocol violation surfaced to the caller.  On failure the raw body
    /// text is preserved and the structured error extracted when parseable.
    pub fn decode(
        status: u16,
        request_id: Option<String>,
        body_text: String,
        body: Option<JsonValue>,
    ) -> (r: Result<Self, DeliveryError>)
        ensures
            match r {
                Ok(res) => {
                    &&& res.status == status
                    &&& res.request_id == request_id
                    &&& is_success_status(status) ==> request_id is Some && res.system_message@
                        == Seq::<char>::empty() && res.error is None
                    &&& !is_success_status(status) ==> res.system_message@ == body_text@
                        && err_opt_view(res.error) == extracted_error(body)
                },
                Err(e) => {
                    &&& e == DeliveryError::MissingRequestId
                    &&& is_success_status(status)
                    &&& request_id is None
                },
            },
    {
        if 200 <= status && status < 300 {
            match request_id {
                Some(id) => Ok(
                    SendBroadcastMessageResponse {
                        status,
                        request_id: Some(id),
                        system_message: String::new(),
                        error: None,
                    },
                ),
                None => Err(DeliveryError::MissingRequestId),
            }
        } else {
            let (system_message, error) = decode_send(status, body_text, body);
            Ok(SendBroadcastMessageResponse { status, request_id, system_message, error })
        }
    }
}

/// The progress phase of an accepted narrowcast.
#[derive(Clone, Copy, Debug, PartialEq, Eq, Structural)]
pub enum Phase {
    Waiting,
    Sending,
    Succeeded,
    Failed,
}

/// The phase named by a wire string, if any.
pub open spec fn phase_of(t: Seq<char>) -> Option<Phase> {
    if t == "waiting"@ {
        Some(Phase::Waiting)
    } else if t == "sending"@ {
        Some(Phase::Sending)
    } else if t == "succeeded"@ {
        Some(Phase::Succeeded)
    } else if t == "failed"@ {
        Some(Phase::Failed)
    } else {
        None
    }
}

pub open spec fn uint_lookup(ps: Seq<(Seq<char>, JsonSpec)>, key: Seq<char>) -> Option<int> {
    match obj_lookup(ps, key) {
        Some(JsonSpec::UInt(n)) => Some(n),
        _ => None,
    }
}

pub open spec fn str_lookup(ps: Seq<(Seq<char>, JsonSpec)>, key: Seq<char>) -> Option<Seq<char>> {
    match obj_lookup(ps, key) {
        Some(JsonSpec::Str(t)) => Some(t),
        _ => None,
    }
}

/// View of a decoded status poll body.
pub ghost struct StatusV {
    pub phase: Phase,
    pub success_count: Option<int>,
    pub failure_count: Option<int>,
    pub target_count: Option<int>,
    pub failed_description: Option<Seq<char>>,
    pub error_code: Option<int>,
}

/// How a status poll body is read from a wire document: an object with a
/// `phase` naming one of the four phases, and optional counts and
/// diagnostics.
pub open spec fn status_unwire(j: JsonSpec) -> Option<StatusV> {
    match j {
        JsonSpec::Obj(ps) => match str_lookup(ps, "phase"@) {
            Some(p) => match phase_of(p) {
                Some(ph) => Some(
                    StatusV {
                        phase: ph,
                        success_count: uint_lookup(ps, "success_count"@),
                        failure_count: uint_lookup(ps, "failure_count"@),
                        target_count: uint_lookup(ps, "target_count"@),
                        failed_description: str_lookup(ps, "failed_description"@),
                        error_code: uint_lookup(ps, "error_code"@),
                    },
                ),
                None => None,
            },
            None => None,
        },
        _ => None,
    }
}

pub open spec fn uint_opt_view(v: Option<u64>) -> Option<int> {
    match v {
        Some(n) => Some(n as int),
        None => None,
    }
}

/// The decoded outcome of a status poll.
pub struct GetNarrowcastMessageStatusResponse {
    pub status: u16,
    pub system_message: String,
    pub phase: Phase,
    pub success_count: Option<u64>,
    pub failure_count: Option<u64>,
    pub target_count: Option<u64>,
    pub failed_description: Option<String>,
    pub error_code: Option<u64>,
}

/// The fields of a decoded status poll, as a wire-level view.
pub open spec fn status_fields_view(r: GetNarrowcastMessageStatusResponse) -> StatusV {
    StatusV {
        phase: r.phase,
        success_count: uint_opt_view(r.success_count),
        failure_count: uint_opt_view(r.failure_count),
        target_count: uint_opt_view(r.target_count),
        failed_description: match r.failed_description {
            Some(t) => Some(t@),
            None => None,
        },
        error_code: uint_opt_view(r.error_code),
    }
}

/// Looks up an unsigned count in an object.
fn get_uint(ps: &Vec<(String, JsonValue)>, key: &str) -> (r: Option<u64>)
    ensures
        uint_opt_view(r) == uint_lookup(obj_view(ps@), key@),
{
    match crate::json::obj_get(ps, key) {
        Some(JsonValue::UInt(n)) => Some(*n),
        Some(_) => None,
        None => None,
    }
}

/// Looks up a string in an object.
fn get_str(ps: &Vec<(String, JsonValue)>, key: &str) -> (r: Option<String>)
    ensures
        match r {
            Some(t) => str_lookup(obj_view(ps@), key@) == Some(t@),
            None => str_lookup(obj_view(ps@), key@) is None,
        },
{
    match crate::json::obj_get(ps, key) {
        Some(JsonValue::Str(t)) => Some(t.clone()),
        Some(_) => None,
        None => None,
    }
}

impl GetNarrowcastMessageStatusResponse {
    /// Decodes a status poll reply.  The body must be a wire document whose
    /// `phase` names one of the four phases; anything else is a
    /// `DecodeError`.  The raw body text is preserved for diagnostics.
    pub fn decode(status: u16, body_text: String, body: Option<JsonValue>) -> (r: Result<
        Self,
        DeliveryError,
    >)
        ensures
            match r {
                Ok(res) => {
                    &&& res.status == status
                    &&& res.system_message@ == body_text@
                    &&& body is Some
                    &&& status_unwire(body->0@) == Some(status_fields_view(res))
                },
                Err(e) => {
                    &&& e == DeliveryError::DecodeError
                    &&& match body {
                        Some(v) => status_unwire(v@) is None,
                        None => true,
                    }
                },
            },
    {
        let v = match body {
            Some(v) => v,
            None => {
                return Err(DeliveryError::DecodeError);
            },
        };
        match &v {
            JsonValue::Obj(ps) => {
                let phase_str = match get_str(ps, "phase") {
                    Some(t) => t,
                    None => {
                        return Err(DeliveryError::DecodeError);
                    },
                };
                let phase = if crate::json::str_eq(phase_str.as_str(), "waiting") {
                    Phase::Waiting
                } else if crate::json::str_eq(phase_str.as_str(), "sending") {
                    Phase::Sending
                } else if crate::json::str_eq(phase_str.as_str(), "succeeded") {
                    Phase::Succeeded
                } else if crate::json::str_eq(phase_str.as_str(), "failed") {
                    Phase::Failed
                } else {
                    return Err(DeliveryError::DecodeError);
                };
                let res = GetNarrowcastMessageStatusResponse {
                    status,
                    system_message: body_text,
                    phase,
                    success_count: get_uint(ps, "success_count"),
                    failure_count: get_uint(ps, "failure_count"),
                    target_count: get_uint(ps, "target_count"),
                    failed_description: get_str(ps, "failed_description"),
                    error_code: get_uint(ps, "error_code"),
                };
                Ok(res)
            },
            _ => Err(DeliveryError::DecodeError),
        }
    }
}

/// The decoded outcome of a content fetch: the raw bytes, with a
/// best-effort text rendering for diagnostics.
pub struct GetContentResponse {
    pub status: u16,
    pub system_message: String,
    pub content: Vec<u8>,
}

/// Relies on `core::str::from_utf8`: returns the decoded text exactly when
/// the bytes are valid UTF-8.
#[verifier::external_body]
fn utf8_or_empty(bytes: &Vec<u8>) -> (s: String)
    ensures
        vstd::utf8::valid_utf8(bytes@) ==> vstd::utf8::encode_utf8(s@) == bytes@,
        !vstd::utf8::valid_utf8(bytes@) ==> s@ == Seq::<char>::empty(),
{
    match core::str::from_utf8(bytes.as_slice()) {
        Ok(t) => t.to_owned(),
        Err(_) => String::new(),
    }
}

impl GetContentResponse {
    /// Decodes a content fetch: the bytes are returned intact, and the
    /// diagnostic text is their UTF-8 decoding when they are valid UTF-8,
    /// empty otherwise — a decode failure is never fatal.
    pub fn decode(status: u16, content: Vec<u8>) -> (r: Self)
        ensures
            r.status == status,
            r.content@ == content@,
            vstd::utf8::valid_utf8(content@) ==> vstd::utf8::encode_utf8(r.system_message@)
                == content@,
            !vstd::utf8::valid_utf8(content@) ==> r.system_message@ == Seq::<char>::empty(),
    {
        let system_message = utf8_or_empty(&content);
        GetContentResponse { status, system_message, content }
    }
}

} // verus!
