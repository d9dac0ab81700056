use vstd::prelude::*;
use crate::json::{
    is_json_document,
    json_present_at,
    json_text_at,
    json_value_at,
    parse_json,
    text_at_or_empty,
    text_or_empty,
};

verus! {

/// The upstream call that a job asks for; a missing `body` is sent as JSON null.
pub struct UpstreamRequest {
    pub url: String,
    pub body: Option<serde_json::Value>,
    pub api_key: String,
}

/// A decoded delivery. Missing string fields read as the empty string.
pub struct TaskMessage {
    pub message_id: String,
    pub body_hash: String,
    pub request: UpstreamRequest,
}

/// The request that the delivery `data` describes under `payload`.
pub open spec fn request_of(req: UpstreamRequest, data: Seq<u8>) -> bool {
    &&& req.url@ == text_or_empty(json_text_at(data, "/payload/url"@))
    &&& req.api_key@ == text_or_empty(json_text_at(data, "/payload/api_key"@))
    &&& (req.body is Some <==> json_present_at(data, "/payload/body"@))
}

/// The message that the delivery `data` describes.
pub open spec fn message_of(m: TaskMessage, data: Seq<u8>) -> bool {
    &&& m.message_id@ == text_or_empty(json_text_at(data, "/message_id"@))
    &&& m.body_hash@ == text_or_empty(json_text_at(data, "/body_hash"@))
    &&& request_of(m.request, data)
}

/// Decodes a delivery body: any JSON document is accepted, and only
/// malformed JSON is refused. String fields that are missing, or are not
/// strings, read as the empty string.
pub fn decode_delivery(data: &[u8]) -> (r: Option<TaskMessage>)
    ensures
        r is Some <==> is_json_document(data@),
        r matches Some(m) ==> message_of(m, data@),
{
    if parse_json(data).is_none() {
        return None;
    }
    let message_id = text_at_or_empty(data, "/message_id");
    let body_hash = text_at_or_empty(data, "/body_hash");
    let url = text_at_or_empty(data, "/payload/url");
    let api_key = text_at_or_empty(data, "/payload/api_key");
    let body = json_value_at(data, "/payload/body");
    Some(TaskMessage { message_id, body_hash, request: UpstreamRequest { url, body, api_key } })
}

} // verus!
