//! The activation exchange: one request that trades an activation code for
//! an enrollment secret, and the reading of what comes back.
//!
//! The request reproduces what the provisioning service expects of its
//! mobile client. Every parameter is a fixed value of that protocol.

use crate::failure::{DecodeError, DecodeFault, Field};
use crate::json::{json_document, json_tree, parse, text_at, text_member, value_member, JsonTree};
use crate::record::{HOTPData, RecordModel};
use crate::text::{trim, trimmed};
use vstd::prelude::*;
use vstd::string::StringExecFns;

verus! {

/// The request to send, with the method `POST`.
#[derive(Clone, Debug, PartialEq, Eq)]
pub struct ActivationRequest {
    pub method: String,
    /// The endpoint with the activation code as the last path segment.
    pub url: String,
    /// The value of the `User-Agent` header.
    pub user_agent: String,
    /// The query parameters, in the order they are sent.
    pub query: Vec<(String, String)>,
}

/// A request as a mathematical value.
pub struct RequestModel {
    pub method: Seq<char>,
    pub url: Seq<char>,
    pub user_agent: Seq<char>,
    pub query: Seq<(Seq<char>, Seq<char>)>,
}

impl View for ActivationRequest {
    type V = RequestModel;

    open spec fn view(&self) -> RequestModel {
        RequestModel {
            method: self.method@,
            url: self.url@,
            user_agent: self.user_agent@,
            query: self.query@.map_values(|p: (String, String)| (p.0@, p.1@)),
        }
    }
}

/// The endpoint, up to the activation code.
pub open spec fn endpoint() -> Seq<char> {
    "https://api-1b9bef70.duosecurity.com/push/v2/activation/"@
}

/// The client identity that the request carries in its query.
pub open spec fn client_identity() -> Seq<(Seq<char>, Seq<char>)> {
    seq![
        ("app_id"@, "com.duosecurity.duomobile.app.DMApplication"@),
        ("app_version"@, "3.37.1"@),
        ("app_build_number"@, "326002"@),
        ("full_disk_encryption"@, "false"@),
        ("manufacturer"@, "Google"@),
        ("model"@, "Pixel4"@),
        ("platform"@, "Android"@),
        ("jailbroken"@, "false"@),
        ("version"@, "10.0"@),
        ("language"@, "EN"@),
        ("customer_protocol"@, "1"@),
    ]
}

/// The request for an activation code. The code is not looked at: it goes
/// into the path as it was entered.
pub open spec fn request_for(code: Seq<char>) -> RequestModel {
    RequestModel {
        method: "POST"@,
        url: endpoint() + code,
        user_agent: "okhttp/3.11.0"@,
        query: client_identity(),
    }
}

/// The secret that a response envelope holds: the string `hotp_secret`
/// inside the member `response`, beside a string `stat`. Whatever else the
/// envelope holds is not looked at.
pub open spec fn decode_envelope(doc: JsonTree) -> Result<Seq<char>, DecodeFault> {
    match doc.member(Field::Response.key()) {
        None => Err(DecodeFault::Missing(Field::Response)),
        Some(inner) => match text_at(inner, Field::HotpSecret) {
            Err(fault) => Err(fault),
            Ok(secret) => match text_at(doc, Field::Stat) {
                Err(fault) => Err(fault),
                Ok(_) => Ok(secret),
            },
        },
    }
}

/// The secret that a response body holds.
pub open spec fn response_outcome(body: Seq<char>) -> Result<Seq<char>, DecodeFault> {
    match json_document(body) {
        Err(message) => Err(DecodeFault::Syntax(message)),
        Ok(doc) => decode_envelope(doc),
    }
}

/// The record that an activation ends in: the secret of the response, no
/// code issued yet, and the PIN as entered, without the white space around
/// it.
pub open spec fn activation_outcome(body: Seq<char>, pin_line: Seq<char>) -> Result<
    RecordModel,
    DecodeFault,
> {
    match response_outcome(body) {
        Err(fault) => Err(fault),
        Ok(secret) => Ok(RecordModel { secret, counter: 0, pin: trimmed(pin_line) }),
    }
}

fn pair(key: &str, value: &str) -> (r: (String, String))
    ensures
        r.0@ == key@,
        r.1@ == value@,
{
    (String::from_str(key), String::from_str(value))
}

/// The request to send for an activation code.
pub fn activation_request(code: &str) -> (r: ActivationRequest)
    ensures
        r@ == request_for(code@),
{
    let mut url = String::from_str("https://api-1b9bef70.duosecurity.com/push/v2/activation/");
    url.append(code);
    let mut query: Vec<(String, String)> = Vec::new();
    query.push(pair("app_id", "com.duosecurity.duomobile.app.DMApplication"));
    query.push(pair("app_version", "3.37.1"));
    query.push(pair("app_build_number", "326002"));
    query.push(pair("full_disk_encryption", "false"));
    query.push(pair("manufacturer", "Google"));
    query.push(pair("model", "Pixel4"));
    query.push(pair("platform", "Android"));
    query.push(pair("jailbroken", "false"));
    query.push(pair("version", "10.0"));
    query.push(pair("language", "EN"));
    query.push(pair("customer_protocol", "1"));
    let r = ActivationRequest {
        method: String::from_str("POST"),
        url,
        user_agent: String::from_str("okhttp/3.11.0"),
        query,
    };
    assert(r@.query =~= client_identity());
    r
}

/// Reads the secret out of a parsed response envelope.
pub fn secret_from_document(doc: &serde_json::Value) -> (r: Result<String, DecodeError>)
    ensures
        match r {
            Ok(secret) => decode_envelope(json_tree(*doc)) == Ok::<Seq<char>, DecodeFault>(secret@),
            Err(e) => decode_envelope(json_tree(*doc)) == Err::<Seq<char>, DecodeFault>(e@),
        },
{
    let inner = value_member(doc, Field::Response)?;
    let secret = text_member(inner, Field::HotpSecret)?;
    let _stat = text_member(doc, Field::Stat)?;
    Ok(secret)
}

/// Reads the secret out of a response body.
pub fn secret_from_response(body: &str) -> (r: Result<String, DecodeError>)
    ensures
        match r {
            Ok(secret) => response_outcome(body@) == Ok::<Seq<char>, DecodeFault>(secret@),
            Err(e) => response_outcome(body@) == Err::<Seq<char>, DecodeFault>(e@),
        },
{
    let doc = parse(body)?;
    secret_from_document(&doc)
}

/// Completes an activation from what the exchange gave back and the line
/// the user entered as PIN.
pub fn activate(body: &str, pin_line: &str) -> (r: Result<HOTPData, DecodeError>)
    ensures
        match r {
            Ok(record) => activation_outcome(body@, pin_line@) == Ok::<RecordModel, DecodeFault>(
                record@,
            ),
            Err(e) => activation_outcome(body@, pin_line@) == Err::<RecordModel, DecodeFault>(
                e@,
            ),
        },
{
    let secret = secret_from_response(body)?;
    Ok(HOTPData::new(secret, trim(pin_line)))
}

} // verus!
