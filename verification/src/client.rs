use vstd::prelude::*;
use vstd::string::StringExecFns;
use crate::json::{Json, JsonV, json_parse, parse_json, lookup};
use crate::envelope::{ShapeError, NormV, norm_spec, normalize};
use crate::errors::{ApiError, ApiErrorV};

verus! {

/// Device identity as the wizard endpoint reports it. All four fields are
/// required: the absence of any is a parse failure, never a partial result.
pub struct BasicInfo {
    pub brand: String,
    pub model: String,
    pub sn: String,
    pub mac: String,
}

/// The mathematical shape of a device identity.
pub struct BasicInfoV {
    pub brand: Seq<char>,
    pub model: Seq<char>,
    pub sn: Seq<char>,
    pub mac: Seq<char>,
}

impl View for BasicInfo {
    type V = BasicInfoV;

    open spec fn view(&self) -> BasicInfoV {
        BasicInfoV { brand: self.brand@, model: self.model@, sn: self.sn@, mac: self.mac@ }
    }
}

/// What the HTTP transport handed back for one request: the status line
/// and the body, where `Err` keeps the reason the body bytes were not text.
pub struct HttpReply {
    pub status: u16,
    pub reason: String,
    pub body: Result<String, String>,
}

/// The mathematical shape of a transport reply.
pub struct HttpReplyV {
    pub status: int,
    pub reason: Seq<char>,
    pub body: Result<Seq<char>, Seq<char>>,
}

impl View for HttpReply {
    type V = HttpReplyV;

    open spec fn view(&self) -> HttpReplyV {
        HttpReplyV {
            status: self.status as int,
            reason: self.reason@,
            body: match self.body {
                Ok(t) => Ok(t@),
                Err(d) => Err(d@),
            },
        }
    }
}

/// How a reply classifies before any payload interpretation: a payload on
/// full success, a pinned failure, or a parse failure that carries the JSON
/// parser's own message.
pub enum ApiOutcome {
    Payload(JsonV),
    Failure(ApiErrorV),
    ParserFailure,
}

/// The classification of a transport reply. Any status other than 200 is a
/// status failure as the transport reported it; an unreadable or
/// unparseable body is a parse failure; a normalized envelope with a
/// non-zero status code is a status failure with the envelope's own code
/// and message; only a zero status code yields the payload.
pub open spec fn spec_api_outcome(reply: HttpReplyV) -> ApiOutcome {
    if reply.status != 200 {
        ApiOutcome::Failure(ApiErrorV::Status(reply.status, reply.reason))
    } else {
        match reply.body {
            Err(d) => ApiOutcome::Failure(ApiErrorV::Parse(d)),
            Ok(text) => match json_parse(text) {
                None => ApiOutcome::ParserFailure,
                Some(j) => match norm_spec(j) {
                    NormV::Env(env) => if env.code == 0 {
                        ApiOutcome::Payload(env.payload)
                    } else {
                        ApiOutcome::Failure(ApiErrorV::Status(env.code, env.message))
                    },
                    NormV::EmptyResultSet => ApiOutcome::Failure(
                        ApiErrorV::Parse("empty result set"@),
                    ),
                    NormV::Unrecognized => ApiOutcome::Failure(
                        ApiErrorV::Parse("unrecognized response shape"@),
                    ),
                },
            },
        }
    }
}

/// Whether a result is the one the classification demands.
pub open spec fn response_obeys(reply: HttpReplyV, r: Result<JsonV, ApiErrorV>) -> bool {
    match spec_api_outcome(reply) {
        ApiOutcome::Payload(p) => r == Ok::<JsonV, ApiErrorV>(p),
        ApiOutcome::Failure(e) => r == Err::<JsonV, ApiErrorV>(e),
        ApiOutcome::ParserFailure => r matches Err(ApiErrorV::Parse(_)),
    }
}

/// Classifies one transport reply: the envelope's payload on full success,
/// or the error the reply maps to.
pub fn interpret_response(reply: HttpReply) -> (r: Result<Json, ApiError>)
    ensures
        match r {
            Ok(j) => response_obeys(reply@, Ok(j@)),
            Err(e) => response_obeys(reply@, Err(e@)),
        },
{
    if reply.status != 200 {
        Err(ApiError::Status(reply.status as i64, reply.reason))
    } else {
        match reply.body {
            Err(d) => Err(ApiError::Parse(d)),
            Ok(text) => match parse_json(text.as_str()) {
                Err(msg) => Err(ApiError::Parse(msg)),
                Ok(doc) => match normalize(&doc) {
                    Err(ShapeError::EmptyResultSet) => Err(
                        ApiError::Parse(String::from_str("empty result set")),
                    ),
                    Err(ShapeError::Unrecognized) => Err(
                        ApiError::Parse(String::from_str("unrecognized response shape")),
                    ),
                    Ok(env) => if env.code == 0 {
                        Ok(env.payload)
                    } else {
                        Err(ApiError::Status(env.code, env.message))
                    },
                },
            },
        }
    }
}

/// Law: classification yields a payload exactly when the transport
/// reported HTTP 200 and the body parsed to an envelope whose status code
/// is zero; every error variant keeps the payload back.
pub proof fn lemma_success_needs_zero_code(reply: HttpReplyV, r: Result<JsonV, ApiErrorV>)
    requires
        response_obeys(reply, r),
    ensures
        r is Ok ==> {
            &&& reply.status == 200
            &&& reply.body matches Ok(text) && json_parse(text) matches Some(j)
                && norm_spec(j) matches NormV::Env(env) && env.code == 0 && r == Ok::<
                JsonV,
                ApiErrorV,
            >(env.payload)
        },
{
}

/// The device identity carried by a success payload: an object with the
/// four identity fields, all strings.
pub open spec fn identity_of(j: JsonV) -> Option<BasicInfoV> {
    match j {
        JsonV::Obj(entries) => match (
            lookup(entries, "brand"@),
            lookup(entries, "model"@),
            lookup(entries, "sn"@),
            lookup(entries, "mac"@),
        ) {
            (
                Some(JsonV::Str(brand)),
                Some(JsonV::Str(model)),
                Some(JsonV::Str(sn)),
                Some(JsonV::Str(mac)),
            ) => Some(BasicInfoV { brand, model, sn, mac }),
            _ => None,
        },
        _ => None,
    }
}

/// Reads the device identity out of a success payload.
pub fn parse_basic_info(payload: &Json) -> (r: Option<BasicInfo>)
    ensures
        match r {
            Some(info) => identity_of(payload@) == Some(info@),
            None => identity_of(payload@) is None,
        },
{
    match payload {
        Json::Obj(fields) => {
            let brand_key = String::from_str("brand");
            let model_key = String::from_str("model");
            let sn_key = String::from_str("sn");
            let mac_key = String::from_str("mac");
            match (
                fields.get(&brand_key),
                fields.get(&model_key),
                fields.get(&sn_key),
                fields.get(&mac_key),
            ) {
                (
                    Some(Json::Str(brand)),
                    Some(Json::Str(model)),
                    Some(Json::Str(sn)),
                    Some(Json::Str(mac)),
                ) => Some(
                    BasicInfo {
                        brand: brand.clone(),
                        model: model.clone(),
                        sn: sn.clone(),
                        mac: mac.clone(),
                    },
                ),
                _ => None,
            }
        },
        _ => None,
    }
}

/// Whether an identity-probe result is the one the reply demands.
pub open spec fn basic_info_obeys(reply: HttpReplyV, r: Result<BasicInfoV, ApiErrorV>) -> bool {
    match spec_api_outcome(reply) {
        ApiOutcome::Payload(p) => match identity_of(p) {
            Some(iv) => r == Ok::<BasicInfoV, ApiErrorV>(iv),
            None => r == Err::<BasicInfoV, ApiErrorV>(
                ApiErrorV::Parse("incomplete device identity"@),
            ),
        },
        ApiOutcome::Failure(e) => r == Err::<BasicInfoV, ApiErrorV>(e),
        ApiOutcome::ParserFailure => r matches Err(ApiErrorV::Parse(_)),
    }
}

/// The compute side of the identity probe: classifies the reply to the
/// identity request and reads the device identity from its payload. A
/// payload without the four identity fields is itself a parse failure.
pub fn get_basic_info(reply: HttpReply) -> (r: Result<BasicInfo, ApiError>)
    ensures
        match r {
            Ok(info) => basic_info_obeys(reply@, Ok(info@)),
            Err(e) => basic_info_obeys(reply@, Err(e@)),
        },
{
    match interpret_response(reply) {
        Err(e) => Err(e),
        Ok(payload) => match parse_basic_info(&payload) {
            Some(info) => Ok(info),
            None => Err(ApiError::Parse(String::from_str("incomplete device identity"))),
        },
    }
}

/// The fixed identity-query path.
pub fn basic_info_path() -> (r: String)
    ensures
        r@ == "/api/wizard/getBasicInfo"@,
{
    String::from_str("/api/wizard/getBasicInfo")
}

/// The service-unlock path carrying a derived credential.
pub fn enable_path(credential: &str) -> (r: String)
    ensures
        r@ == "/api/debug?status=enable"@ + credential@,
{
    let mut path = String::from_str("/api/debug?status=enable");
    path.append(credential);
    path
}

/// The plaintext URL for a host and a path.
pub fn build_url(host: &str, path: &str) -> (r: String)
    ensures
        r@ == "http://"@ + host@ + path@,
{
    let mut url = String::from_str("http://");
    url.append(host);
    url.append(path);
    url
}

} // verus!
