use vstd::prelude::*;

use crate::config::{cfg_extra, cfg_kind, cfg_url, cfg_wf, opt_view, BackendConfig, CfgView};
use crate::errors::{SubErrView, SubmitError};
use crate::registry::BackendKind;
use crate::strutil::str_eq;
use crate::urltext::{is_url, parse_url, url_norm, url_with_path, url_with_query, with_path, with_query};

verus! {

/// How the payload travels to the remote service.
#[derive(Debug, PartialEq, Eq)]
pub enum RequestBody {
    /// The payload as the raw request body.
    Text(String),
    /// The payload as a single named multipart form field.
    Multipart { field: String, value: String },
    /// The payload as a structured body, with the optional metadata the kind
    /// sends along.
    ApiJson { contents: String, title: Option<String> },
}

/// The mathematical shape of a `RequestBody`.
pub enum BodyView {
    Text(Seq<char>),
    Multipart { field: Seq<char>, value: Seq<char> },
    ApiJson { contents: Seq<char>, title: Option<Seq<char>> },
}

impl View for RequestBody {
    type V = BodyView;

    open spec fn view(&self) -> BodyView {
        match self {
            RequestBody::Text(t) => BodyView::Text(t@),
            RequestBody::Multipart { field, value } => BodyView::Multipart {
                field: field@,
                value: value@,
            },
            RequestBody::ApiJson { contents, title } => BodyView::ApiJson {
                contents: contents@,
                title: opt_view(*title),
            },
        }
    }
}

/// Which part of the exchange's answer the kind's protocol reads.
#[derive(Clone, Copy, PartialEq, Eq, Structural, Debug)]
pub enum ResponseFormat {
    /// A structured body carrying a short opaque key.
    HasteKey,
    /// A structured body carrying a success flag, a message and a locator.
    PasteApi,
    /// The literal response body.
    Body,
    /// The exchange's final resolved address; the body is not read.
    Address,
}

/// One remote exchange, described as plain values: where to send the
/// payload, in what shape, and which part of the answer to hand back.
#[derive(Debug, PartialEq, Eq)]
pub struct HttpRequest {
    pub url: String,
    pub body: RequestBody,
    pub response: ResponseFormat,
}

/// The mathematical shape of an `HttpRequest`.
pub struct ReqView {
    pub url: Seq<char>,
    pub body: BodyView,
    pub response: ResponseFormat,
}

impl View for HttpRequest {
    type V = ReqView;

    open spec fn view(&self) -> ReqView {
        ReqView { url: self.url@, body: self.body@, response: self.response }
    }
}

/// The structured answer of a `PasteApi` service, reduced to plain values.
#[derive(Debug, PartialEq, Eq)]
pub struct PasteReply {
    pub success: Option<bool>,
    pub message: String,
    pub url: String,
}

/// The mathematical shape of a `PasteReply`.
pub struct ReplyView {
    pub success: Option<bool>,
    pub message: Seq<char>,
    pub url: Seq<char>,
}

impl View for PasteReply {
    type V = ReplyView;

    open spec fn view(&self) -> ReplyView {
        ReplyView { success: self.success, message: self.message@, url: self.url@ }
    }
}

/// What came back from the exchange, in the shape the request asked for.
/// `None` in a structured case means the body was not the promised shape.
#[derive(Debug, PartialEq, Eq)]
pub enum ResponseData {
    HasteKey { key: Option<String>, raw: String },
    PasteApi { reply: Option<PasteReply>, raw: String },
    Body { body: String },
    Address { address: String },
}

/// The mathematical shape of a `ResponseData`.
pub enum RespView {
    HasteKey { key: Option<Seq<char>>, raw: Seq<char> },
    PasteApi { reply: Option<ReplyView>, raw: Seq<char> },
    Body { body: Seq<char> },
    Address { address: Seq<char> },
}

impl View for ResponseData {
    type V = RespView;

    open spec fn view(&self) -> RespView {
        match self {
            ResponseData::HasteKey { key, raw } => RespView::HasteKey {
                key: opt_view(*key),
                raw: raw@,
            },
            ResponseData::PasteApi { reply, raw } => RespView::PasteApi {
                reply: match reply {
                    Some(p) => Some(p@),
                    None => None,
                },
                raw: raw@,
            },
            ResponseData::Body { body } => RespView::Body { body: body@ },
            ResponseData::Address { address } => RespView::Address { address: address@ },
        }
    }
}

/// The exchange each kind makes for a payload: where the payload goes and in
/// what shape, and which part of the answer the kind reads.
pub open spec fn spec_request(c: CfgView, data: Seq<char>) -> ReqView {
    match c {
        CfgView::Haste { url } => ReqView {
            url: url_with_path(url, "documents"@),
            body: BodyView::Text(data),
            response: ResponseFormat::HasteKey,
        },
        CfgView::ModernPaste { url, title } => ReqView {
            url: url_with_path(url, "/api/paste/submit"@),
            body: BodyView::ApiJson { contents: data, title },
            response: ResponseFormat::PasteApi,
        },
        CfgView::Pipfi { url } => ReqView {
            url,
            body: BodyView::Multipart { field: "paste"@, value: data },
            response: ResponseFormat::Body,
        },
        CfgView::Sprunge { url, .. } => ReqView {
            url,
            body: BodyView::Multipart { field: "sprunge"@, value: data },
            response: ResponseFormat::Body,
        },
        CfgView::Vpaste { url } => ReqView {
            url,
            body: BodyView::Multipart { field: "text"@, value: data },
            response: ResponseFormat::Address,
        },
    }
}

/// Whether an answer is in the shape the kind's protocol asked for.
pub open spec fn resp_matches(k: BackendKind, r: RespView) -> bool {
    match r {
        RespView::HasteKey { .. } => k == BackendKind::Haste,
        RespView::PasteApi { .. } => k == BackendKind::ModernPaste,
        RespView::Body { .. } => k == BackendKind::Pipfi || k == BackendKind::Sprunge,
        RespView::Address { .. } => k == BackendKind::Vpaste,
    }
}

/// The locator each kind makes of an answer, or the submission failure it
/// reports: a missing or malformed structured body and a body that is not a
/// URL are invalid responses; an answer whose success flag explicitly says
/// failure is a failure, never success; a set syntax label is appended to the
/// locator as its query.
pub open spec fn spec_finish(c: CfgView, r: RespView) -> Result<Seq<char>, SubErrView> {
    match r {
        RespView::HasteKey { key, raw } => match key {
            Some(k) => Ok(url_with_path(cfg_url(c), k)),
            None => Err(SubErrView::InvalidResponse(raw)),
        },
        RespView::PasteApi { reply, raw } => match reply {
            Some(rep) => if rep.success == Some(false) {
                Err(SubErrView::ApiFailure(rep.message))
            } else {
                match url_norm(rep.url) {
                    Some(n) => Ok(n),
                    None => Err(SubErrView::InvalidResponse(rep.url)),
                }
            },
            None => Err(SubErrView::InvalidResponse(raw)),
        },
        RespView::Body { body } => match url_norm(body) {
            None => Err(SubErrView::InvalidResponse(body)),
            Some(n) => match cfg_extra(c) {
                Some(sx) => Ok(url_with_query(n, sx)),
                None => Ok(n),
            },
        },
        RespView::Address { address } => Ok(address),
    }
}

impl BackendConfig {
    /// Describes the one remote exchange `submit` makes for this
    /// configuration and payload.
    pub fn build_request(&self, data: String) -> (r: HttpRequest)
        requires
            cfg_wf(self@),
        ensures
            r@ == spec_request(self@, data@),
    {
        match self {
            BackendConfig::Haste { url } => HttpRequest {
                url: with_path(url.as_str(), "documents"),
                body: RequestBody::Text(data),
                response: ResponseFormat::HasteKey,
            },
            BackendConfig::ModernPaste { url, title } => HttpRequest {
                url: with_path(url.as_str(), "/api/paste/submit"),
                body: RequestBody::ApiJson {
                    contents: data,
                    title: match title {
                        Some(t) => Some(t.clone()),
                        None => None,
                    },
                },
                response: ResponseFormat::PasteApi,
            },
            BackendConfig::Pipfi { url } => HttpRequest {
                url: url.clone(),
                body: RequestBody::Multipart { field: String::from_str("paste"), value: data },
                response: ResponseFormat::Body,
            },
            BackendConfig::Sprunge { url, .. } => HttpRequest {
                url: url.clone(),
                body: RequestBody::Multipart { field: String::from_str("sprunge"), value: data },
                response: ResponseFormat::Body,
            },
            BackendConfig::Vpaste { url } => HttpRequest {
                url: url.clone(),
                body: RequestBody::Multipart { field: String::from_str("text"), value: data },
                response: ResponseFormat::Address,
            },
        }
    }

    /// Turns the answer of the exchange into the canonical locator, or into
    /// the submission failure it reports, exactly as `spec_finish` says.
    pub fn finish_submit(&self, resp: &ResponseData) -> (r: Result<String, SubmitError>)
        requires
            cfg_wf(self@),
            resp_matches(cfg_kind(self@), resp@),
        ensures
            (match spec_finish(self@, resp@) {
                Ok(u) => r matches Ok(s) && s@ == u,
                Err(e) => r matches Err(e2) && e2@ == e,
            }),
    {
        match self {
            BackendConfig::Haste { url } => match resp {
                ResponseData::HasteKey { key, raw } => match key {
                    Some(k) => Ok(with_path(url.as_str(), k.as_str())),
                    None => Err(SubmitError::InvalidResponse(raw.clone())),
                },
                _ => {
                    proof {
                        assert(false);
                    }
                    Err(SubmitError::InvalidResponse(String::new()))
                }
            },
            BackendConfig::ModernPaste { .. } => match resp {
                ResponseData::PasteApi { reply, raw } => match reply {
                    Some(rep) => {
                        let failed = match rep.success {
                            Some(b) => !b,
                            None => false,
                        };
                        if failed {
                            Err(SubmitError::ApiFailure(rep.message.clone()))
                        } else {
                            match parse_url(rep.url.as_str()) {
                                Some(n) => Ok(n),
                                None => Err(SubmitError::InvalidResponse(rep.url.clone())),
                            }
                        }
                    }
                    None => Err(SubmitError::InvalidResponse(raw.clone())),
                },
                _ => {
                    proof {
                        assert(false);
                    }
                    Err(SubmitError::InvalidResponse(String::new()))
                }
            },
            BackendConfig::Pipfi { .. } => match resp {
                ResponseData::Body { body } => match parse_url(body.as_str()) {
                    Some(n) => Ok(n),
                    None => Err(SubmitError::InvalidResponse(body.clone())),
                },
                _ => {
                    proof {
                        assert(false);
                    }
                    Err(SubmitError::InvalidResponse(String::new()))
                }
            },
            BackendConfig::Sprunge { syntax, .. } => match resp {
                ResponseData::Body { body } => match parse_url(body.as_str()) {
                    Some(n) => match syntax {
                        Some(sx) => Ok(with_query(n.as_str(), sx.as_str())),
                        None => Ok(n),
                    },
                    None => Err(SubmitError::InvalidResponse(body.clone())),
                },
                _ => {
                    proof {
                        assert(false);
                    }
                    Err(SubmitError::InvalidResponse(String::new()))
                }
            },
            BackendConfig::Vpaste { .. } => match resp {
                ResponseData::Address { address } => Ok(address.clone()),
                _ => {
                    proof {
                        assert(false);
                    }
                    Err(SubmitError::InvalidResponse(String::new()))
                }
            },
        }
    }

    /// `build_request` behind a canonical-form check: gives the request
    /// exactly when the held endpoint is in canonical URL form, and nothing
    /// otherwise.
    pub fn try_build_request(&self, data: String) -> (r: Option<HttpRequest>)
        ensures
            (r is Some) <==> cfg_wf(self@),
            r matches Some(q) ==> q@ == spec_request(self@, data@),
    {
        let url = self.url_ref();
        match parse_url(url.as_str()) {
            Some(n) => {
                if str_eq(n.as_str(), url.as_str()) {
                    Some(self.build_request(data))
                } else {
                    None
                }
            }
            None => None,
        }
    }

    /// `finish_submit` behind the same canonical-form check.
    pub fn try_finish_submit(&self, resp: &ResponseData) -> (r: Option<
        Result<String, SubmitError>,
    >)
        requires
            resp_matches(cfg_kind(self@), resp@),
        ensures
            (r is Some) <==> cfg_wf(self@),
            r matches Some(x) ==> (match spec_finish(self@, resp@) {
                Ok(u) => x matches Ok(s) && s@ == u,
                Err(e) => x matches Err(e2) && e2@ == e,
            }),
    {
        let url = self.url_ref();
        match parse_url(url.as_str()) {
            Some(n) => {
                if str_eq(n.as_str(), url.as_str()) {
                    Some(self.finish_submit(resp))
                } else {
                    None
                }
            }
            None => None,
        }
    }
}

} // verus!
