//! The library's error type and the machine-readable error envelope that
//! every failing command reports.

use vstd::prelude::*;
use vstd::string::*;

use crate::json::{insert_entry, json_view, opt_view, string_array, strings_view, Json, JsonMap, JsonV};
use crate::text::{concat, decimal, u64_text};

verus! {

/// Everything that can go wrong. Failures raised by I/O, HTTP, JSON, URL and
/// keyring layers carry the text of the underlying error.
#[derive(Debug)]
pub enum YnabError {
    Config(String),
    MissingCredentials,
    ResourceResolution { resource: &'static str, name: String, matches: Vec<String> },
    InvalidAmount(String),
    Io(String),
    Http(String),
    Json(String),
    Url(String),
    Keyring(String),
    Browser(String),
    Api { status: u16, id: String, name: String, detail: String, body: Json },
}

/// `{ "ok": false, "error": ... }`
#[derive(Debug)]
pub struct CliErrorEnvelope {
    pub ok: bool,
    pub error: CliErrorBody,
}

/// The error member of an error envelope.
#[derive(Debug)]
pub struct CliErrorBody {
    pub code: String,
    pub message: String,
    pub status: Option<u16>,
    pub details: Option<Json>,
}

/// Whether `e` is a configuration error with the text `msg`.
pub open spec fn is_config_error(e: YnabError, msg: Seq<char>) -> bool {
    e matches YnabError::Config(m) && m@ == msg
}

/// Whether `e` is a URL error with the text `msg`.
pub open spec fn is_url_error(e: YnabError, msg: Seq<char>) -> bool {
    e matches YnabError::Url(m) && m@ == msg
}

/// The human-readable text of an error.
pub open spec fn error_message(e: YnabError) -> Seq<char> {
    match e {
        YnabError::Config(m) => "configuration error: "@ + m@,
        YnabError::MissingCredentials => "missing authentication. set a personal access token or complete OAuth setup"@,
        YnabError::ResourceResolution { resource, name, .. } => "resource resolution failed for "@
            + resource@ + ": "@ + name@,
        YnabError::InvalidAmount(m) => "invalid amount: "@ + m@,
        YnabError::Io(m) => "I/O error: "@ + m@,
        YnabError::Http(m) => "HTTP error: "@ + m@,
        YnabError::Json(m) => "JSON error: "@ + m@,
        YnabError::Url(m) => "URL error: "@ + m@,
        YnabError::Keyring(m) => "keyring error: "@ + m@,
        YnabError::Browser(m) => "browser open failed: "@ + m@,
        YnabError::Api { status, name, detail, .. } => "API error "@ + decimal(status as nat)
            + ": "@ + name@ + " ("@ + detail@ + ")"@,
    }
}

/// The machine-readable code of an error.
pub open spec fn error_code(e: YnabError) -> Seq<char> {
    match e {
        YnabError::Config(_) => "config_error"@,
        YnabError::MissingCredentials => "missing_credentials"@,
        YnabError::ResourceResolution { .. } => "resource_resolution_error"@,
        YnabError::InvalidAmount(_) => "invalid_amount"@,
        YnabError::Io(_) => "io_error"@,
        YnabError::Http(_) => "http_error"@,
        YnabError::Json(_) => "json_error"@,
        YnabError::Url(_) => "url_error"@,
        YnabError::Keyring(_) => "keyring_error"@,
        YnabError::Browser(_) => "browser_error"@,
        YnabError::Api { id, .. } => "api_"@ + id@,
    }
}

/// The HTTP-like status reported with an error.
pub open spec fn error_status(e: YnabError) -> Option<u16> {
    match e {
        YnabError::MissingCredentials => Some(401),
        YnabError::ResourceResolution { .. } => Some(400),
        YnabError::InvalidAmount(_) => Some(400),
        YnabError::Api { status, .. } => Some(status),
        _ => None,
    }
}

/// The structured details reported with an error.
pub open spec fn error_details(e: YnabError) -> Option<JsonV> {
    match e {
        YnabError::ResourceResolution { resource, name, matches } => Some(
            JsonV::Object(
                insert_entry(
                    insert_entry(
                        insert_entry(Seq::empty(), "resource"@, JsonV::Str(resource@)),
                        "name"@,
                        JsonV::Str(name@),
                    ),
                    "matches"@,
                    JsonV::Array(strings_view(matches@)),
                ),
            ),
        ),
        YnabError::Api { name, detail, body, .. } => Some(
            JsonV::Object(
                insert_entry(
                    insert_entry(
                        insert_entry(Seq::empty(), "api_name"@, JsonV::Str(name@)),
                        "api_detail"@,
                        JsonV::Str(detail@),
                    ),
                    "raw"@,
                    json_view(body),
                ),
            ),
        ),
        _ => None,
    }
}

fn prefixed(prefix: &str, m: &String) -> (out: String)
    ensures
        out@ == prefix@ + m@,
{
    concat(prefix, m.as_str())
}

impl YnabError {
    /// The human-readable text of the error.
    pub fn message(&self) -> (out: String)
        ensures
            out@ == error_message(*self),
    {
        match self {
            YnabError::Config(m) => prefixed("configuration error: ", m),
            YnabError::MissingCredentials => "missing authentication. set a personal access token or complete OAuth setup".to_owned(),
            YnabError::ResourceResolution { resource, name, .. } => {
                let mut out = "resource resolution failed for ".to_owned();
                out.append(resource);
                out.append(": ");
                out.append(name.as_str());
                out
            },
            YnabError::InvalidAmount(m) => prefixed("invalid amount: ", m),
            YnabError::Io(m) => prefixed("I/O error: ", m),
            YnabError::Http(m) => prefixed("HTTP error: ", m),
            YnabError::Json(m) => prefixed("JSON error: ", m),
            YnabError::Url(m) => prefixed("URL error: ", m),
            YnabError::Keyring(m) => prefixed("keyring error: ", m),
            YnabError::Browser(m) => prefixed("browser open failed: ", m),
            YnabError::Api { status, name, detail, .. } => {
                let mut out = "API error ".to_owned();
                let code = u64_text(*status as u64);
                out.append(code.as_str());
                out.append(": ");
                out.append(name.as_str());
                out.append(" (");
                out.append(detail.as_str());
                out.append(")");
                out
            },
        }
    }

    /// The error envelope reported for this error: its code, message, status
    /// and details.
    pub fn to_cli_envelope(&self) -> (env: CliErrorEnvelope)
        ensures
            !env.ok,
            env.error.code@ == error_code(*self),
            env.error.message@ == error_message(*self),
            env.error.status == error_status(*self),
            opt_view(env.error.details) == error_details(*self),
    {
        let (code, status, details) = match self {
            YnabError::Config(_) => ("config_error".to_owned(), None, None),
            YnabError::MissingCredentials => ("missing_credentials".to_owned(), Some(401u16), None),
            YnabError::ResourceResolution { resource, name, matches } => {
                let mut m = JsonMap::new();
                m.insert("resource".to_owned(), Json::from_str(resource));
                m.insert("name".to_owned(), Json::String(name.clone()));
                m.insert("matches".to_owned(), string_array(matches));
                ("resource_resolution_error".to_owned(), Some(400u16), Some(Json::Object(m)))
            },
            YnabError::InvalidAmount(_) => ("invalid_amount".to_owned(), Some(400u16), None),
            YnabError::Io(_) => ("io_error".to_owned(), None, None),
            YnabError::Http(_) => ("http_error".to_owned(), None, None),
            YnabError::Json(_) => ("json_error".to_owned(), None, None),
            YnabError::Url(_) => ("url_error".to_owned(), None, None),
            YnabError::Keyring(_) => ("keyring_error".to_owned(), None, None),
            YnabError::Browser(_) => ("browser_error".to_owned(), None, None),
            YnabError::Api { status, id, name, detail, body } => {
                let mut m = JsonMap::new();
                m.insert("api_name".to_owned(), Json::String(name.clone()));
                m.insert("api_detail".to_owned(), Json::String(detail.clone()));
                m.insert("raw".to_owned(), body.deep_copy());
                (concat("api_", id.as_str()), Some(*status), Some(Json::Object(m)))
            },
        };
        CliErrorEnvelope {
            ok: false,
            error: CliErrorBody { code, message: self.message(), status, details },
        }
    }
}

} // verus!
