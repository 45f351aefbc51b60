//! A verified client core for the PaperMC build-distribution REST API.
//!
//! The library renders each operation's endpoint URL, interprets the raw
//! HTTP reply (status code and body text), decodes the six metadata
//! response shapes field for field, resolves the `latest` aliases, and
//! models the chunked download path. The network itself — TLS, sockets,
//! the event loop — stays with the caller, which hands the raw status and
//! body in and gets plain records or errors back.

pub mod decimal;
pub mod download;
pub mod json;
pub mod paper;
pub mod resolve;

use vstd::prelude::*;

use crate::json::{json_of, parse_json, Json};
use crate::paper::{
    decode_group_builds, decode_group_info, decode_project, decode_projects,
    decode_version_builds, decode_version_info, spec_group_builds_of, spec_group_info_of,
    spec_project_of, spec_projects_of, spec_version_builds_of, spec_version_info_of,
    ProjectGroupBuildsResponse, ProjectGroupInfoResponse, ProjectResponse, ProjectsResponse,
    ProjectVersionBuildsResponse, ProjectVersionInfoResponse,
};

verus! {

/// Base host every endpoint path is appended to.
pub open spec fn spec_base_url() -> Seq<char> {
    "https://papermc.io/api"@
}

/// Prefixes an endpoint path with the base host, yielding the full
/// request URL.
pub fn build_url(path: &String) -> (r: String)
    ensures
        r@ == spec_base_url() + path@,
{
    let mut final_url = String::from_str("https://papermc.io/api");
    final_url.append(path.as_str());
    final_url
}

/// What a finished operation can fail with: a reply whose status was not
/// 200, carried verbatim, or a body that did not decode.
#[derive(Debug)]
pub enum PaperError {
    /// The service answered with a status other than 200; the error text
    /// is the raw response body.
    Http(String),
    /// The body was not valid JSON, or did not have the expected shape.
    Malformed(String),
}

impl PaperError {
    /// The text this error surfaces.
    pub open spec fn spec_message(&self) -> Seq<char> {
        match *self {
            PaperError::Http(ref m) => m@,
            PaperError::Malformed(ref m) => m@,
        }
    }

    /// Reads the error text.
    pub fn message(&self) -> (m: &String)
        ensures
            m@ == self.spec_message(),
    {
        match self {
            PaperError::Http(m) => m,
            PaperError::Malformed(m) => m,
        }
    }
}

/// Interprets a reply's status code: anything but 200 is an error that
/// carries the response body text, verbatim, as its message.
pub fn check_status(status: u16, body: &str) -> (r: Result<(), PaperError>)
    ensures
        r is Ok <==> status == 200,
        status != 200 ==> (r matches Err(e) && e matches PaperError::Http(m) && m@ == body@),
{
    if status == 200 {
        Ok(())
    } else {
        Err(PaperError::Http(String::from_str(body)))
    }
}

/// Parses a 200 body into a JSON document, or wraps the parser's message.
fn parse_body(body: &str) -> (r: Result<Json, PaperError>)
    ensures
        r matches Ok(j) ==> json_of(body@) == Some(j),
        r matches Err(e) ==> json_of(body@) is None && e is Malformed,
{
    match parse_json(body) {
        Ok(j) => Ok(j),
        Err(m) => Err(PaperError::Malformed(m)),
    }
}

/// Interprets the reply of the list-projects operation: only a 200 status
/// with a well-formed body yields a record, and that record's fields are
/// the parsed document's, verbatim.
pub fn projects_from_response(status: u16, body: &str) -> (r: Result<
    ProjectsResponse,
    PaperError,
>)
    ensures
        status != 200 ==> (r matches Err(e) && e matches PaperError::Http(m) && m@ == body@),
        status == 200 ==> match json_of(body@) {
            None => r matches Err(e) && e is Malformed,
            Some(j) => match spec_projects_of(j) {
                None => r matches Err(e) && e is Malformed,
                Some(v) => r matches Ok(p) && p@ == v,
            },
        },
{
    match check_status(status, body) {
        Err(e) => Err(e),
        Ok(_) => match parse_body(body) {
            Err(e) => Err(e),
            Ok(j) => match decode_projects(&j) {
                Some(p) => Ok(p),
                None => Err(PaperError::Malformed(String::from_str("response shape mismatch"))),
            },
        },
    }
}

/// Interprets the reply of the project-info operation.
pub fn project_from_response(status: u16, body: &str) -> (r: Result<ProjectResponse, PaperError>)
    ensures
        status != 200 ==> (r matches Err(e) && e matches PaperError::Http(m) && m@ == body@),
        status == 200 ==> match json_of(body@) {
            None => r matches Err(e) && e is Malformed,
            Some(j) => match spec_project_of(j) {
                None => r matches Err(e) && e is Malformed,
                Some(v) => r matches Ok(p) && p@ == v,
            },
        },
{
    match check_status(status, body) {
        Err(e) => Err(e),
        Ok(_) => match parse_body(body) {
            Err(e) => Err(e),
            Ok(j) => match decode_project(&j) {
                Some(p) => Ok(p),
                None => Err(PaperError::Malformed(String::from_str("response shape mismatch"))),
            },
        },
    }
}

/// Interprets the reply of the version-group info operation.
pub fn group_info_from_response(status: u16, body: &str) -> (r: Result<
    ProjectGroupInfoResponse,
    PaperError,
>)
    ensures
        status != 200 ==> (r matches Err(e) && e matches PaperError::Http(m) && m@ == body@),
        status == 200 ==> match json_of(body@) {
            None => r matches Err(e) && e is Malformed,
            Some(j) => match spec_group_info_of(j) {
                None => r matches Err(e) && e is Malformed,
                Some(v) => r matches Ok(g) && g@ == v,
            },
        },
{
    match check_status(status, body) {
        Err(e) => Err(e),
        Ok(_) => match parse_body(body) {
            Err(e) => Err(e),
            Ok(j) => match decode_group_info(&j) {
                Some(g) => Ok(g),
                None => Err(PaperError::Malformed(String::from_str("response shape mismatch"))),
            },
        },
    }
}

/// Interprets the reply of the version-group builds operation.
pub fn group_builds_from_response(status: u16, body: &str) -> (r: Result<
    ProjectGroupBuildsResponse,
    PaperError,
>)
    ensures
        status != 200 ==> (r matches Err(e) && e matches PaperError::Http(m) && m@ == body@),
        status == 200 ==> match json_of(body@) {
            None => r matches Err(e) && e is Malformed,
            Some(j) => match spec_group_builds_of(j) {
                None => r matches Err(e) && e is Malformed,
                Some(v) => r matches Ok(g) && g@ == v,
            },
        },
{
    match check_status(status, body) {
        Err(e) => Err(e),
        Ok(_) => match parse_body(body) {
            Err(e) => Err(e),
            Ok(j) => match decode_group_builds(&j) {
                Some(g) => Ok(g),
                None => Err(PaperError::Malformed(String::from_str("response shape mismatch"))),
            },
        },
    }
}

/// Interprets the reply of the version-info operation.
pub fn version_info_from_response(status: u16, body: &str) -> (r: Result<
    ProjectVersionInfoResponse,
    PaperError,
>)
    ensures
        status != 200 ==> (r matches Err(e) && e matches PaperError::Http(m) && m@ == body@),
        status == 200 ==> match json_of(body@) {
            None => r matches Err(e) && e is Malformed,
            Some(j) => match spec_version_info_of(j) {
                None => r matches Err(e) && e is Malformed,
                Some(v) => r matches Ok(p) && p@ == v,
            },
        },
{
    match check_status(status, body) {
        Err(e) => Err(e),
        Ok(_) => match parse_body(body) {
            Err(e) => Err(e),
            Ok(j) => match decode_version_info(&j) {
                Some(v) => Ok(v),
                None => Err(PaperError::Malformed(String::from_str("response shape mismatch"))),
            },
        },
    }
}

/// Interprets the reply of the version-plus-build info operation.
pub fn version_builds_from_response(status: u16, body: &str) -> (r: Result<
    ProjectVersionBuildsResponse,
    PaperError,
>)
    ensures
        status != 200 ==> (r matches Err(e) && e matches PaperError::Http(m) && m@ == body@),
        status == 200 ==> match json_of(body@) {
            None => r matches Err(e) && e is Malformed,
            Some(j) => match spec_version_builds_of(j) {
                None => r matches Err(e) && e is Malformed,
                Some(v) => r matches Ok(p) && p@ == v,
            },
        },
{
    match check_status(status, body) {
        Err(e) => Err(e),
        Ok(_) => match parse_body(body) {
            Err(e) => Err(e),
            Ok(j) => match decode_version_builds(&j) {
                Some(v) => Ok(v),
                None => Err(PaperError::Malformed(String::from_str("response shape mismatch"))),
            },
        },
    }
}

/// Compile-time client configuration: whether each outgoing URL and each
/// response status should be echoed to the console. The switch changes
/// nothing about what is requested or returned.
pub trait PaperClientConfig {
    /// Whether this configuration asks for debug echoes.
    spec fn spec_debug() -> bool;

    /// Says whether the caller should echo each outgoing URL and each
    /// response status.
    fn debug() -> (b: bool)
        ensures
            b == Self::spec_debug(),
    ;
}

/// The configuration that echoes every request URL and response status.
pub struct PaperClientDebug;

impl PaperClientConfig for PaperClientDebug {
    open spec fn spec_debug() -> bool {
        true
    }

    fn debug() -> bool {
        true
    }
}

/// The quiet configuration.
pub struct PaperClient;

impl PaperClientConfig for PaperClient {
    open spec fn spec_debug() -> bool {
        false
    }

    fn debug() -> bool {
        false
    }
}

} // verus!
