//! Request handling: classify a requested name against a configuration
//! snapshot and derive the wire status for the answer.

use vstd::prelude::*;

use crate::config::{ConfigError, Configuration};

verus! {

/// Presence confirmed: success with no body.
pub const STATUS_ENABLED: u16 = 204;

/// The name is known but its flag is off; distinguishes "known but disabled"
/// from "unknown".
pub const STATUS_DISABLED: u16 = 402;

/// The name is absent from the table; also the answer for an unmatched route.
pub const STATUS_NOT_FOUND: u16 = 404;

/// The configuration could not be resolved for this request.
pub const STATUS_CONFIG_ERROR: u16 = 500;

/// The request body was malformed or carried no usable name.
pub const STATUS_CLIENT_ERROR: u16 = 400;

/// The tri-state answer of a lookup, prior to its translation into a wire
/// status.
#[derive(Clone, Copy, Debug, PartialEq, Eq, Structural)]
pub enum LookupOutcome {
    Enabled,
    Disabled,
    Unknown,
}

/// What the transport should send back: the status code, and whether the
/// answer may be cached.  Answers are never cacheable, since the
/// configuration can change between requests.
#[derive(Clone, Copy, Debug, PartialEq, Eq, Structural)]
pub struct ResponseDescriptor {
    pub status: u16,
    pub cacheable: bool,
}

/// A validated lookup request; its name is never empty.
#[derive(Debug)]
pub struct LookupRequest {
    pub name: String,
}

impl LookupRequest {
    /// A well-formed request carries a non-empty name.
    pub open spec fn wf(self) -> bool {
        self.name@.len() > 0
    }
}

/// How a name classifies against a project table: absent names are unknown,
/// present ones are enabled or disabled exactly as their flag says.
pub open spec fn classify_spec(projects: Map<Seq<char>, bool>, name: Seq<char>) -> LookupOutcome {
    if !projects.contains_key(name) {
        LookupOutcome::Unknown
    } else if projects[name] {
        LookupOutcome::Enabled
    } else {
        LookupOutcome::Disabled
    }
}

/// The wire status for each outcome.
pub open spec fn status_for_outcome(outcome: LookupOutcome) -> u16 {
    match outcome {
        LookupOutcome::Enabled => STATUS_ENABLED,
        LookupOutcome::Disabled => STATUS_DISABLED,
        LookupOutcome::Unknown => STATUS_NOT_FOUND,
    }
}

/// The non-cacheable answer carrying an outcome's status.
pub open spec fn response_for_outcome_spec(outcome: LookupOutcome) -> ResponseDescriptor {
    ResponseDescriptor { status: status_for_outcome(outcome), cacheable: false }
}

/// The answer when the configuration could not be resolved.
pub open spec fn server_error_spec() -> ResponseDescriptor {
    ResponseDescriptor { status: STATUS_CONFIG_ERROR, cacheable: false }
}

/// The answer to a malformed request body.
pub open spec fn client_error_spec() -> ResponseDescriptor {
    ResponseDescriptor { status: STATUS_CLIENT_ERROR, cacheable: false }
}

/// The answer to a request that matched no route.
pub open spec fn not_found_spec() -> ResponseDescriptor {
    ResponseDescriptor { status: STATUS_NOT_FOUND, cacheable: false }
}

/// The whole decision table of a handled request: a resolution failure is a
/// server error whatever the name; otherwise the name's outcome decides the
/// status.
pub open spec fn response_spec(
    config: Result<Configuration, ConfigError>,
    name: Seq<char>,
) -> ResponseDescriptor {
    match config {
        Ok(c) => response_for_outcome_spec(classify_spec(c.projects_map(), name)),
        Err(_) => server_error_spec(),
    }
}

/// Classify a requested name against a snapshot's project table.
pub fn classify(config: &Configuration, name: &String) -> (r: LookupOutcome)
    ensures
        r == classify_spec(config.projects_map(), name@),
{
    match config.lookup(name) {
        None => LookupOutcome::Unknown,
        Some(true) => LookupOutcome::Enabled,
        Some(false) => LookupOutcome::Disabled,
    }
}

/// The non-cacheable answer carrying an outcome's status.
pub fn response_for_outcome(outcome: LookupOutcome) -> (r: ResponseDescriptor)
    ensures
        r == response_for_outcome_spec(outcome),
{
    let status: u16 = match outcome {
        LookupOutcome::Enabled => STATUS_ENABLED,
        LookupOutcome::Disabled => STATUS_DISABLED,
        LookupOutcome::Unknown => STATUS_NOT_FOUND,
    };
    ResponseDescriptor { status, cacheable: false }
}

/// The answer for a name that a resolved snapshot's table knows or does not
/// know: enabled, disabled or unknown, as the table says.
pub fn check_project_presence(project_name: &String, config: &Configuration) -> (r:
    ResponseDescriptor)
    ensures
        r == response_for_outcome_spec(classify_spec(config.projects_map(), project_name@)),
{
    response_for_outcome(classify(config, project_name))
}

/// Answer a validated request against the result of this request's
/// configuration resolution: a failed resolution is a server error and no
/// lookup happens; a resolved snapshot answers by its table.
pub fn handle(name: &String, config: Result<Configuration, ConfigError>) -> (r: ResponseDescriptor)
    ensures
        r == response_spec(config, name@),
        !r.cacheable,
        config is Err ==> r.status == STATUS_CONFIG_ERROR,
{
    match config {
        Ok(c) => check_project_presence(name, &c),
        Err(_) => ResponseDescriptor { status: STATUS_CONFIG_ERROR, cacheable: false },
    }
}

/// Whether a request body field makes a well-formed request: it must be
/// present and non-empty.
pub open spec fn valid_name(body_name: Option<String>) -> bool {
    body_name matches Some(n) && n@.len() > 0
}

/// Validate the name extracted from a request body, before any lookup: a
/// missing or empty name is the client's error.
pub fn validate_request(body_name: Option<String>) -> (r: Result<LookupRequest, ResponseDescriptor>)
    ensures
        r is Ok <==> valid_name(body_name),
        r matches Ok(req) ==> body_name == Some(req.name) && req.wf(),
        r matches Err(d) ==> d == client_error_spec(),
{
    match body_name {
        Some(name) => {
            if !name.as_str().is_empty() {
                Ok(LookupRequest { name })
            } else {
                Err(ResponseDescriptor { status: STATUS_CLIENT_ERROR, cacheable: false })
            }
        },
        None => Err(ResponseDescriptor { status: STATUS_CLIENT_ERROR, cacheable: false }),
    }
}

/// Whether a request line reaches the lookup at all: only a POST to the root
/// path does; everything else is answered not-found.
pub fn route_matches(method: &String, path: &String) -> (r: bool)
    ensures
        r == (method@ == "POST"@ && path@ == "/"@),
{
    let post: String = "POST".to_owned();
    let root: String = "/".to_owned();
    *method == post && *path == root
}

/// The answer to a request that matched no route.
pub fn not_found_response() -> (r: ResponseDescriptor)
    ensures
        r == not_found_spec(),
{
    ResponseDescriptor { status: STATUS_NOT_FOUND, cacheable: false }
}

} // verus!
