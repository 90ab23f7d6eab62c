//! The guarantees the handler gives, stated once over the specification
//! functions that the executable contracts use.

use vstd::prelude::*;

use crate::config::{ConfigError, Configuration};
use crate::handler::{
    classify_spec, response_spec, server_error_spec, status_for_outcome, LookupOutcome,
    STATUS_DISABLED, STATUS_ENABLED,
};

verus! {

/// A name absent from the project table is Unknown, whatever else the table
/// holds: two tables that both lack the name agree on its outcome.
pub proof fn lemma_absent_name_unknown(
    projects: Map<Seq<char>, bool>,
    others: Map<Seq<char>, bool>,
    name: Seq<char>,
)
    requires
        !projects.contains_key(name),
        !others.contains_key(name),
    ensures
        classify_spec(projects, name) == LookupOutcome::Unknown,
        classify_spec(projects, name) == classify_spec(others, name),
{
}

/// A present name is classified by its flag alone: true is Enabled, false is
/// Disabled, and the boolean domain leaves no third state for an entry.
pub proof fn lemma_present_name_by_flag(projects: Map<Seq<char>, bool>, name: Seq<char>)
    requires
        projects.contains_key(name),
    ensures
        projects[name] ==> classify_spec(projects, name) == LookupOutcome::Enabled,
        !projects[name] ==> classify_spec(projects, name) == LookupOutcome::Disabled,
        classify_spec(projects, name) != LookupOutcome::Unknown,
{
}

/// A failed resolution short-circuits: the answer is the server error, the
/// same for every request name, and no outcome of any table shows through.
pub proof fn lemma_resolution_failure_short_circuits(
    config: Result<Configuration, ConfigError>,
    name: Seq<char>,
    other_name: Seq<char>,
)
    requires
        config is Err,
    ensures
        response_spec(config, name) == server_error_spec(),
        response_spec(config, name) == response_spec(config, other_name),
{
}

/// Idempotence: the answer is a function of the resolution result and the
/// name alone, so repeated identical requests against an unchanged source get
/// identical answers.
pub proof fn lemma_idempotent(
    config_a: Result<Configuration, ConfigError>,
    config_b: Result<Configuration, ConfigError>,
    name_a: Seq<char>,
    name_b: Seq<char>,
)
    requires
        config_a == config_b,
        name_a == name_b,
    ensures
        response_spec(config_a, name_a) == response_spec(config_b, name_b),
{
}

/// Freshness: each answer reflects the snapshot handed to that request, so a
/// flag flipped between two resolutions flips the outcome with no restart.
pub proof fn lemma_freshness(before: Configuration, after: Configuration, name: Seq<char>)
    requires
        before.projects_map().contains_key(name),
        after.projects_map().contains_key(name),
        before.projects_map()[name],
        !after.projects_map()[name],
    ensures
        classify_spec(before.projects_map(), name) == LookupOutcome::Enabled,
        classify_spec(after.projects_map(), name) == LookupOutcome::Disabled,
        response_spec(Result::<Configuration, ConfigError>::Ok(before), name).status
            == STATUS_ENABLED,
        response_spec(Result::<Configuration, ConfigError>::Ok(after), name).status
            == STATUS_DISABLED,
{
}

/// An answer of the handler is never cacheable, whichever way the request
/// went.
pub proof fn lemma_never_cacheable(config: Result<Configuration, ConfigError>, name: Seq<char>)
    ensures
        !response_spec(config, name).cacheable,
{
}

/// Every outcome has exactly one wire status, and distinct outcomes get
/// distinct statuses.
pub proof fn lemma_status_injective(outcome_a: LookupOutcome, outcome_b: LookupOutcome)
    requires
        status_for_outcome(outcome_a) == status_for_outcome(outcome_b),
    ensures
        outcome_a == outcome_b,
{
}

} // verus!
