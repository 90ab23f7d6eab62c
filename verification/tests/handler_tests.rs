use ks_server::config::{ConfigError, Configuration, ServerConfig};
use ks_server::handler::{
    check_project_presence, classify, handle, not_found_response, response_for_outcome,
    route_matches, validate_request, LookupOutcome,
};

fn config_of(entries: Vec<(&str, bool)>) -> Configuration {
    Configuration {
        server: ServerConfig { host: String::from("localhost"), port: 8080 },
        projects: entries.into_iter().map(|(n, f)| (String::from(n), f)).collect(),
    }
}

#[test]
fn scenario_enabled_project_is_204() {
    let cfg = config_of(vec![("alpha", true)]);
    let d = handle(&String::from("alpha"), Ok(cfg));
    assert_eq!(d.status, 204);
    assert!(!d.cacheable);
}

#[test]
fn scenario_disabled_project_is_402() {
    let cfg = config_of(vec![("alpha", false)]);
    let d = handle(&String::from("alpha"), Ok(cfg));
    assert_eq!(d.status, 402);
    assert!(!d.cacheable);
}

#[test]
fn scenario_unknown_project_is_404() {
    let cfg = config_of(vec![("alpha", true)]);
    let d = handle(&String::from("beta"), Ok(cfg));
    assert_eq!(d.status, 404);
    assert!(!d.cacheable);
}

#[test]
fn scenario_unreadable_config_is_500() {
    let err = ConfigError::ReadError(String::from("no such file"));
    let d = handle(&String::from("alpha"), Err(err));
    assert_eq!(d.status, 500);
    assert!(!d.cacheable);
}

#[test]
fn scenario_missing_name_is_400() {
    match validate_request(None) {
        Err(d) => {
            assert_eq!(d.status, 400);
            assert!(!d.cacheable);
        }
        Ok(_) => panic!("a body without a name must be rejected"),
    }
}

#[test]
fn scenario_get_root_is_unmatched() {
    assert!(!route_matches(&String::from("GET"), &String::from("/")));
    let d = not_found_response();
    assert_eq!(d.status, 404);
    assert!(!d.cacheable);
}

#[test]
fn absent_name_is_unknown_whatever_else_is_there() {
    let cfg = config_of(vec![("alpha", true), ("gamma", false)]);
    assert_eq!(classify(&cfg, &String::from("beta")), LookupOutcome::Unknown);
    let empty = config_of(vec![]);
    assert_eq!(classify(&empty, &String::from("beta")), LookupOutcome::Unknown);
}

#[test]
fn present_name_goes_by_its_flag() {
    let cfg = config_of(vec![("alpha", true), ("gamma", false)]);
    assert_eq!(classify(&cfg, &String::from("alpha")), LookupOutcome::Enabled);
    assert_eq!(classify(&cfg, &String::from("gamma")), LookupOutcome::Disabled);
}

#[test]
fn parse_error_short_circuits_every_name() {
    let first = handle(
        &String::from("alpha"),
        Err(ConfigError::ParseError(String::from("bad yaml"))),
    );
    let second = handle(
        &String::from("beta"),
        Err(ConfigError::ParseError(String::from("bad yaml"))),
    );
    assert_eq!(first.status, 500);
    assert_eq!(first, second);
}

#[test]
fn identical_requests_get_identical_answers() {
    let first = handle(&String::from("alpha"), Ok(config_of(vec![("alpha", true)])));
    let second = handle(&String::from("alpha"), Ok(config_of(vec![("alpha", true)])));
    assert_eq!(first, second);
}

#[test]
fn a_flipped_flag_changes_the_answer_without_restart() {
    let before = handle(&String::from("alpha"), Ok(config_of(vec![("alpha", true)])));
    let after = handle(&String::from("alpha"), Ok(config_of(vec![("alpha", false)])));
    assert_eq!(before.status, 204);
    assert_eq!(after.status, 402);
}

#[test]
fn empty_name_is_rejected_as_client_error() {
    match validate_request(Some(String::from(""))) {
        Err(d) => assert_eq!(d.status, 400),
        Ok(_) => panic!("an empty name must be rejected"),
    }
}

#[test]
fn valid_name_passes_validation_unchanged() {
    match validate_request(Some(String::from("alpha"))) {
        Ok(req) => assert_eq!(req.name, "alpha"),
        Err(_) => panic!("a non-empty name must be accepted"),
    }
}

#[test]
fn only_post_to_root_matches_the_route() {
    assert!(route_matches(&String::from("POST"), &String::from("/")));
    assert!(!route_matches(&String::from("POST"), &String::from("/other")));
    assert!(!route_matches(&String::from("PUT"), &String::from("/")));
}

#[test]
fn each_outcome_has_its_own_status() {
    assert_eq!(response_for_outcome(LookupOutcome::Enabled).status, 204);
    assert_eq!(response_for_outcome(LookupOutcome::Disabled).status, 402);
    assert_eq!(response_for_outcome(LookupOutcome::Unknown).status, 404);
    assert!(!response_for_outcome(LookupOutcome::Enabled).cacheable);
}

#[test]
fn check_project_presence_matches_the_table() {
    let cfg = config_of(vec![("alpha", true), ("gamma", false)]);
    assert_eq!(check_project_presence(&String::from("alpha"), &cfg).status, 204);
    assert_eq!(check_project_presence(&String::from("gamma"), &cfg).status, 402);
    assert_eq!(check_project_presence(&String::from("delta"), &cfg).status, 404);
}
