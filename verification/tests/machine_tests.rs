use gateway_unlock::client::BasicInfo;
use gateway_unlock::credential::derive_credential;
use gateway_unlock::errors::ApiError;
use gateway_unlock::json::Json;
use gateway_unlock::machine::{start, step, Action, Event, Machine};

fn info() -> BasicInfo {
    BasicInfo {
        brand: "H3C".to_string(),
        model: "NX30".to_string(),
        sn: "ABC123".to_string(),
        mac: "AA:BB:CC:DD:EE:FF".to_string(),
    }
}

fn hosts(list: &[&str]) -> Vec<String> {
    list.iter().map(|s| s.to_string()).collect()
}

fn network_error() -> Event {
    Event::ProbeFailed(ApiError::Network("connection refused".to_string()))
}

fn assert_probe(action: &Action, host: &str) {
    match action {
        Action::Probe(h) => assert_eq!(h, host),
        _ => panic!("expected a probe of {}", host),
    }
}

#[test]
fn discovery_selects_first_success_in_order() {
    let (m, act) = start(hosts(&["a", "b", "c"]));
    assert_probe(&act, "a");
    let mut errors_logged = 0;

    let (m, act) = step(m, network_error());
    errors_logged += 1;
    assert_probe(&act, "b");

    let (m, act) = step(m, network_error());
    errors_logged += 1;
    assert_probe(&act, "c");

    let (m, act) = step(m, Event::ProbeSucceeded(info()));
    match &act {
        Action::PromptPassword(h) => assert_eq!(h, "c"),
        _ => panic!("a successful probe must ask for a password"),
    }
    match &m {
        Machine::AwaitingPassword { host, .. } => assert_eq!(host, "c"),
        _ => panic!("a successful probe must bind the answering host"),
    }
    assert_eq!(errors_logged, 2);
}

#[test]
fn exhausted_discovery_prompts_for_manual_host_once() {
    let (m, act) = start(hosts(&["a", "b"]));
    assert_probe(&act, "a");

    let (m, act) = step(m, network_error());
    assert_probe(&act, "b");

    let (m, act) = step(m, network_error());
    assert!(matches!(act, Action::PromptManualHost));
    assert!(matches!(m, Machine::AwaitingManualHost));

    let (m, act) = step(m, Event::ManualHostEntered("1.2.3.4".to_string()));
    assert_probe(&act, "1.2.3.4");

    let (m, act) = step(m, network_error());
    assert!(matches!(act, Action::PromptManualHost));
    assert!(matches!(m, Machine::AwaitingManualHost));
}

#[test]
fn empty_candidate_list_prompts_for_manual_host() {
    let (m, act) = start(Vec::new());
    assert!(matches!(act, Action::PromptManualHost));
    assert!(matches!(m, Machine::AwaitingManualHost));
}

#[test]
fn submission_carries_derived_credential() {
    let (m, _) = start(hosts(&["a"]));
    let (m, _) = step(m, Event::ProbeSucceeded(info()));
    let (m, act) = step(m, Event::PasswordEntered("admin".to_string()));
    match &act {
        Action::SubmitCredential(host, cred) => {
            assert_eq!(host, "a");
            assert_eq!(
                cred,
                &derive_credential("ABC123", "AA:BB:CC:DD:EE:FF", "admin")
            );
        }
        _ => panic!("a password must lead to a credential submission"),
    }
    assert!(matches!(m, Machine::Submitting { .. }));
}

#[test]
fn no_error_variant_completes_authentication() {
    let (m, _) = start(hosts(&["a"]));
    let (m, _) = step(m, Event::ProbeSucceeded(info()));
    let (m, _) = step(m, Event::PasswordEntered("first".to_string()));

    let (m, act) = step(
        m,
        Event::EnableFailed(ApiError::Status(1, "wrong password".to_string())),
    );
    assert!(!matches!(m, Machine::Done));
    assert!(matches!(act, Action::PromptPassword(_)));

    let (m, _) = step(m, Event::PasswordEntered("second".to_string()));
    let (m, act) = step(m, Event::EnableFailed(network_error_inner()));
    assert!(!matches!(m, Machine::Done));
    assert!(matches!(act, Action::PromptPassword(_)));

    let (m, _) = step(m, Event::PasswordEntered("third".to_string()));
    let (m, act) = step(m, Event::EnableFailed(ApiError::Parse("garbage".to_string())));
    assert!(!matches!(m, Machine::Done));
    assert!(matches!(act, Action::PromptPassword(_)));

    let (m, _) = step(m, Event::PasswordEntered("fourth".to_string()));
    let (m, act) = step(m, Event::EnableSucceeded(Json::Null));
    assert!(matches!(m, Machine::Done));
    assert!(matches!(act, Action::Finish));
}

fn network_error_inner() -> ApiError {
    ApiError::Network("timed out".to_string())
}
