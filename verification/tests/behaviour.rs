use state_tutorial::text::push_decimal;
use state_tutorial::{
    Component, ComponentError, ComponentInterface, ComponentState, ConfigParams,
};

const FAILURE: &str = "self-test failed: no configuration entries found";

fn entry(key: &str, value: &str) -> ConfigParams {
    ConfigParams::new().with(key, value)
}

fn ready_component(name: &str) -> Component {
    let mut c = Component::new(name);
    c.config(entry("frequency", "100MHz")).unwrap();
    c.config(entry("mode", "active").with("power", "high")).unwrap();
    c
}

fn errored_component(name: &str) -> Component {
    let mut c = Component::new(name);
    c.config(ConfigParams::new()).unwrap();
    let _ = c.test();
    c
}

fn decimal_of(n: usize) -> String {
    let mut s = String::from("n=");
    push_decimal(&mut s, n);
    s
}

#[test]
fn decimal_rendering() {
    assert_eq!(decimal_of(0), "n=0");
    assert_eq!(decimal_of(7), "n=7");
    assert_eq!(decimal_of(10), "n=10");
    assert_eq!(decimal_of(305), "n=305");
    assert_eq!(decimal_of(usize::MAX), format!("n={}", usize::MAX));
}

#[test]
fn config_params_keep_entry_order() {
    let p = ConfigParams::new().with("a", "1").with("b", "2");
    assert_eq!(
        p.entries,
        vec![
            ("a".to_string(), "1".to_string()),
            ("b".to_string(), "2".to_string())
        ]
    );
    assert!(ConfigParams::new().entries.is_empty());
    assert!(ConfigParams::default().entries.is_empty());
}

#[test]
fn new_component_keeps_name() {
    let c = Component::new("radio-component");
    assert_eq!(c.name(), "radio-component");
    assert_eq!(*c.state(), ComponentState::Inactive);
}

#[test]
fn query_descriptions_are_exact() {
    let mut c = Component::new("radio-component");
    assert_eq!(c.query().description, "Component 'radio-component' is inactive.");
    c.config(entry("frequency", "100MHz")).unwrap();
    assert_eq!(
        c.query().description,
        "Component 'radio-component' is loaded with 1 configuration entries."
    );
    c.config(entry("mode", "active").with("power", "high")).unwrap();
    assert_eq!(
        c.query().description,
        "Component 'radio-component' is fully configured and ready to start."
    );
    c.start().unwrap();
    assert_eq!(c.query().description, "Component 'radio-component' is running.");
    let e = errored_component("radio-component");
    assert_eq!(
        e.query().description,
        format!("Component 'radio-component' is in error state: {}", FAILURE)
    );
}

#[test]
fn loaded_description_counts_many_entries() {
    let mut p = ConfigParams::new();
    for i in 0..12 {
        p = p.with(&format!("k{}", i), "v");
    }
    let mut c = Component::new("c");
    c.config(p).unwrap();
    assert_eq!(
        c.query().description,
        "Component 'c' is loaded with 12 configuration entries."
    );
}

#[test]
fn test_details_count_merged_entries() {
    let mut c = Component::new("radio-component");
    c.config(entry("frequency", "100MHz")).unwrap();
    let r = c.test().unwrap();
    assert!(r.passed);
    assert_eq!(r.details, "Self-test passed: 1 configuration entries verified.");
    c.config(entry("mode", "active").with("power", "high")).unwrap();
    let r = c.test().unwrap();
    assert!(r.passed);
    assert_eq!(r.details, "Self-test passed: 3 configuration entries verified.");
    assert_eq!(*c.state(), ComponentState::Ready);
}

#[test]
fn failed_self_test_gives_internal_error() {
    let mut c = Component::new("c");
    c.config(ConfigParams::new()).unwrap();
    let err = c.test().unwrap_err();
    assert_eq!(err, ComponentError::InternalError(FAILURE.to_string()));
    assert_eq!(*c.state(), ComponentState::Error(FAILURE.to_string()));
    assert_eq!(err.to_string(), format!("Internal error: {}", FAILURE));
}

#[test]
fn empty_ready_component_fails_self_test() {
    let mut c = Component::new("c");
    c.config(ConfigParams::new()).unwrap();
    c.config(ConfigParams::new()).unwrap();
    assert_eq!(*c.state(), ComponentState::Ready);
    assert!(c.test().is_err());
    assert_eq!(*c.state(), ComponentState::Error(FAILURE.to_string()));
}

#[test]
fn invalid_transition_reports_state_and_operation() {
    let mut c = Component::new("c");
    let err = c.start().unwrap_err();
    assert_eq!(
        err,
        ComponentError::InvalidTransition { current: ComponentState::Inactive, operation: "start" }
    );
    assert_eq!(err.to_string(), "Cannot call 'start' while in state 'INACTIVE'");
    let mut r = ready_component("c");
    r.start().unwrap();
    let err = r.config(ConfigParams::new()).unwrap_err();
    assert_eq!(err.to_string(), "Cannot call 'config' while in state 'RUNNING'");
}

#[test]
fn refused_calls_change_nothing() {
    let mut c = Component::new("c");
    c.config(entry("a", "1")).unwrap();
    let before = c.query().description;
    assert!(c.start().is_err());
    assert!(c.stop().is_err());
    assert_eq!(c.query().description, before);
    assert_eq!(*c.state(), ComponentState::Loaded);
}

#[test]
fn error_state_refuses_everything_but_reset() {
    let mut c = errored_component("c");
    let current = ComponentState::Error(FAILURE.to_string());
    assert_eq!(
        c.start().unwrap_err(),
        ComponentError::InvalidTransition { current: current.clone(), operation: "start" }
    );
    assert_eq!(
        c.stop().unwrap_err(),
        ComponentError::InvalidTransition { current: current.clone(), operation: "stop" }
    );
    assert_eq!(
        c.config(entry("a", "1")).unwrap_err(),
        ComponentError::InvalidTransition { current: current.clone(), operation: "config" }
    );
    assert_eq!(
        c.test().unwrap_err(),
        ComponentError::InvalidTransition { current: current.clone(), operation: "test" }
    );
    assert_eq!(*c.state(), current);
    assert_eq!(
        c.test().unwrap_err().to_string(),
        format!("Cannot call 'test' while in state 'ERROR({})'", FAILURE)
    );
    c.reset().unwrap();
    assert_eq!(*c.state(), ComponentState::Inactive);
}

#[test]
fn stop_undoes_start() {
    let mut c = ready_component("c");
    let before = c.query().description;
    c.start().unwrap();
    c.stop().unwrap();
    assert_eq!(*c.state(), ComponentState::Ready);
    assert_eq!(c.query().description, before);
    let r = c.test().unwrap();
    assert_eq!(r.details, "Self-test passed: 3 configuration entries verified.");
}

#[test]
fn reset_restores_fresh_component() {
    let mut c = ready_component("radio");
    c.start().unwrap();
    c.reset().unwrap();
    let fresh = Component::new("radio");
    assert_eq!(*c.state(), *fresh.state());
    assert_eq!(c.name(), fresh.name());
    assert_eq!(c.query().description, fresh.query().description);
    c.reset().unwrap();
    assert_eq!(*c.state(), ComponentState::Inactive);
    // The configuration was dropped: the next load counts only new entries.
    c.config(entry("x", "y")).unwrap();
    assert_eq!(
        c.query().description,
        "Component 'radio' is loaded with 1 configuration entries."
    );
}

#[test]
fn error_label_text() {
    assert_eq!(ComponentState::Error(String::new()).to_string(), "ERROR()");
    let s = ComponentState::Error("x".to_string());
    assert_eq!(s.clone(), s);
}
