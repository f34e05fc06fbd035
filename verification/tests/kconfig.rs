use kcheck::kconfig::{KconfigOption, KconfigState};

fn concrete_states() -> Vec<KconfigState> {
    vec![
        KconfigState::NotFound,
        KconfigState::NotSet,
        KconfigState::Off,
        KconfigState::On,
        KconfigState::Module,
        KconfigState::Value(7),
        KconfigState::Text("seven".to_string()),
    ]
}

fn all_states() -> Vec<KconfigState> {
    let mut states = concrete_states();
    states.push(KconfigState::Disabled);
    states.push(KconfigState::Enabled);
    states
}

#[test]
fn success_new() {
    let test_array = [
        ("CONFIG_TEST_NOT_FOUND", KconfigState::NotFound),
        ("CONFIG_TEST_NOT_SET", KconfigState::NotSet),
        ("CONFIG_TEST_OFF", KconfigState::Off),
        ("CONFIG_TEST_DISABLED", KconfigState::Disabled),
        ("CONFIG_TEST_ON", KconfigState::On),
        ("CONFIG_TEST_MODULE", KconfigState::Module),
        ("CONFIG_TEST_ENABLED", KconfigState::Enabled),
        ("CONFIG_TEST_TEXT", KconfigState::Text("test".to_string())),
    ];

    for (option, state) in test_array {
        let kconfig_option = KconfigOption::new(option, state.clone());
        assert_eq!(kconfig_option.name(), option);
        assert_eq!(kconfig_option.state(), state);
        assert_eq!(
            kconfig_option.to_string(),
            format!("{}: {}", option, state.to_string())
        );
    }
}

#[test]
fn state_display_texts() {
    assert_eq!(KconfigState::NotFound.to_string(), "NotFound");
    assert_eq!(KconfigState::NotSet.to_string(), "NotSet");
    assert_eq!(KconfigState::Off.to_string(), "Off");
    assert_eq!(
        KconfigState::Disabled.to_string(),
        "Disabled (NotFound, NotSet, or Off)"
    );
    assert_eq!(KconfigState::On.to_string(), "On");
    assert_eq!(KconfigState::Module.to_string(), "Module");
    assert_eq!(KconfigState::Enabled.to_string(), "Enabled (On or Module)");
    assert_eq!(KconfigState::Text("hello".to_string()).to_string(), "hello");
}

#[test]
fn value_display_is_decimal() {
    assert_eq!(KconfigState::Value(0).to_string(), "0");
    assert_eq!(KconfigState::Value(9).to_string(), "9");
    assert_eq!(KconfigState::Value(10).to_string(), "10");
    assert_eq!(KconfigState::Value(4096).to_string(), "4096");
    assert_eq!(
        KconfigState::Value(u64::MAX).to_string(),
        "18446744073709551615"
    );
}

#[test]
fn option_display_text() {
    let option = KconfigOption::new("CONFIG_USB", KconfigState::Enabled);
    assert_eq!(option.to_string(), "CONFIG_USB: Enabled (On or Module)");
}

#[test]
fn state_default_is_not_found() {
    assert_eq!(KconfigState::default(), KconfigState::NotFound);
    let option = KconfigOption::default();
    assert_eq!(option.name(), "");
    assert_eq!(option.state(), KconfigState::NotFound);
}

#[test]
fn disabled_is_met_by_absent_unset_and_off_only() {
    for observed in all_states() {
        let expected = matches!(
            observed,
            KconfigState::NotFound | KconfigState::NotSet | KconfigState::Off
        );
        assert_eq!(KconfigState::Disabled.check(observed.clone()), expected);
    }
}

#[test]
fn enabled_is_met_by_on_and_module_only() {
    for observed in all_states() {
        let expected = matches!(observed, KconfigState::On | KconfigState::Module);
        assert_eq!(KconfigState::Enabled.check(observed.clone()), expected);
    }
}

#[test]
fn concrete_state_is_met_by_itself_only() {
    for desired in concrete_states() {
        for observed in all_states() {
            assert_eq!(desired.check(observed.clone()), desired == observed);
        }
    }
}

#[test]
fn values_and_texts_compare_by_payload() {
    assert!(KconfigState::Value(3).check(KconfigState::Value(3)));
    assert!(!KconfigState::Value(3).check(KconfigState::Value(4)));
    assert!(KconfigState::Text("a".to_string()).check(KconfigState::Text("a".to_string())));
    assert!(!KconfigState::Text("a".to_string()).check(KconfigState::Text("b".to_string())));
    assert!(!KconfigState::Text("3".to_string()).check(KconfigState::Value(3)));
}

#[test]
fn on_is_not_met_by_module() {
    assert!(!KconfigState::On.check(KconfigState::Module));
    assert!(!KconfigState::Module.check(KconfigState::On));
    assert!(!KconfigState::Off.check(KconfigState::NotSet));
    assert!(!KconfigState::NotSet.check(KconfigState::NotFound));
}

#[test]
fn state_equality_and_clone() {
    for state in all_states() {
        assert_eq!(state.clone(), state);
    }
    assert_ne!(KconfigState::On, KconfigState::Enabled);
    assert_ne!(
        KconfigOption::new("A", KconfigState::On),
        KconfigOption::new("B", KconfigState::On)
    );
    assert_ne!(
        KconfigOption::new("A", KconfigState::On),
        KconfigOption::new("A", KconfigState::Off)
    );
    let option = KconfigOption::new("A", KconfigState::Text("x".to_string()));
    assert_eq!(option.clone(), option);
}
