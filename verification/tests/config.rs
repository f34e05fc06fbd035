use kcheck::config::{DocumentFormat, KcheckConfig, KcheckConfigBuilder, KcheckConfigFragment};
use kcheck::error::{KcheckError, KcheckResult};
use kcheck::kconfig::{KconfigOption, KconfigState};

const TEST_REASON: &str = "Testing";
const TEST_GLOBAL_NAME: &str = "GLOBAL_TEST";
const TEST_FRAGMENT_NAME: &str = "TEST_FRAGMENT";
const TEST_FRAGMENT_NAME_TWO: &str = "TEST_FRAGMENT_TWO";
const TEST_FRAGMENT_NAME_THREE: &str = "TEST_FRAGMENT_THREE";
const TEST_FRAGMENT_CONFIG_ENABLED: &str = "CONFIG_TEST_OPTION_ENABLED";
const TEST_FRAGMENT_CONFIG_ON: &str = "CONFIG_TEST_OPTION_ON";
const TEST_FRAGMENT_CONFIG_OFF: &str = "CONFIG_TEST_OPTION_OFF";
const TEST_FRAGMENT_CONFIG_MODULE: &str = "CONFIG_TEST_OPTION_MODULE";

fn test_fragment_on() -> KconfigOption {
    KconfigOption::new(TEST_FRAGMENT_CONFIG_ON, KconfigState::On)
}

fn test_fragment_enabled() -> KconfigOption {
    KconfigOption::new(TEST_FRAGMENT_CONFIG_ENABLED, KconfigState::Enabled)
}

fn test_fragment_off() -> KconfigOption {
    KconfigOption::new(TEST_FRAGMENT_CONFIG_OFF, KconfigState::Off)
}

fn test_fragment_module() -> KconfigOption {
    KconfigOption::new(TEST_FRAGMENT_CONFIG_MODULE, KconfigState::Module)
}

/// The document that the first test file holds.
fn expected_kcheck_config() -> KcheckConfig {
    KcheckConfig::new(
        Some(TEST_GLOBAL_NAME.to_string()),
        None,
        Some(vec![
            KcheckConfigFragment::new(
                TEST_FRAGMENT_NAME.to_string(),
                TEST_REASON.to_owned(),
                vec![test_fragment_on(), test_fragment_off()],
            ),
            KcheckConfigFragment::new(
                TEST_FRAGMENT_NAME_TWO.to_string(),
                TEST_REASON.to_string(),
                vec![test_fragment_module()],
            ),
        ]),
    )
}

/// The document that the second test file holds.
fn test_kcheck_config_two() -> KcheckConfig {
    KcheckConfig::new(
        Some("GLOBAL_TEST_TWO".to_string()),
        None,
        Some(vec![KcheckConfigFragment::new(
            TEST_FRAGMENT_NAME_THREE.to_string(),
            TEST_REASON.to_owned(),
            vec![test_fragment_enabled()],
        )]),
    )
}

fn expected_kcheck_config_multiple_files() -> KcheckConfig {
    KcheckConfig::new(
        Some(TEST_GLOBAL_NAME.to_string()),
        None,
        Some(vec![
            KcheckConfigFragment::new(
                TEST_FRAGMENT_NAME.to_string(),
                TEST_REASON.to_owned(),
                vec![test_fragment_on(), test_fragment_off()],
            ),
            KcheckConfigFragment::new(
                TEST_FRAGMENT_NAME_TWO.to_string(),
                TEST_REASON.to_string(),
                vec![test_fragment_module()],
            ),
            KcheckConfigFragment::new(
                TEST_FRAGMENT_NAME_THREE.to_string(),
                TEST_REASON.to_owned(),
                vec![test_fragment_enabled()],
            ),
        ]),
    )
}

fn pair(name: &str, state: KconfigState) -> (String, KconfigState) {
    (name.to_string(), state)
}

#[test]
fn success_kcheck_config_fragment_new() {
    let test_name = "CONFIG_TEST_OPTION";
    let test_reason = "Test reason";
    let test_kernel_cfg = Vec::new();

    let fragment = KcheckConfigFragment::new(
        test_name.to_string(),
        test_reason.to_string(),
        test_kernel_cfg.clone(),
    );

    assert_eq!(fragment.name(), Some(test_name.to_string()));
    assert_eq!(fragment.reason(), Some(test_reason.to_string()));
    assert_eq!(fragment.kernel(), test_kernel_cfg);
}

#[test]
fn success_kcheck_config_fragment_is_empty() {
    let test_cfg = KcheckConfigFragment::default();
    assert!(test_cfg.is_empty());
}

#[test]
fn success_kcheck_config_builder_multiple_cfg_files() {
    let cfg_one_path = "/tmp/kcheck_cfg_one.toml".to_string();
    let cfg_two_path = "/tmp/kcheck_cfg_two.toml".to_string();
    let kcheck = KcheckConfigBuilder::default()
        .config_files(vec![cfg_one_path, cfg_two_path])
        .documents(vec![Ok(expected_kcheck_config()), Ok(test_kcheck_config_two())])
        .build()
        .expect("Failed to build config");

    assert_eq!(kcheck, expected_kcheck_config_multiple_files());
}

#[test]
fn fail_kcheck_config_builder_no_config() {
    let test_cfg = KcheckConfigBuilder::default().build();
    assert_eq!(test_cfg, Err(KcheckError::NoConfig));
}

#[test]
fn success_kcheck_config_is_empty() {
    let test_cfg = KcheckConfig::default();
    assert!(test_cfg.is_empty());
}

#[test]
fn success_kcheck_config_is_not_empty() {
    let test_cfg = KcheckConfigBuilder::default()
        .name(TEST_GLOBAL_NAME)
        .kernel(vec![test_fragment_on()])
        .build()
        .expect("Failed to build config");
    assert!(!test_cfg.is_empty());

    let test_cfg = KcheckConfigBuilder::default()
        .name(TEST_GLOBAL_NAME)
        .fragment(vec![KcheckConfigFragment::new(
            TEST_FRAGMENT_NAME.to_string(),
            TEST_REASON.to_string(),
            vec![test_fragment_on()],
        )])
        .build()
        .expect("Failed to build config");
    assert!(!test_cfg.is_empty());
}

#[test]
fn success_kcheck_config_try_from_file() {
    assert_eq!(DocumentFormat::from_path("test.toml"), Ok(DocumentFormat::Toml));
    assert_eq!(DocumentFormat::from_path("/etc/kcheck.json"), Ok(DocumentFormat::Json));
    let cfg = KcheckConfigBuilder::default()
        .config_files(vec!["test.toml".to_string()])
        .documents(vec![Ok(expected_kcheck_config())])
        .build()
        .expect("Failed to build config from file");
    assert_eq!(cfg, expected_kcheck_config());
}

#[test]
fn fail_kcheck_config_try_from_file_does_not_exist() {
    let result = KcheckConfigBuilder::default()
        .config_files(vec!["kcheck-no-exist.toml".to_string()])
        .build();
    assert_eq!(
        result,
        Err(KcheckError::FileDoesNotExist(
            "kcheck-no-exist.toml".to_string()
        ))
    );
}

#[test]
fn fail_kcheck_config_try_from_file_missing_extension() {
    let result = DocumentFormat::from_path("kcheck-missing-ext");
    assert_eq!(result, Err(KcheckError::MissingFileExtension));
}

#[test]
fn fail_kcheck_config_try_from_file_unknown_extension() {
    let result = DocumentFormat::from_path("kcheck-missing.unknown");
    assert_eq!(
        result,
        Err(KcheckError::UnknownFileType("unknown".to_string()))
    );
}

#[test]
fn format_by_extension() {
    assert_eq!(
        DocumentFormat::from_extension(Some("toml".to_string())),
        Ok(DocumentFormat::Toml)
    );
    assert_eq!(
        DocumentFormat::from_extension(Some("json".to_string())),
        Ok(DocumentFormat::Json)
    );
    assert_eq!(
        DocumentFormat::from_extension(Some("TOML".to_string())),
        Err(KcheckError::UnknownFileType("TOML".to_string()))
    );
    assert_eq!(
        DocumentFormat::from_extension(None),
        Err(KcheckError::MissingFileExtension)
    );
}

#[test]
fn fragment_from_parts() {
    let fragment = KcheckConfigFragment::from_parts(None, None, Vec::new());
    assert!(fragment.is_empty());
    assert_eq!(fragment, KcheckConfigFragment::default());
    let fragment = KcheckConfigFragment::from_parts(None, None, vec![test_fragment_on()]);
    assert!(!fragment.is_empty());
    let fragment = KcheckConfigFragment::from_parts(Some("n".to_string()), None, Vec::new());
    assert!(!fragment.is_empty());
    assert_eq!(fragment.name(), Some("n".to_string()));
    assert_eq!(fragment.reason(), None);
    let fragment = KcheckConfigFragment::from_parts(None, Some("r".to_string()), Vec::new());
    assert!(!fragment.is_empty());
    assert_ne!(fragment, KcheckConfigFragment::default());
}

#[test]
fn config_with_empty_lists_is_empty() {
    let cfg = KcheckConfig::new(None, Some(Vec::new()), Some(Vec::new()));
    assert!(cfg.is_empty());
    let cfg = KcheckConfig::new(Some("n".to_string()), None, None);
    assert!(!cfg.is_empty());
    assert_eq!(cfg.name(), Some("n".to_string()));
    let cfg = KcheckConfig::new(None, None, Some(vec![KcheckConfigFragment::default()]));
    assert!(!cfg.is_empty());
    assert_eq!(cfg.kernel(), None);
    assert_eq!(cfg.fragment(), Some(vec![KcheckConfigFragment::default()]));
    let cfg = expected_kcheck_config();
    assert_eq!(
        KcheckConfig::new(cfg.name(), cfg.kernel(), cfg.fragment()),
        cfg
    );
}

#[test]
fn append_moves_options_and_fragments() {
    let mut first = KcheckConfig::new(
        Some("first".to_string()),
        Some(vec![test_fragment_on()]),
        None,
    );
    let mut second = KcheckConfig::new(
        Some("second".to_string()),
        Some(vec![test_fragment_off()]),
        Some(vec![KcheckConfigFragment::default()]),
    );
    first.append(&mut second);
    assert_eq!(
        first,
        KcheckConfig::new(
            Some("first".to_string()),
            Some(vec![test_fragment_on(), test_fragment_off()]),
            Some(vec![KcheckConfigFragment::default()]),
        )
    );
    assert_eq!(second, KcheckConfig::new(Some("second".to_string()), None, None));
}

#[test]
fn append_of_nothing_changes_nothing() {
    let mut first = KcheckConfig::new(None, Some(vec![test_fragment_on()]), None);
    let mut second = KcheckConfig::default();
    first.append(&mut second);
    assert_eq!(first, KcheckConfig::new(None, Some(vec![test_fragment_on()]), None));
    let mut third = KcheckConfig::default();
    third.append(&mut first);
    assert_eq!(third, KcheckConfig::new(None, Some(vec![test_fragment_on()]), None));
    assert_eq!(first, KcheckConfig::default());
}

#[test]
fn check_list_puts_own_options_before_fragments() {
    let cfg = KcheckConfig::new(
        None,
        Some(vec![test_fragment_module()]),
        Some(vec![
            KcheckConfigFragment::new(
                "F1".to_string(),
                TEST_REASON.to_string(),
                vec![test_fragment_on(), test_fragment_enabled()],
            ),
            KcheckConfigFragment::default(),
            KcheckConfigFragment::new(
                "F2".to_string(),
                TEST_REASON.to_string(),
                vec![test_fragment_off()],
            ),
        ]),
    );
    assert_eq!(
        cfg.into_check_list(),
        vec![
            pair(TEST_FRAGMENT_CONFIG_MODULE, KconfigState::Module),
            pair(TEST_FRAGMENT_CONFIG_ON, KconfigState::On),
            pair(TEST_FRAGMENT_CONFIG_ENABLED, KconfigState::Enabled),
            pair(TEST_FRAGMENT_CONFIG_OFF, KconfigState::Off),
        ]
    );
}

#[test]
fn check_list_of_empty_config_is_empty() {
    assert_eq!(KcheckConfig::default().into_check_list(), Vec::new());
    assert_eq!(
        KcheckConfig::new(None, Some(Vec::new()), Some(Vec::new())).into_check_list(),
        Vec::new()
    );
}

#[test]
fn check_list_keeps_duplicates() {
    let cfg = KcheckConfig::new(
        None,
        Some(vec![test_fragment_on()]),
        Some(vec![KcheckConfigFragment::new(
            "F".to_string(),
            TEST_REASON.to_string(),
            vec![test_fragment_on()],
        )]),
    );
    assert_eq!(
        cfg.into_check_list(),
        vec![
            pair(TEST_FRAGMENT_CONFIG_ON, KconfigState::On),
            pair(TEST_FRAGMENT_CONFIG_ON, KconfigState::On),
        ]
    );
}

#[test]
fn aggregation_order() {
    let f1 = KcheckConfig::new(
        None,
        None,
        Some(vec![KcheckConfigFragment::new(
            "F1".to_string(),
            TEST_REASON.to_string(),
            vec![KconfigOption::new("A", KconfigState::On)],
        )]),
    );
    let f2 = KcheckConfig::new(
        None,
        None,
        Some(vec![KcheckConfigFragment::new(
            "F2".to_string(),
            TEST_REASON.to_string(),
            vec![KconfigOption::new("B", KconfigState::Off)],
        )]),
    );
    let top = KcheckConfig::new(
        None,
        Some(vec![KconfigOption::new("C", KconfigState::Module)]),
        None,
    );
    let merged = KcheckConfig::generate(vec![Ok(f1), Ok(f2), Ok(top)])
        .expect("Expected the documents to aggregate");
    assert_eq!(
        merged.into_check_list(),
        vec![
            pair("C", KconfigState::Module),
            pair("A", KconfigState::On),
            pair("B", KconfigState::Off),
        ]
    );
}

#[test]
fn generate_keeps_the_first_name() {
    let unnamed = KcheckConfig::new(None, Some(vec![test_fragment_on()]), None);
    let named = KcheckConfig::new(Some("later".to_string()), None, None);
    let merged = KcheckConfig::generate(vec![Ok(unnamed), Ok(named)])
        .expect("Expected the documents to aggregate");
    assert_eq!(merged.name(), None);

    let merged = KcheckConfig::generate(vec![
        Err(KcheckError::FileDoesNotExist("/etc/kcheck.toml".to_string())),
        Ok(expected_kcheck_config()),
        Ok(test_kcheck_config_two()),
    ])
    .expect("Expected the documents to aggregate");
    assert_eq!(merged, expected_kcheck_config_multiple_files());
}

#[test]
fn generate_without_documents_fails() {
    assert_eq!(KcheckConfig::generate(Vec::new()), Err(KcheckError::NoConfig));
    let absent: Vec<KcheckResult<KcheckConfig>> = vec![
        Err(KcheckError::FileDoesNotExist("a".to_string())),
        Err(KcheckError::FileDoesNotExist("b".to_string())),
    ];
    assert_eq!(KcheckConfig::generate(absent), Err(KcheckError::NoConfig));
}

#[test]
fn generate_returns_the_first_other_failure() {
    let loads: Vec<KcheckResult<KcheckConfig>> = vec![
        Ok(expected_kcheck_config()),
        Err(KcheckError::FileDoesNotExist("a".to_string())),
        Err(KcheckError::TomlParseError("bad toml".to_string())),
        Err(KcheckError::JsonParseError("bad json".to_string())),
    ];
    assert_eq!(
        KcheckConfig::generate(loads),
        Err(KcheckError::TomlParseError("bad toml".to_string()))
    );
}

#[test]
fn builder_names_its_sources() {
    let builder = KcheckConfigBuilder::default();
    assert_eq!(builder.sources(), Vec::<String>::new());
    let builder = builder
        .config_files(vec!["a.toml".to_string()])
        .system()
        .config_files(vec!["b.json".to_string()]);
    assert_eq!(
        builder.sources(),
        vec![
            "/etc/kcheck.toml".to_string(),
            "/etc/kcheck.json".to_string(),
            "a.toml".to_string(),
            "b.json".to_string(),
        ]
    );
}

#[test]
fn builder_passes_over_absent_system_documents() {
    let result = KcheckConfigBuilder::default()
        .system()
        .config_files(vec!["a.toml".to_string()])
        .documents(vec![
            Err(KcheckError::FileDoesNotExist("/etc/kcheck.toml".to_string())),
            Err(KcheckError::FileDoesNotExist("/etc/kcheck.json".to_string())),
            Ok(expected_kcheck_config()),
        ])
        .build();
    assert_eq!(result, Ok(expected_kcheck_config()));

    let result = KcheckConfigBuilder::default().system().build();
    assert_eq!(result, Err(KcheckError::NoConfig));
}

#[test]
fn builder_reports_a_missing_user_document_first() {
    let result = KcheckConfigBuilder::default()
        .system()
        .config_files(vec!["a.toml".to_string(), "b.toml".to_string()])
        .documents(vec![
            Err(KcheckError::TomlParseError("bad".to_string())),
            Ok(expected_kcheck_config()),
            Ok(expected_kcheck_config()),
            Err(KcheckError::FileDoesNotExist("whatever".to_string())),
        ])
        .build();
    assert_eq!(result, Err(KcheckError::FileDoesNotExist("b.toml".to_string())));
}

#[test]
fn builder_reports_a_malformed_system_document() {
    let result = KcheckConfigBuilder::default()
        .system()
        .documents(vec![
            Err(KcheckError::FileDoesNotExist("/etc/kcheck.toml".to_string())),
            Err(KcheckError::JsonParseError("bad".to_string())),
        ])
        .name("direct")
        .build();
    assert_eq!(result, Err(KcheckError::JsonParseError("bad".to_string())));
}

#[test]
fn builder_puts_direct_options_last() {
    let result = KcheckConfigBuilder::default()
        .name("direct")
        .kernel(vec![test_fragment_module()])
        .config_files(vec!["a.toml".to_string()])
        .documents(vec![Ok(KcheckConfig::new(
            None,
            Some(vec![test_fragment_on()]),
            None,
        ))])
        .build()
        .expect("Failed to build config");
    assert_eq!(
        result,
        KcheckConfig::new(
            None,
            Some(vec![test_fragment_on(), test_fragment_module()]),
            None,
        )
    );
}

#[test]
fn builder_with_a_name_alone_builds() {
    let result = KcheckConfigBuilder::default()
        .name(TEST_GLOBAL_NAME)
        .build()
        .expect("Failed to build config");
    assert_eq!(
        result,
        KcheckConfig::new(Some(TEST_GLOBAL_NAME.to_string()), None, None)
    );
    let copy = KcheckConfigBuilder::default().name(TEST_GLOBAL_NAME).clone();
    assert_eq!(copy.build(), Ok(result));
}
