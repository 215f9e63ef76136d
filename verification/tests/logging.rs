use engine::global_config::{
    default_dev_env, true_default, AppConfig, DefaultLlm, ExampleParent, FrontendConfig, LlmConfig, LoggingConfig,
    LoggingFormatConfig, LoggingLevelsConfig, LoggingLocationConfig, RedactionConfig, RedactionPattern, RetryConfig,
};
use engine::logging::{determine_log_level, new_session_id, redact_line, redaction_patterns, Redaction};

fn patterns(list: &[(&str, &str)]) -> Vec<Redaction> {
    list.iter().map(|(re, placeholder)| Redaction::compile(re, placeholder).unwrap()).collect()
}

fn written(buf: &[u8], list: &[(&str, &str)], session_id: Option<&str>) -> String {
    redact_line(buf, session_id, &patterns(list))
}

#[test]
fn session_ids_differ_from_draw_to_draw() {
    let ids: Vec<String> = (0..6).map(|_| new_session_id()).collect();
    assert!(ids.iter().any(|id| *id != ids[0]));
}

fn create_test_config() -> AppConfig {
    AppConfig {
        model_name: "test".into(),
        dot_global_config_health_check: true,
        dev_env: "test".into(),
        example_parent: ExampleParent { example_child: "val".into() },
        default_llm: DefaultLlm {
            default_model: "test".into(),
            fallback_model: None,
            default_temperature: "0.5".into(),
            default_max_tokens: 100,
        },
        llm_config: LlmConfig {
            cache_enabled: false,
            retry: RetryConfig { max_attempts: 1, min_wait_seconds: 1, max_wait_seconds: 1 },
        },
        logging: LoggingConfig {
            verbose: false,
            format: LoggingFormatConfig {
                show_time: false,
                show_session_id: false,
                location: LoggingLocationConfig {
                    enabled: false,
                    show_file: false,
                    show_function: false,
                    show_line: false,
                    show_for_info: false,
                    show_for_debug: false,
                    show_for_warning: false,
                    show_for_error: false,
                    show_for_trace: false,
                },
            },
            levels: LoggingLevelsConfig { debug: false, info: false, warning: false, error: false, critical: false },
            redaction: RedactionConfig::default(),
        },
        features: vec![],
        openai_api_key: None,
        anthropic_api_key: None,
        groq_api_key: None,
        perplexity_api_key: None,
        gemini_api_key: None,
    }
}

fn sanitization_config() -> AppConfig {
    AppConfig {
        model_name: "gpt-4".to_string(),
        dot_global_config_health_check: true,
        dev_env: "dev".to_string(),
        example_parent: ExampleParent { example_child: "val".to_string() },
        default_llm: DefaultLlm {
            default_model: "gpt-4".to_string(),
            fallback_model: None,
            default_temperature: "0.7".to_string(),
            default_max_tokens: 100,
        },
        llm_config: LlmConfig {
            cache_enabled: true,
            retry: RetryConfig { max_attempts: 1, min_wait_seconds: 1, max_wait_seconds: 1 },
        },
        logging: LoggingConfig {
            verbose: true,
            format: LoggingFormatConfig {
                show_time: true,
                show_session_id: true,
                location: LoggingLocationConfig {
                    enabled: true,
                    show_file: true,
                    show_function: true,
                    show_line: true,
                    show_for_info: true,
                    show_for_debug: true,
                    show_for_warning: true,
                    show_for_error: true,
                    show_for_trace: true,
                },
            },
            levels: LoggingLevelsConfig { debug: true, info: true, warning: true, error: true, critical: true },
            redaction: RedactionConfig::default(),
        },
        features: vec![],
        openai_api_key: Some("secret-key".to_string()),
        anthropic_api_key: None,
        groq_api_key: None,
        perplexity_api_key: None,
        gemini_api_key: None,
    }
}

#[test]
fn config_test_frontend_config_sanitization() {
    let config = sanitization_config();
    let frontend_config = FrontendConfig::from(&config);
    let shown = format!("{:?}", frontend_config);
    assert!(!shown.contains("secret-key"));
    assert!(!shown.contains("openai_api_key"));
}

#[test]
fn global_config_test_frontend_config_sanitization() {
    let config = sanitization_config();
    let frontend_config = FrontendConfig::from(&config);
    let shown = format!("{:?}", frontend_config);
    assert!(!shown.contains("secret-key"));
    assert!(!shown.contains("openai_api_key"));
}

#[test]
fn frontend_config_keeps_every_shown_field() {
    let mut config = sanitization_config();
    config.features = vec![("beta".to_string(), true), ("old".to_string(), false)];
    config.default_llm.fallback_model = Some("gpt-3.5".into());
    let front = FrontendConfig::from(&config);
    assert_eq!(front.model_name, "gpt-4");
    assert!(front.dot_global_config_health_check);
    assert_eq!(front.dev_env, "dev");
    assert_eq!(front.example_parent.example_child, "val");
    assert_eq!(front.default_llm.default_model, "gpt-4");
    assert_eq!(front.default_llm.fallback_model, Some("gpt-3.5".to_string()));
    assert_eq!(front.default_llm.default_temperature, "0.7");
    assert_eq!(front.default_llm.default_max_tokens, 100);
    assert!(front.llm_config.cache_enabled);
    assert_eq!(front.llm_config.retry.max_attempts, 1);
    assert_eq!(front.features, config.features);
}

#[test]
fn keys_are_read_through_their_getters() {
    let mut config = sanitization_config();
    config.gemini_api_key = Some("g".into());
    assert_eq!(config.openai_api_key(), Some("secret-key"));
    assert_eq!(config.anthropic_api_key(), None);
    assert_eq!(config.groq_api_key(), None);
    assert_eq!(config.perplexity_api_key(), None);
    assert_eq!(config.gemini_api_key(), Some("g"));
    assert_eq!(default_dev_env(), "dev");
    assert!(true_default());
    let redaction = RedactionConfig::default();
    assert!(!redaction.enabled && !redaction.use_default_pii && redaction.patterns.is_empty());
}

#[test]
fn session_ids_are_eight_letters_or_digits() {
    let id = new_session_id();
    assert_eq!(id.len(), 8);
    assert!(id.chars().all(|c| c.is_ascii_alphanumeric()));
}

#[test]
fn test_session_id_prepended_to_output() {
    let out = written(b"hello world", &[], Some("SESS01"));
    assert_eq!(out, "[SESS01] hello world");
}

#[test]
fn test_no_session_id_when_disabled() {
    let out = written(b"hello world", &[], None);
    assert_eq!(out, "hello world");
    assert!(!out.contains('['));
}

#[test]
fn test_session_id_skipped_for_whitespace_only_input() {
    let out = written(b"   \n  ", &[], Some("SESS01"));
    assert!(!out.contains("[SESS01]"));
    assert_eq!(out, "   \n  ");
}

#[test]
fn test_session_id_skipped_for_empty_input() {
    let out = written(b"", &[], Some("SESS01"));
    assert!(!out.contains("[SESS01]"));
}

#[test]
fn test_single_pattern_redacts_match() {
    let out = written(b"login password=secret123", &[(r"password=\w+", "password=***")], None);
    assert!(out.contains("password=***"));
    assert!(!out.contains("secret123"));
}

#[test]
fn test_no_match_passes_through_unchanged() {
    let out = written(b"just a normal log line", &[(r"password=\w+", "password=***")], None);
    assert_eq!(out, "just a normal log line");
}

#[test]
fn test_multiple_occurrences_of_same_pattern_all_redacted() {
    let out = written(b"auth tok_abc then tok_xyz end", &[(r"tok_\w+", "[REDACTED]")], None);
    assert_eq!(out, "auth [REDACTED] then [REDACTED] end");
}

#[test]
fn test_multiple_patterns_applied_sequentially() {
    let list = [(r"secret=\w+", "secret=***"), (r"\d{3}-\d{2}-\d{4}", "[SSN]")];
    let out = written(b"secret=hunter2 ssn=123-45-6789", &list, None);
    assert!(out.contains("secret=***"));
    assert!(out.contains("[SSN]"));
    assert!(!out.contains("hunter2"));
    assert!(!out.contains("123-45-6789"));
}

#[test]
fn test_empty_patterns_list_passes_through() {
    let out = written(b"secret=hunter2 password=abc", &[], None);
    assert_eq!(out, "secret=hunter2 password=abc");
}

#[test]
fn test_session_id_and_redaction_together() {
    let out = written(b"login password=secret", &[(r"password=\w+", "password=***")], Some("TESTID"));
    assert!(out.contains("[TESTID]"));
    assert!(out.contains("password=***"));
    assert!(!out.contains("secret"));
}

#[test]
fn test_redaction_applies_after_session_id_prepend() {
    let out = written(b"hello", &[(r"AB12", "[GONE]")], Some("AB12"));
    assert!(out.contains("[GONE]"));
    assert!(!out.contains("AB12"));
}

#[test]
fn test_unicode_content_preserved() {
    let out = written("日本語テスト 🔒".as_bytes(), &[], None);
    assert_eq!(out, "日本語テスト 🔒");
}

#[test]
fn test_redaction_pattern_with_unicode() {
    let out = written("ログ キー=secret".as_bytes(), &[(r"キー=\w+", "キー=***")], None);
    assert!(out.contains("キー=***"));
    assert!(!out.contains("secret"));
}

#[test]
fn a_pattern_that_does_not_compile_is_no_redaction() {
    assert!(Redaction::compile("(", "x").is_none());
    assert!(Redaction::compile(r"\d{3", "x").is_none());
    let b = Redaction::compile("b", "c").unwrap();
    assert_eq!(b.apply("abba"), "acca");
    assert_eq!(redact_line(b"a(b", Some("S"), &vec![b]), "[S] a(c");
}

#[test]
fn white_space_is_what_unicode_says() {
    let listed = |c: char| {
        let u = c as u32;
        (0x09..=0x0D).contains(&u)
            || [0x20, 0x85, 0xA0, 0x1680, 0x2028, 0x2029, 0x202F, 0x205F, 0x3000].contains(&u)
            || (0x2000..=0x200A).contains(&u)
    };
    for u in 0..=0x10FFFFu32 {
        if let Some(c) = char::from_u32(u) {
            assert_eq!(c.is_whitespace(), listed(c), "U+{:04X}", u);
        }
    }
    for u in 0..=0x3100u32 {
        if let Some(c) = char::from_u32(u) {
            let text = format!("{}{}", c, c);
            let line = redact_line(text.as_bytes(), Some("S"), &vec![]);
            assert_eq!(line.starts_with("[S] "), !listed(c), "U+{:04X}", u);
        }
    }
    assert_eq!(redact_line(" \u{3000}x\u{2003}\n".as_bytes(), Some("S"), &vec![]), "[S]  \u{3000}x\u{2003}\n");
}

#[test]
fn later_patterns_see_what_earlier_ones_wrote() {
    let out = written(b"one", &[("one", "two"), ("two", "three")], None);
    assert_eq!(out, "three");
    let out = written(b"user=bob", &[(r"user=(\w+)", "user=<$1>")], None);
    assert_eq!(out, "user=<bob>");
}

#[test]
fn invalid_bytes_are_replaced_before_redaction() {
    let out = written(&[b'a', 0xff, b'b'], &[("\u{fffd}", "?")], None);
    assert_eq!(out, "a?b");
}

#[test]
fn patterns_that_compile_are_used_and_the_rest_is_named() {
    let mut config = RedactionConfig {
        enabled: true,
        use_default_pii: false,
        patterns: vec![
            RedactionPattern { name: "token".into(), regex: r"tok_\w+".into(), placeholder: "[T]".into() },
            RedactionPattern { name: "broken".into(), regex: r"(unclosed".into(), placeholder: "[B]".into() },
            RedactionPattern { name: "ssn".into(), regex: r"\d{3}-\d{2}".into(), placeholder: "[S]".into() },
        ],
    };
    let (usable, refused) = redaction_patterns(&config);
    assert_eq!(usable.len(), 2);
    assert_eq!(redact_line(b"tok_a 123-45 (unclosed", None, &usable), "[T] [S] (unclosed");
    assert_eq!(refused, vec!["broken".to_string()]);
    config.enabled = false;
    let (usable, refused) = redaction_patterns(&config);
    assert!(usable.is_empty());
    assert!(refused.is_empty());
}

#[test]
fn test_determine_log_level_verbose_overrides_everything() {
    let mut config = create_test_config();
    config.logging.verbose = true;
    config.logging.levels.debug = false;
    assert_eq!(determine_log_level(&config), "debug");
}

#[test]
fn test_determine_log_level_debug() {
    let mut config = create_test_config();
    config.logging.levels.debug = true;
    assert_eq!(determine_log_level(&config), "debug");
}

#[test]
fn test_determine_log_level_info() {
    let mut config = create_test_config();
    config.logging.levels.info = true;
    assert_eq!(determine_log_level(&config), "info");
}

#[test]
fn test_determine_log_level_warning() {
    let mut config = create_test_config();
    config.logging.levels.warning = true;
    assert_eq!(determine_log_level(&config), "warn");
}

#[test]
fn test_determine_log_level_error() {
    let mut config = create_test_config();
    config.logging.levels.error = true;
    assert_eq!(determine_log_level(&config), "error");
}

#[test]
fn test_determine_log_level_critical_maps_to_error() {
    let mut config = create_test_config();
    config.logging.levels.critical = true;
    assert_eq!(determine_log_level(&config), "error");
}

#[test]
fn test_determine_log_level_off_when_nothing_enabled() {
    let config = create_test_config();
    assert_eq!(determine_log_level(&config), "off");
}

#[test]
fn test_determine_log_level_most_verbose_wins() {
    let mut config = create_test_config();
    config.logging.levels.info = true;
    config.logging.levels.warning = true;
    config.logging.levels.error = true;
    assert_eq!(determine_log_level(&config), "info");
}

#[test]
fn test_determine_log_level_verbose_plus_all_levels() {
    let mut config = create_test_config();
    config.logging.verbose = true;
    config.logging.levels.debug = true;
    config.logging.levels.info = true;
    config.logging.levels.warning = true;
    config.logging.levels.error = true;
    config.logging.levels.critical = true;
    assert_eq!(determine_log_level(&config), "debug");
}

#[test]
fn test_determine_log_level_error_and_critical_both_map_to_error() {
    let mut config = create_test_config();
    config.logging.levels.error = true;
    config.logging.levels.critical = true;
    assert_eq!(determine_log_level(&config), "error");
}
