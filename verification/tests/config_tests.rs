use slack_alert::config::extract_config;
use slack_alert::config::load_config_from_text;
use slack_alert::config::ConfigError;
use slack_alert::config::Document;
use slack_alert::config::LeafValue;
use slack_alert::config::TopValue;

#[test]
fn loads_url_from_well_formed_document() {
    let cfg = load_config_from_text("slack:\n  url: \"https://x\"\n").unwrap();
    assert_eq!(cfg.webhook_url, "https://x");
}

#[test]
fn loads_unquoted_url() {
    let cfg = load_config_from_text("slack:\n  url: http://localhost:9999/hook\n").unwrap();
    assert_eq!(cfg.webhook_url, "http://localhost:9999/hook");
}

#[test]
fn ignores_unrelated_keys() {
    let text = "other: 1\nslack:\n  name: alerts\n  url: \"https://x\"\n";
    let cfg = load_config_from_text(text).unwrap();
    assert_eq!(cfg.webhook_url, "https://x");
}

#[test]
fn missing_url_is_missing_field() {
    assert_eq!(
        load_config_from_text("slack:\n  other: 1\n"),
        Err(ConfigError::MissingField)
    );
}

#[test]
fn missing_slack_section_is_missing_field() {
    assert_eq!(
        load_config_from_text("other:\n  url: \"https://x\"\n"),
        Err(ConfigError::MissingField)
    );
}

#[test]
fn non_string_url_is_missing_field() {
    assert_eq!(
        load_config_from_text("slack:\n  url:\n    - a\n"),
        Err(ConfigError::MissingField)
    );
    assert_eq!(
        load_config_from_text("slack:\n  url: 12\n"),
        Err(ConfigError::MissingField)
    );
}

#[test]
fn empty_url_is_missing_field() {
    assert_eq!(
        load_config_from_text("slack:\n  url: \"\"\n"),
        Err(ConfigError::MissingField)
    );
}

#[test]
fn empty_document_is_missing_field() {
    assert_eq!(load_config_from_text(""), Err(ConfigError::MissingField));
}

#[test]
fn scalar_document_is_missing_field() {
    assert_eq!(
        load_config_from_text("just a scalar"),
        Err(ConfigError::MissingField)
    );
}

#[test]
fn scalar_slack_value_is_missing_field() {
    assert_eq!(
        load_config_from_text("slack: yes\n"),
        Err(ConfigError::MissingField)
    );
}

#[test]
fn malformed_document_is_malformed() {
    assert_eq!(
        load_config_from_text("slack: [unterminated"),
        Err(ConfigError::Malformed)
    );
}

#[test]
fn extract_reads_the_model_directly() {
    let doc = Document::Mapping(vec![(
        Some("slack".to_string()),
        TopValue::Section(vec![(
            Some("url".to_string()),
            LeafValue::Text("https://x".to_string()),
        )]),
    )]);
    let cfg = extract_config(&doc).unwrap();
    assert_eq!(cfg.webhook_url, "https://x");
}

#[test]
fn extract_rejects_opaque_url() {
    let doc = Document::Mapping(vec![(
        Some("slack".to_string()),
        TopValue::Section(vec![(Some("url".to_string()), LeafValue::Opaque)]),
    )]);
    assert_eq!(extract_config(&doc), Err(ConfigError::MissingField));
}

#[test]
fn extract_rejects_non_mapping_document() {
    assert_eq!(
        extract_config(&Document::NotMapping),
        Err(ConfigError::MissingField)
    );
}
