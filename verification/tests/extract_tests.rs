use glitchtip_relay::convert::Converter;
use glitchtip_relay::types::ActivitySection;
use glitchtip_relay::types::AttachmentField;
use glitchtip_relay::types::GlitchTipSlackWebhook;
use glitchtip_relay::types::SlackAttachment;

fn empty_alert() -> GlitchTipSlackWebhook {
    GlitchTipSlackWebhook {
        alias: String::from("GlitchTip"),
        text: String::from("Error!"),
        attachments: vec![],
        sections: vec![],
    }
}

fn populated_alert() -> GlitchTipSlackWebhook {
    GlitchTipSlackWebhook {
        alias: String::from("GlitchTip"),
        text: String::from("Error!"),
        attachments: vec![SlackAttachment {
            color: String::from("#e52b50"),
            fields: vec![
                AttachmentField {
                    title: String::from("Project"),
                    value: String::from("backend"),
                    short: true,
                },
                AttachmentField {
                    title: String::from("Environment"),
                    value: String::from("production"),
                    short: true,
                },
                AttachmentField {
                    title: String::from("Server Name"),
                    value: String::from("web-1"),
                    short: true,
                },
                AttachmentField {
                    title: String::from("Release"),
                    value: String::from("abc123"),
                    short: true,
                },
            ],
            image_url: None,
            mrkdown_in: Some(vec![String::from("fields")]),
            text: Some(String::from("ValueError: bad input")),
            title: String::from("ValueError: bad input"),
            title_link: String::from("https://example.test/issues/42"),
        }],
        sections: vec![ActivitySection {
            activity_title: String::from("New issue"),
            activity_subtitle: String::from("View Issue [BACKEND-7](https://example.test/issues/42)"),
        }],
    }
}

#[test]
fn no_attachments_yields_sentinels_without_crashing() {
    let converter = Converter::new(None, true);
    let m = converter.extract_metadata(&empty_alert());
    assert_eq!(m.exception_class_name, "Unknown");
    assert_eq!(m.full_error_message, "Unknown error");
    assert_eq!(m.issue_url, "");
    assert_eq!(m.issue_identifier, "Unknown");
    assert_eq!(m.project_id, "Unknown");
    assert_eq!(m.environment_name, "Unknown");
    assert_eq!(m.hostname, "Unknown");
    assert_eq!(m.commit_hash, "Unknown");
}

#[test]
fn populated_alert_extracts_every_attribute() {
    let converter = Converter::new(None, true);
    let m = converter.extract_metadata(&populated_alert());
    assert_eq!(m.webhook_alias, "GlitchTip");
    assert_eq!(m.issue_identifier, "BACKEND-7");
    assert_eq!(m.exception_class_name, "ValueError");
    assert_eq!(m.full_error_message, "ValueError: bad input");
    assert_eq!(m.issue_url, "https://example.test/issues/42");
    assert_eq!(m.project_id, "backend");
    assert_eq!(m.environment_name, "production");
    assert_eq!(m.hostname, "web-1");
    assert_eq!(m.commit_hash, "abc123");
}

#[test]
fn subtitle_without_markdown_link_is_used_verbatim_after_strip() {
    let converter = Converter::new(None, true);
    let mut alert = empty_alert();
    alert.sections.push(ActivitySection {
        activity_title: String::from("New issue"),
        activity_subtitle: String::from("View Issue PLAIN-1"),
    });
    let m = converter.extract_metadata(&alert);
    assert_eq!(m.issue_identifier, "PLAIN-1");
}

#[test]
fn markdown_bracket_order_is_respected() {
    let converter = Converter::new(None, true);
    let mut alert = empty_alert();
    // The first `]` comes before the first `[`: no link text to extract.
    alert.sections.push(ActivitySection {
        activity_title: String::from("t"),
        activity_subtitle: String::from("odd ] then [ text"),
    });
    let m = converter.extract_metadata(&alert);
    assert_eq!(m.issue_identifier, "odd ] then [ text");
}

#[test]
fn title_without_colon_is_its_own_class() {
    let converter = Converter::new(None, true);
    let mut alert = populated_alert();
    alert.attachments[0].title = String::from("PlainPanic");
    let m = converter.extract_metadata(&alert);
    assert_eq!(m.exception_class_name, "PlainPanic");
    assert_eq!(m.full_error_message, "PlainPanic");
}

#[test]
fn first_matching_field_wins() {
    let converter = Converter::new(None, true);
    let mut alert = populated_alert();
    alert.attachments[0].fields.push(AttachmentField {
        title: String::from("Project"),
        value: String::from("second-project"),
        short: false,
    });
    let m = converter.extract_metadata(&alert);
    assert_eq!(m.project_id, "backend");
}

#[test]
fn unmatched_field_keys_fall_back_to_unknown() {
    let converter = Converter::new(None, true);
    let mut alert = populated_alert();
    alert.attachments[0].fields.retain(|f| f.title != "Release");
    let m = converter.extract_metadata(&alert);
    assert_eq!(m.commit_hash, "Unknown");
    assert_eq!(m.project_id, "backend");
}

#[test]
fn hash_colors_follow_color_derivation() {
    let converter = Converter::new(None, true);
    let m = converter.extract_metadata(&populated_alert());
    let project = glitchtip_relay::color::hash_to_color("backend");
    let env = glitchtip_relay::color::hash_to_color("production");
    let host = glitchtip_relay::color::hash_to_color("web-1");
    assert_eq!((m.colors.project_bg, m.colors.project_fg), project);
    assert_eq!((m.colors.env_bg, m.colors.env_fg), env);
    assert_eq!((m.colors.host_bg, m.colors.host_fg), host);
}

#[test]
fn fixed_colors_when_hash_coloring_is_off() {
    let converter = Converter::new(None, false);
    let m = converter.extract_metadata(&populated_alert());
    assert_eq!(m.colors.project_bg, "red-50");
    assert_eq!(m.colors.project_fg, "red");
    assert_eq!(m.colors.env_bg, "carmine-50");
    assert_eq!(m.colors.env_fg, "carmine");
    assert_eq!(m.colors.host_bg, "orange-50");
    assert_eq!(m.colors.host_fg, "orange");
}

#[test]
fn element_ids_are_hexadecimal_words() {
    let converter = Converter::new(None, true);
    let m = converter.extract_metadata(&populated_alert());
    for id in [&m.element_ids.id_1, &m.element_ids.id_2, &m.element_ids.id_3] {
        assert!(!id.is_empty() && id.len() <= 16);
        assert!(id.bytes().all(|b| b.is_ascii_hexdigit() && !b.is_ascii_uppercase()));
    }
}

#[test]
fn timestamp_attribute_has_clock_shape() {
    let converter = Converter::new(None, true);
    let m = converter.extract_metadata(&populated_alert());
    let bytes = m.current_timestamp.as_bytes();
    assert_eq!(bytes.len(), 19);
    assert_eq!(bytes[4], b'-');
    assert_eq!(bytes[10], b' ');
    assert_eq!(bytes[16], b':');
}
