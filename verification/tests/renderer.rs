use gotify2matrix::config::{
    default_format, default_html, default_plain, Config, Gotify, GotifyFormat, GotifyPriority,
    Matrix,
};
use gotify2matrix::errors::RelayError;
use gotify2matrix::models::{Application, GotifyMessage};
use gotify2matrix::render::{Converter, Message, TemplateKind};

fn config_with(gotify: Gotify) -> Config {
    Config {
        matrix: Matrix {
            homeserver: "https://example.org".to_string(),
            username: "user".to_string(),
            password: "pass".to_string(),
            room_id: "!room:example.org".to_string(),
            session_dir: "./session".to_string(),
        },
        gotify,
    }
}

fn base_gotify() -> Gotify {
    Gotify {
        url: "https://gotify.example.org".to_string(),
        token: "token".to_string(),
        delete_sent: false,
        plain: default_plain(),
        html: default_html(),
        threshold_low: 3,
        threshold_high: 8,
        low: default_format(),
        normal: default_format(),
        high: default_format(),
    }
}

fn apps() -> Vec<Application> {
    vec![
        Application {
            id: 1,
            name: "Mailer".to_string(),
        },
        Application {
            id: 2,
            name: "Monitor".to_string(),
        },
    ]
}

fn gmsg(appid: i64, id: i64, priority: u8, title: Option<&str>, body: &str) -> GotifyMessage {
    GotifyMessage {
        appid,
        id,
        message: body.to_string(),
        priority,
        title: title.map(|t| t.to_string()),
    }
}

#[test]
fn message_render_substitutes_fields() {
    let message = Message {
        app: "Mailer".to_string(),
        title: Some("Hi".to_string()),
        message: "Body".to_string(),
    };
    let out = message.render("{{app}}: {{title}}\n{{message}}").unwrap();
    assert_eq!(out, "Mailer: Hi\nBody");
}

#[test]
fn message_render_missing_title_is_empty() {
    let message = Message {
        app: "Mailer".to_string(),
        title: None,
        message: "Body".to_string(),
    };
    let out = message.render("{{app}}: {{title}}\n{{message}}").unwrap();
    assert_eq!(out, "Mailer: \nBody");
}

#[test]
fn converter_rejects_bad_base_template() {
    let mut gotify = base_gotify();
    gotify.plain = "{{unclosed".to_string();
    let result = Converter::new(apps(), &config_with(gotify));
    assert!(matches!(result, Err(RelayError::InvalidTemplate)));
}

#[test]
fn converter_rejects_bad_override_template() {
    let mut gotify = base_gotify();
    gotify.high = GotifyFormat {
        plain: Some("{{#if".to_string()),
        html: None,
    };
    let result = Converter::new(apps(), &config_with(gotify));
    assert!(matches!(result, Err(RelayError::InvalidTemplate)));
}

#[test]
fn tier_without_override_falls_back_to_base() {
    let mut gotify = base_gotify();
    // An override for one tier only; the others fall back.
    gotify.high = GotifyFormat {
        plain: Some("HIGH {{message}}".to_string()),
        html: None,
    };
    let converter = Converter::new(apps(), &config_with(gotify)).unwrap();
    let message = Message {
        app: "Mailer".to_string(),
        title: Some("T".to_string()),
        message: "M".to_string(),
    };
    let with_fallback = converter
        .render(&message, TemplateKind::Plain, GotifyPriority::Normal)
        .unwrap();
    let with_base = message.render(&default_plain()).unwrap();
    assert_eq!(with_fallback, with_base);
    // The overridden tier uses its own template, and the html kind of
    // the same tier still falls back.
    let overridden = converter
        .render(&message, TemplateKind::Plain, GotifyPriority::High)
        .unwrap();
    assert_eq!(overridden, "HIGH M");
    let html_fallback = converter
        .render(&message, TemplateKind::Html, GotifyPriority::High)
        .unwrap();
    assert_eq!(html_fallback, message.render(&default_html()).unwrap());
}

#[test]
fn convert_renders_both_representations() {
    let converter = Converter::new(apps(), &config_with(base_gotify())).unwrap();
    let content = converter
        .convert(&gmsg(1, 7, 5, Some("Hello"), "World"))
        .unwrap();
    assert_eq!(content.plain, "Mailer: Hello\nWorld");
    assert_eq!(content.html, "<h4>Mailer: Hello</h4>\nWorld");
}

#[test]
fn convert_unknown_app_fails() {
    let converter = Converter::new(apps(), &config_with(base_gotify())).unwrap();
    let result = converter.convert(&gmsg(99, 7, 5, None, "World"));
    assert!(matches!(result, Err(RelayError::UnknownApp)));
}

#[test]
fn convert_surfaces_runtime_render_failure() {
    let mut gotify = base_gotify();
    // Compiles, but fails at render time: the partial is not registered.
    gotify.plain = "{{> absent}}".to_string();
    let converter = Converter::new(apps(), &config_with(gotify)).unwrap();
    let result = converter.convert(&gmsg(1, 7, 5, None, "World"));
    assert!(matches!(result, Err(RelayError::RenderFailed)));
}

#[test]
fn convert_picks_tier_template_by_priority() {
    let mut gotify = base_gotify();
    gotify.low = GotifyFormat {
        plain: Some("low:{{message}}".to_string()),
        html: Some("<l>{{message}}</l>".to_string()),
    };
    gotify.high = GotifyFormat {
        plain: Some("high:{{message}}".to_string()),
        html: Some("<h>{{message}}</h>".to_string()),
    };
    let converter = Converter::new(apps(), &config_with(gotify)).unwrap();
    let low = converter.convert(&gmsg(1, 1, 1, None, "m")).unwrap();
    assert_eq!(low.plain, "low:m");
    assert_eq!(low.html, "<l>m</l>");
    let normal = converter.convert(&gmsg(1, 2, 5, None, "m")).unwrap();
    assert_eq!(normal.plain, "Mailer: \nm");
    let high = converter.convert(&gmsg(1, 3, 9, None, "m")).unwrap();
    assert_eq!(high.plain, "high:m");
    assert_eq!(high.html, "<h>m</h>");
}
