use gotify2matrix::config::{
    default_format, default_html, default_plain, Config, Gotify, GotifyFormat, Matrix,
};
use gotify2matrix::backlog::BacklogBuilder;
use gotify2matrix::engine::{delivery_plan, DeliveryStep};
use gotify2matrix::models::{Application, GotifyMessage};
use gotify2matrix::render::Converter;

fn config(delete_sent: bool) -> Config {
    Config {
        matrix: Matrix {
            homeserver: "https://example.org".to_string(),
            username: "user".to_string(),
            password: "pass".to_string(),
            room_id: "!room:example.org".to_string(),
            session_dir: "./session".to_string(),
        },
        gotify: Gotify {
            url: "https://gotify.example.org".to_string(),
            token: "token".to_string(),
            delete_sent,
            plain: default_plain(),
            html: default_html(),
            threshold_low: 3,
            threshold_high: 8,
            low: GotifyFormat {
                plain: Some("low|{{app}}|{{message}}".to_string()),
                html: None,
            },
            normal: default_format(),
            high: GotifyFormat {
                plain: Some("high|{{app}}|{{message}}".to_string()),
                html: None,
            },
        },
    }
}

fn page() -> Vec<GotifyMessage> {
    // Newest first, as the source returns a page.
    vec![
        GotifyMessage {
            appid: 1,
            id: 12,
            message: "twelve".to_string(),
            priority: 9,
            title: None,
        },
        GotifyMessage {
            appid: 1,
            id: 11,
            message: "eleven".to_string(),
            priority: 5,
            title: None,
        },
        GotifyMessage {
            appid: 1,
            id: 10,
            message: "ten".to_string(),
            priority: 1,
            title: None,
        },
    ]
}

fn apps() -> Vec<Application> {
    vec![Application {
        id: 1,
        name: "App".to_string(),
    }]
}

/// Runs catch-up over one page: returns the delivered plain texts in
/// order, the executed delivery steps, and the final cursor.
fn relay(cursor: Option<i64>, delete_sent: bool) -> (Vec<String>, Vec<DeliveryStep>, Option<i64>) {
    let cfg = config(delete_sent);
    let converter = Converter::new(apps(), &cfg).unwrap();
    let mut builder = BacklogBuilder::new(cursor);
    let more = builder.absorb_page(page(), false, 0);
    assert_eq!(more, None);

    let mut delivered: Vec<String> = Vec::new();
    let mut executed: Vec<DeliveryStep> = Vec::new();
    let mut cursor = cursor;
    for message in builder.finish() {
        let content = converter.convert(&message).unwrap();
        for step in delivery_plan(message.id, cfg.gotify.delete_sent) {
            match step {
                DeliveryStep::SendContent => delivered.push(content.plain.clone()),
                DeliveryStep::PersistCursor(id) => cursor = Some(id),
                DeliveryStep::DeleteUpstream(_) => {}
            }
            executed.push(step);
        }
    }
    (delivered, executed, cursor)
}

#[test]
fn first_run_delivers_all_three_in_order() {
    // Cursor absent; ids 10, 11, 12 with priorities 1, 5, 9 and
    // thresholds low = 3, high = 8: tiers Low, Normal, High; the Low
    // and High tiers have overrides, Normal falls back to the base.
    let (delivered, _, cursor) = relay(None, false);
    assert_eq!(
        delivered,
        vec![
            "low|App|ten".to_string(),
            "App: \neleven".to_string(),
            "high|App|twelve".to_string(),
        ]
    );
    assert_eq!(cursor, Some(12));
}

#[test]
fn cursor_eleven_delivers_only_twelve() {
    let (delivered, _, cursor) = relay(Some(11), false);
    assert_eq!(delivered, vec!["high|App|twelve".to_string()]);
    assert_eq!(cursor, Some(12));
}

#[test]
fn delete_on_success_deletes_each_delivered_message_once() {
    let (_, executed, _) = relay(Some(11), true);
    let deletions: Vec<&DeliveryStep> = executed
        .iter()
        .filter(|s| matches!(s, DeliveryStep::DeleteUpstream(_)))
        .collect();
    assert_eq!(deletions, vec![&DeliveryStep::DeleteUpstream(12)]);
    // The deletion comes only after the cursor for 12 was persisted.
    let persist_at = executed
        .iter()
        .position(|s| *s == DeliveryStep::PersistCursor(12))
        .unwrap();
    let delete_at = executed
        .iter()
        .position(|s| *s == DeliveryStep::DeleteUpstream(12))
        .unwrap();
    assert!(persist_at < delete_at);
}

#[test]
fn without_delete_nothing_is_deleted() {
    let (_, executed, _) = relay(None, false);
    assert!(executed
        .iter()
        .all(|s| !matches!(s, DeliveryStep::DeleteUpstream(_))));
}
