use ghost_relay::config::Config;
use ghost_relay::dispatch::{BatchSpan, DispatchStep, Dispatcher};
use ghost_relay::email::{compose_batch, format_email};
use ghost_relay::flow::WebhookError;
use ghost_relay::ghost::{Author, Member, MembersResponse, Meta, Pagination, Post, Settings};
use ghost_relay::pagination::{PageStep, Paginator};
use ghost_relay::signature::{verify, RejectReason, Verdict};
use hmac::Mac;

fn config() -> Config {
    Config {
        ghost_url: "https://blog.example".to_string(),
        ghost_admin_id: "kid".to_string(),
        ghost_admin_secret: "00ff".to_string(),
        webhook_secret: "whsec".to_string(),
        resend_api_key: "key".to_string(),
        from_email: "news@blog.example".to_string(),
        port: 3000,
    }
}

fn settings() -> Settings {
    Settings {
        title: "Blog Title".to_string(),
        description: "About".to_string(),
        accent_color: None,
        url: "https://blog.example".to_string(),
    }
}

fn post(title: &str) -> Post {
    Post {
        id: "post-id".to_string(),
        uuid: "post-uuid".to_string(),
        title: title.to_string(),
        slug: "hello".to_string(),
        html: "<p>Body text</p>".to_string(),
        comment_id: "comment-id".to_string(),
        plaintext: "Body text".to_string(),
        feature_image: Some("https://img.example/f.png".to_string()),
        featured: false,
        status: "published".to_string(),
        visibility: "public".to_string(),
        created_at: String::new(),
        updated_at: String::new(),
        published_at: String::new(),
        url: "https://blog.example/hello/".to_string(),
        excerpt: String::new(),
        primary_author: Author {
            name: "Ada".to_string(),
            profile_image: None,
            bio: Some("Writes things".to_string()),
            url: "https://blog.example/author/ada/".to_string(),
        },
        reading_time: 12,
        feature_image_alt: None,
        feature_image_caption: Some("A caption".to_string()),
        other: serde_json::Value::Null,
    }
}

fn member(id: &str) -> Member {
    Member {
        id: id.to_string(),
        email: format!("{}@example.com", id),
        name: None,
        status: "free".to_string(),
        created_at: String::new(),
        updated_at: String::new(),
        other: serde_json::Value::Null,
    }
}

#[test]
fn email_holds_post_site_and_links() {
    let html = format_email(&post("Hello"), &member("m7"), &config(), &settings());
    assert!(html.contains("<h1>Blog Title</h1>"));
    assert!(html.contains("<h1 class=\"post-title\">Hello</h1>"));
    assert!(html.contains("12 min read"));
    assert!(html.contains(
        "<img src=\"https://img.example/f.png\" alt=\"\" class=\"feature-image\"><div class=\"feature-caption\">A caption</div>"
    ));
    assert!(!html.contains("class=\"author-image\""));
    assert!(html.contains("<div class=\"author-bio\">Writes things</div>"));
    assert!(html.contains("<p>Body text</p>"));
    assert!(html.contains("href=\"https://blog.example#/portal/account\""));
    assert!(html.contains("href=\"https://blog.example#/portal/account?action=unsubscribe&uuid=m7\""));
    assert!(html.contains("signed up for updates from Blog Title."));
    assert!(html.trim_start().starts_with("<!DOCTYPE html>"));
    assert!(html.trim_end().ends_with("</html>"));
}

#[test]
fn reading_time_is_written_in_decimal() {
    let mut p = post("T");
    p.reading_time = 0;
    assert!(format_email(&p, &member("a"), &config(), &settings()).contains(">\n                        0 min read"));
    p.reading_time = 4_294_967_295;
    assert!(format_email(&p, &member("a"), &config(), &settings()).contains("4294967295 min read"));
}

#[test]
fn author_image_is_shown_when_present() {
    let mut p = post("T");
    p.primary_author.profile_image = Some("https://img.example/a.png".to_string());
    p.feature_image = None;
    let html = format_email(&p, &member("a"), &config(), &settings());
    assert!(html.contains("<img src=\"https://img.example/a.png\" alt=\"Ada\" class=\"author-image\">"));
    assert!(!html.contains("class=\"feature-image\">"));
}

#[test]
fn batch_emails_go_one_per_member() {
    let members = vec![member("a"), member("b"), member("c"), member("d")];
    let emails = compose_batch(&post("Hi"), &members, BatchSpan { start: 1, end: 3 }, &config(), &settings());
    assert_eq!(emails.len(), 2);
    assert_eq!(emails[0].to, vec!["b@example.com".to_string()]);
    assert_eq!(emails[1].to, vec!["c@example.com".to_string()]);
    assert_eq!(emails[0].from, "news@blog.example");
    assert!(emails[1].html.contains("uuid=c\""));
}

#[test]
fn signed_webhook_for_three_subscribers_sends_one_batch_of_three() {
    let cfg = config();
    let body = br#"{"post":{"current":{"title":"Hello"},"previous":{}}}"#;
    let ts = "1700000000";
    let mut mac = hmac::Hmac::<sha2::Sha256>::new_from_slice(cfg.webhook_secret.as_bytes()).unwrap();
    mac.update(body);
    mac.update(ts.as_bytes());
    let header = format!("sha256={}, t={}", hex::encode(mac.finalize().into_bytes()), ts);
    assert_eq!(verify(body, Some(header.as_str()), &cfg.webhook_secret), Verdict::Accept);

    let mut pager = Paginator::new();
    let page = MembersResponse {
        members: vec![member("a"), member("b"), member("c")],
        meta: Meta {
            pagination: Pagination { page: 1, limit: 100, pages: 1, total: 3, next: None, prev: None },
        },
    };
    assert_eq!(pager.on_response(200, Some(page)), PageStep::Done);
    let subscribers = pager.into_members();

    let the_post = post("Hello");
    let mut d = Dispatcher::new(subscribers.len());
    let mut batches = Vec::new();
    while let Some(span) = d.current() {
        batches.push(compose_batch(&the_post, &subscribers, span, &cfg, &settings()));
        assert_eq!(d.on_sent(true), DispatchStep::Done);
    }
    assert_eq!(batches.len(), 1);
    assert_eq!(batches[0].len(), 3);
    for e in &batches[0] {
        assert_eq!(e.subject, "Hello");
        assert_eq!(e.to.len(), 1);
    }
}

#[test]
fn rejections_map_to_statuses() {
    assert_eq!(WebhookError::from_reason(RejectReason::MissingHeader).status_code(), 401);
    assert_eq!(WebhookError::from_reason(RejectReason::MalformedHeader).status_code(), 400);
    assert_eq!(WebhookError::from_reason(RejectReason::SignatureMismatch).status_code(), 401);
    assert_eq!(WebhookError::InvalidBody.status_code(), 400);
    assert_eq!(WebhookError::SettingsUnavailable.status_code(), 500);
    assert_eq!(WebhookError::SubscribersUnavailable.status_code(), 500);
}
