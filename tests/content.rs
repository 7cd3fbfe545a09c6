use seemsgood::content::{
    content_route, is_allowed, is_success_status, render, step, Action, AssetLookup,
    ContentKind, ContentRequest, Event, FetchError, EVENTS_JSON_URL, PROGRESS_JSON_URL,
    RAIDER_EXPECTATIONS_URL,
};
use seemsgood::markdown::{
    enable_extensions, markdown_to_html, render_markdown_page, wrap_markdown_body,
    MarkdownExtensions,
};

const NO_STORE: &str = "no-cache, no-store, must-revalidate";

fn progress() -> ContentRequest {
    content_route("/progress").unwrap()
}

fn expectations() -> ContentRequest {
    content_route("/expectations").unwrap()
}

fn response(a: Action) -> seemsgood::content::ContentResponse {
    match a {
        Action::Respond(r) => r,
        other => panic!("expected a response, got {:?}", other),
    }
}

#[test]
fn allow_list_is_exact() {
    assert!(is_allowed(EVENTS_JSON_URL, ContentKind::Json));
    assert!(is_allowed(PROGRESS_JSON_URL, ContentKind::Json));
    assert!(is_allowed(RAIDER_EXPECTATIONS_URL, ContentKind::MarkdownHtml));
    assert!(!is_allowed(RAIDER_EXPECTATIONS_URL, ContentKind::Json));
    assert!(!is_allowed(EVENTS_JSON_URL, ContentKind::MarkdownHtml));
    assert!(!is_allowed("https://r2.seemsgood.org/content/events.json?x=1", ContentKind::Json));
    assert!(!is_allowed("https://r2.seemsgood.org/content/", ContentKind::Json));
    assert!(!is_allowed("", ContentKind::Json));
    assert!(!is_allowed("https://example.com/", ContentKind::MarkdownHtml));
}

#[test]
fn blocked_url_is_never_sent() {
    let req = ContentRequest {
        url: "https://evil.example/steal".to_string(),
        fallback_path: "assets/progress.json".to_string(),
        kind: ContentKind::Json,
    };
    match step(&req, Event::Start) {
        Action::LoadFallback { path, reason } => {
            assert_eq!(path, "assets/progress.json");
            assert_eq!(reason, FetchError::NotAllowed);
        }
        other => panic!("unexpected {:?}", other),
    }
}

#[test]
fn allowed_url_is_sent() {
    assert!(matches!(step(&progress(), Event::Start), Action::Send));
    assert!(matches!(step(&expectations(), Event::Start), Action::Send));
}

#[test]
fn status_boundaries() {
    assert!(!is_success_status(199));
    assert!(is_success_status(200));
    assert!(is_success_status(299));
    assert!(!is_success_status(300));
    assert!(matches!(step(&progress(), Event::Sent(Ok(200))), Action::ReadBody));
    assert!(matches!(step(&progress(), Event::Sent(Ok(299))), Action::ReadBody));
    match step(&progress(), Event::Sent(Ok(199))) {
        Action::LoadFallback { reason, .. } => assert_eq!(reason, FetchError::Status(199)),
        other => panic!("unexpected {:?}", other),
    }
    match step(&progress(), Event::Sent(Ok(300))) {
        Action::LoadFallback { reason, .. } => assert_eq!(reason, FetchError::Status(300)),
        other => panic!("unexpected {:?}", other),
    }
}

#[test]
fn transport_and_body_errors_fall_back() {
    match step(&progress(), Event::Sent(Err("offline".to_string()))) {
        Action::LoadFallback { path, reason } => {
            assert_eq!(path, "assets/progress.json");
            assert_eq!(reason, FetchError::Transport("offline".to_string()));
        }
        other => panic!("unexpected {:?}", other),
    }
    match step(&expectations(), Event::BodyRead(Err("cut".to_string()))) {
        Action::LoadFallback { path, reason } => {
            assert_eq!(path, "assets/404.html");
            assert_eq!(reason, FetchError::BodyRead("cut".to_string()));
        }
        other => panic!("unexpected {:?}", other),
    }
}

#[test]
fn unavailable_store_falls_back_to_progress_asset() {
    let req = progress();
    match step(&req, Event::Sent(Ok(503))) {
        Action::LoadFallback { path, reason } => {
            assert_eq!(path, "assets/progress.json");
            assert_eq!(reason, FetchError::Status(503));
        }
        other => panic!("unexpected {:?}", other),
    }
    let found = step(&req, Event::FallbackLooked(AssetLookup::Text("[1,2]".to_string())));
    let r = response(found);
    assert_eq!(r.status, 200);
    assert_eq!(r.body, "[1,2]");
    assert_eq!(r.content_type, "application/json");
    assert_eq!(r.cache_control, NO_STORE);
    let r = response(step(&req, Event::FallbackLooked(AssetLookup::Missing)));
    assert_eq!(r.body, "{}");
    assert_eq!(r.content_type, "application/json");
    let r = response(step(&req, Event::FallbackLooked(AssetLookup::Binary)));
    assert_eq!(r.body, "{}");
}

#[test]
fn markdown_success_is_rendered_in_container() {
    let r = response(step(&expectations(), Event::BodyRead(Ok("# Hi".to_string()))));
    assert_eq!(r.status, 200);
    assert_eq!(r.body, "<div class=\"markdown-body\"><h1>Hi</h1>\n</div>");
    assert_eq!(r.content_type, "text/html; charset=utf-8");
    assert_eq!(r.cache_control, NO_STORE);
}

#[test]
fn json_success_is_passed_through() {
    let r = response(step(&progress(), Event::BodyRead(Ok("{\"a\": 1}".to_string()))));
    assert_eq!(r.body, "{\"a\": 1}");
    assert_eq!(r.content_type, "application/json");
    assert_eq!(r.cache_control, NO_STORE);
}

#[test]
fn markdown_fallback_missing_shows_placeholder() {
    let r = response(step(&expectations(), Event::FallbackLooked(AssetLookup::Missing)));
    assert_eq!(r.status, 200);
    assert_eq!(r.content_type, "text/html; charset=utf-8");
    assert_eq!(r.cache_control, NO_STORE);
    assert_eq!(r.body, "<div class=\"markdown-body\"><p>Content unavailable.</p>\n</div>");
    let r = response(step(&expectations(), Event::FallbackLooked(AssetLookup::Binary)));
    assert_eq!(r.body, "<div class=\"markdown-body\"></div>");
}

#[test]
fn every_branch_sets_no_store() {
    for req in [progress(), expectations(), content_route("/events").unwrap()] {
        let events = vec![
            Event::BodyRead(Ok("x".to_string())),
            Event::FallbackLooked(AssetLookup::Text("y".to_string())),
            Event::FallbackLooked(AssetLookup::Missing),
            Event::FallbackLooked(AssetLookup::Binary),
        ];
        for e in events {
            let r = response(step(&req, e));
            assert_eq!(r.cache_control, NO_STORE);
            assert_eq!(r.status, 200);
        }
    }
}

#[test]
fn routes() {
    let r = progress();
    assert_eq!(r.url, PROGRESS_JSON_URL);
    assert_eq!(r.fallback_path, "assets/progress.json");
    assert_eq!(r.kind, ContentKind::Json);
    let r = content_route("/events").unwrap();
    assert_eq!(r.url, EVENTS_JSON_URL);
    assert_eq!(r.fallback_path, "assets/events.json");
    assert_eq!(r.kind, ContentKind::Json);
    let r = expectations();
    assert_eq!(r.url, RAIDER_EXPECTATIONS_URL);
    assert_eq!(r.fallback_path, "assets/404.html");
    assert_eq!(r.kind, ContentKind::MarkdownHtml);
    assert!(content_route("/").is_none());
    assert!(content_route("/progress/").is_none());
    assert!(content_route("/about").is_none());
}

#[test]
fn markdown_is_deterministic() {
    let text = "# Title\n\n| a | b |\n|---|---|\n| 1 | 2 |\n\n~~x~~ ^sup^ :smile:";
    let a = render_markdown_page(text);
    let b = render_markdown_page(text);
    assert_eq!(a, b);
}

#[test]
fn strikethrough_and_bold_are_rendered() {
    let out = render_markdown_page("~~gone~~ **bold**");
    assert!(out.contains("<del>gone</del>"));
    assert!(out.contains("<strong>bold</strong>"));
}

#[test]
fn extensions_are_switched_on() {
    let mut ext = MarkdownExtensions::none();
    assert_eq!(markdown_to_html("~~gone~~", &ext), "<p>~~gone~~</p>\n");
    enable_extensions(&mut ext);
    assert!(ext.strikethrough && ext.table && ext.autolink && ext.shortcodes && ext.underline);
    assert!(ext.description_lists && ext.greentext && ext.superscript && ext.subscript);
    assert!(ext.spoiler);
    assert_eq!(markdown_to_html("~~gone~~", &ext), "<p><del>gone</del></p>\n");
    assert_eq!(markdown_to_html("# Hi", &ext), "<h1>Hi</h1>\n");
}

#[test]
fn wrapper_adds_container() {
    assert_eq!(wrap_markdown_body(""), "<div class=\"markdown-body\"></div>");
    assert_eq!(wrap_markdown_body("<p>x</p>"), "<div class=\"markdown-body\"><p>x</p></div>");
}

#[test]
fn render_json_and_markdown() {
    let r = render(ContentKind::Json, "{}");
    assert_eq!(r.body, "{}");
    assert_eq!(r.content_type, "application/json");
    let r = render(ContentKind::MarkdownHtml, "**b**");
    assert_eq!(r.body, "<div class=\"markdown-body\"><p><strong>b</strong></p>\n</div>");
    assert_eq!(r.content_type, "text/html; charset=utf-8");
}
