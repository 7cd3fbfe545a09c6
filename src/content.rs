use vstd::prelude::*;

use crate::markdown::{markdown_page, render_markdown_page};
use crate::text::str_eq;

verus! {

/// Object-store source of the events list.
pub const EVENTS_JSON_URL: &'static str = "https://r2.seemsgood.org/content/events.json";

/// Object-store source of the raid progress.
pub const PROGRESS_JSON_URL: &'static str = "https://r2.seemsgood.org/content/progress.json";

/// Object-store source of the raider expectations, in Markdown.
pub const RAIDER_EXPECTATIONS_URL: &'static str =
    "https://r2.seemsgood.org/content/md/raider-expectations.md";

/// Bundled copy of the events list.
pub const EVENTS_FALLBACK: &'static str = "assets/events.json";

/// Bundled copy of the raid progress.
pub const PROGRESS_FALLBACK: &'static str = "assets/progress.json";

/// Bundled page shown in place of the raider expectations.
pub const EXPECTATIONS_FALLBACK: &'static str = "assets/404.html";

/// `Content-Type` of JSON responses.
pub const JSON_CONTENT_TYPE: &'static str = "application/json";

/// `Content-Type` of HTML responses.
pub const HTML_CONTENT_TYPE: &'static str = "text/html; charset=utf-8";

/// `Cache-Control` of every content response: the store's content changes
/// without its address changing.
pub const NO_STORE: &'static str = "no-cache, no-store, must-revalidate";

/// Body served for JSON when neither the store nor the bundle has text.
pub const EMPTY_JSON: &'static str = "{}";

/// Markdown text rendered when the bundle has no page to fall back on;
/// plain text, so the renderer keeps it (raw HTML would be omitted).
pub const UNAVAILABLE_MARKDOWN: &'static str = "Content unavailable.";

/// How a fetched body is turned into a response.
#[derive(Clone, Copy, Debug, PartialEq, Eq, Structural)]
pub enum ContentKind {
    /// Passed through unchanged.
    Json,
    /// Converted from Markdown to HTML.
    MarkdownHtml,
}

/// The allow-list of each kind: exact URLs, no patterns.
pub open spec fn allowed(url: Seq<char>, kind: ContentKind) -> bool {
    match kind {
        ContentKind::Json => url == EVENTS_JSON_URL@ || url == PROGRESS_JSON_URL@,
        ContentKind::MarkdownHtml => url == RAIDER_EXPECTATIONS_URL@,
    }
}

/// Whether `url` may be fetched for content of `kind`: it must equal one of
/// the kind's listed URLs.
pub fn is_allowed(url: &str, kind: ContentKind) -> (r: bool)
    ensures
        r == allowed(url@, kind),
{
    match kind {
        ContentKind::Json => str_eq(url, EVENTS_JSON_URL) || str_eq(url, PROGRESS_JSON_URL),
        ContentKind::MarkdownHtml => str_eq(url, RAIDER_EXPECTATIONS_URL),
    }
}

/// A status of the success class, `[200, 300)`.
pub open spec fn success_status(status: u16) -> bool {
    200 <= status < 300
}

/// Whether a response with `status` counts as a successful fetch.
pub fn is_success_status(status: u16) -> (r: bool)
    ensures
        r == success_status(status),
{
    200 <= status && status < 300
}

/// Why a remote fetch gave no body. The reason is for logging only.
#[derive(Clone, Debug, PartialEq, Eq)]
pub enum FetchError {
    /// The URL is not on the kind's allow-list; nothing was sent.
    NotAllowed,
    /// The request could not be made or sent.
    Transport(String),
    /// The store answered with a status outside `[200, 300)`.
    Status(u16),
    /// The body of a successful response could not be read.
    BodyRead(String),
}

/// What the bundled asset store holds under a path.
#[derive(Clone, Debug)]
pub enum AssetLookup {
    /// A file whose contents are text.
    Text(String),
    /// A file whose contents are not UTF-8.
    Binary,
    /// No file.
    Missing,
}

/// One content request: where to fetch, where to fall back, how to render.
#[derive(Clone, Debug)]
pub struct ContentRequest {
    pub url: String,
    pub fallback_path: String,
    pub kind: ContentKind,
}

/// The response of a content endpoint.
#[derive(Clone, Debug)]
pub struct ContentResponse {
    pub status: u16,
    pub content_type: &'static str,
    pub cache_control: &'static str,
    pub body: String,
}

/// What happened last in handling a request.
#[derive(Debug)]
pub enum Event {
    /// The request has just arrived.
    Start,
    /// The GET was sent: the response status, or why sending failed.
    Sent(Result<u16, String>),
    /// The response body was read, or why reading it failed.
    BodyRead(Result<String, String>),
    /// The fallback path was looked up in the asset store.
    FallbackLooked(AssetLookup),
}

/// What to do next in handling a request.
#[derive(Debug)]
pub enum Action {
    /// Send one GET to the request's URL.
    Send,
    /// Read the body of the response.
    ReadBody,
    /// Log `reason`, then look `path` up in the asset store.
    LoadFallback { path: String, reason: FetchError },
    /// Answer the client; nothing follows.
    Respond(ContentResponse),
}

/// The `Content-Type` of each kind.
pub open spec fn content_type_of(kind: ContentKind) -> Seq<char> {
    match kind {
        ContentKind::Json => JSON_CONTENT_TYPE@,
        ContentKind::MarkdownHtml => HTML_CONTENT_TYPE@,
    }
}

/// The body served for `text` of `kind`.
pub open spec fn rendered(kind: ContentKind, text: Seq<char>) -> Seq<char> {
    match kind {
        ContentKind::Json => text,
        ContentKind::MarkdownHtml => markdown_page(text),
    }
}

/// The text taken from the asset store's answer, with the kind's
/// placeholder where it has none.
pub open spec fn fallback_text(kind: ContentKind, found: AssetLookup) -> Seq<char> {
    match (kind, found) {
        (_, AssetLookup::Text(t)) => t@,
        (ContentKind::Json, _) => EMPTY_JSON@,
        (ContentKind::MarkdownHtml, AssetLookup::Binary) => Seq::empty(),
        (ContentKind::MarkdownHtml, AssetLookup::Missing) => UNAVAILABLE_MARKDOWN@,
    }
}

/// `resp` is a 200 response of `kind`, not to be cached, with body `body`.
pub open spec fn serves(resp: ContentResponse, kind: ContentKind, body: Seq<char>) -> bool {
    &&& resp.status == 200
    &&& resp.content_type@ == content_type_of(kind)
    &&& resp.cache_control@ == NO_STORE@
    &&& resp.body@ == body
}

/// `a` answers with a 200 response of `kind` whose body is `body`.
pub open spec fn responds(a: Action, kind: ContentKind, body: Seq<char>) -> bool {
    match a {
        Action::Respond(resp) => serves(resp, kind, body),
        _ => false,
    }
}

/// `a` falls back to the asset at `path`, for `reason`.
pub open spec fn falls_back(a: Action, path: Seq<char>, reason: FetchError) -> bool {
    match a {
        Action::LoadFallback { path: p, reason: e } => p@ == path && e == reason,
        _ => false,
    }
}

/// Every response is a 200, and none may be cached.
pub open spec fn uncached_ok(a: Action) -> bool {
    match a {
        Action::Respond(resp) => resp.status == 200 && resp.cache_control@ == NO_STORE@,
        _ => true,
    }
}

/// Renders `text` as content of `kind`: JSON is passed through, Markdown is
/// converted to HTML inside the container element.
pub fn render(kind: ContentKind, text: &str) -> (r: ContentResponse)
    ensures
        serves(r, kind, rendered(kind, text@)),
{
    match kind {
        ContentKind::Json => ContentResponse {
            status: 200,
            content_type: JSON_CONTENT_TYPE,
            cache_control: NO_STORE,
            body: text.to_owned(),
        },
        ContentKind::MarkdownHtml => ContentResponse {
            status: 200,
            content_type: HTML_CONTENT_TYPE,
            cache_control: NO_STORE,
            body: render_markdown_page(text),
        },
    }
}

/// `r` is the action that follows `event` in handling `req`.
pub open spec fn next_action(req: ContentRequest, event: Event, r: Action) -> bool {
    match event {
        Event::Start => if allowed(req.url@, req.kind) {
            r is Send
        } else {
            falls_back(r, req.fallback_path@, FetchError::NotAllowed)
        },
        Event::Sent(Ok(status)) => if success_status(status) {
            r is ReadBody
        } else {
            falls_back(r, req.fallback_path@, FetchError::Status(status))
        },
        Event::Sent(Err(e)) => falls_back(r, req.fallback_path@, FetchError::Transport(e)),
        Event::BodyRead(Ok(body)) => responds(r, req.kind, rendered(req.kind, body@)),
        Event::BodyRead(Err(e)) => falls_back(r, req.fallback_path@, FetchError::BodyRead(e)),
        Event::FallbackLooked(found) => responds(
            r,
            req.kind,
            rendered(req.kind, fallback_text(req.kind, found)),
        ),
    }
}

/// The next action in handling `req` after `event`.
///
/// A URL off the allow-list is never sent; any failure of the fetch leads to
/// the fallback asset, and a missing asset to the kind's placeholder. Every
/// path ends in a 200 response that may not be cached.
pub fn step(req: &ContentRequest, event: Event) -> (r: Action)
    ensures
        next_action(*req, event, r),
{
    let path = req.fallback_path.clone();
    match event {
        Event::Start => {
            if is_allowed(req.url.as_str(), req.kind) {
                Action::Send
            } else {
                Action::LoadFallback { path, reason: FetchError::NotAllowed }
            }
        },
        Event::Sent(Ok(status)) => {
            if is_success_status(status) {
                Action::ReadBody
            } else {
                Action::LoadFallback { path, reason: FetchError::Status(status) }
            }
        },
        Event::Sent(Err(e)) => Action::LoadFallback { path, reason: FetchError::Transport(e) },
        Event::BodyRead(Ok(body)) => Action::Respond(render(req.kind, body.as_str())),
        Event::BodyRead(Err(e)) => Action::LoadFallback { path, reason: FetchError::BodyRead(e) },
        Event::FallbackLooked(found) => {
            let text: String = match found {
                AssetLookup::Text(t) => t,
                AssetLookup::Binary => match req.kind {
                    ContentKind::Json => EMPTY_JSON.to_owned(),
                    ContentKind::MarkdownHtml => String::new(),
                },
                AssetLookup::Missing => match req.kind {
                    ContentKind::Json => EMPTY_JSON.to_owned(),
                    ContentKind::MarkdownHtml => UNAVAILABLE_MARKDOWN.to_owned(),
                },
            };
            Action::Respond(render(req.kind, text.as_str()))
        },
    }
}

/// A request is only ever sent to a URL on its kind's allow-list: whatever
/// the event, an action that sends implies the URL was allowed.
pub proof fn only_allowed_urls_are_sent(req: ContentRequest, event: Event, r: Action)
    requires
        next_action(req, event, r),
        r is Send,
    ensures
        allowed(req.url@, req.kind),
{
}

/// A URL off the allow-list goes straight to the fallback asset, with the
/// refusal as the reason to log, and is never sent.
pub proof fn blocked_url_falls_back(req: ContentRequest, r: Action)
    requires
        !allowed(req.url@, req.kind),
        next_action(req, Event::Start, r),
    ensures
        !(r is Send),
        falls_back(r, req.fallback_path@, FetchError::NotAllowed),
{
}

/// Whatever branch produced it (remote body, fallback asset, placeholder),
/// every response is a 200 that may not be cached.
pub proof fn responses_are_never_cached(req: ContentRequest, event: Event, r: Action)
    requires
        next_action(req, event, r),
    ensures
        uncached_ok(r),
{
}

/// The content endpoint served at `path`, if any.
pub open spec fn route_of(path: Seq<char>, r: Option<ContentRequest>) -> bool {
    if path == "/progress"@ {
        r matches Some(q) && q.url@ == PROGRESS_JSON_URL@ && q.fallback_path@ == PROGRESS_FALLBACK@
            && q.kind == ContentKind::Json
    } else if path == "/events"@ {
        r matches Some(q) && q.url@ == EVENTS_JSON_URL@ && q.fallback_path@ == EVENTS_FALLBACK@
            && q.kind == ContentKind::Json
    } else if path == "/expectations"@ {
        r matches Some(q) && q.url@ == RAIDER_EXPECTATIONS_URL@ && q.fallback_path@
            == EXPECTATIONS_FALLBACK@ && q.kind == ContentKind::MarkdownHtml
    } else {
        r is None
    }
}

fn request(url: &str, fallback_path: &str, kind: ContentKind) -> (r: ContentRequest)
    ensures
        r.url@ == url@,
        r.fallback_path@ == fallback_path@,
        r.kind == kind,
{
    ContentRequest { url: url.to_owned(), fallback_path: fallback_path.to_owned(), kind }
}

/// The content request that the path `path` stands for: `/progress` and
/// `/events` serve JSON, `/expectations` serves Markdown as HTML; every
/// other path belongs to the page router.
pub fn content_route(path: &str) -> (r: Option<ContentRequest>)
    ensures
        route_of(path@, r),
{
    if str_eq(path, "/progress") {
        Some(request(PROGRESS_JSON_URL, PROGRESS_FALLBACK, ContentKind::Json))
    } else if str_eq(path, "/events") {
        Some(request(EVENTS_JSON_URL, EVENTS_FALLBACK, ContentKind::Json))
    } else if str_eq(path, "/expectations") {
        Some(request(RAIDER_EXPECTATIONS_URL, EXPECTATIONS_FALLBACK, ContentKind::MarkdownHtml))
    } else {
        None
    }
}

} // verus!
