use vstd::prelude::*;

verus! {

/// The Markdown extensions that a conversion turns on.
#[derive(Clone, Copy, Debug, PartialEq, Eq, Structural)]
pub struct MarkdownExtensions {
    pub strikethrough: bool,
    pub table: bool,
    pub autolink: bool,
    pub shortcodes: bool,
    pub underline: bool,
    pub description_lists: bool,
    pub greentext: bool,
    pub superscript: bool,
    pub subscript: bool,
    pub spoiler: bool,
}

/// The HTML that comrak renders for `md` under its default options with
/// the extensions of `ext` turned on.
pub uninterp spec fn markdown_html_of(md: Seq<char>, ext: MarkdownExtensions) -> Seq<char>;

/// Every extension that the site's pages use is on.
pub open spec fn site_extensions(ext: MarkdownExtensions) -> bool {
    &&& ext.strikethrough
    &&& ext.table
    &&& ext.autolink
    &&& ext.shortcodes
    &&& ext.underline
    &&& ext.description_lists
    &&& ext.greentext
    &&& ext.superscript
    &&& ext.subscript
    &&& ext.spoiler
}

/// The extension set of every conversion on the site.
pub open spec fn page_extensions() -> MarkdownExtensions {
    MarkdownExtensions {
        strikethrough: true,
        table: true,
        autolink: true,
        shortcodes: true,
        underline: true,
        description_lists: true,
        greentext: true,
        superscript: true,
        subscript: true,
        spoiler: true,
    }
}

impl MarkdownExtensions {
    /// All extensions off, as in comrak's default options.
    pub fn none() -> (r: MarkdownExtensions)
        ensures
            !r.strikethrough && !r.table && !r.autolink && !r.shortcodes && !r.underline
                && !r.description_lists && !r.greentext && !r.superscript && !r.subscript
                && !r.spoiler,
    {
        MarkdownExtensions {
            strikethrough: false,
            table: false,
            autolink: false,
            shortcodes: false,
            underline: false,
            description_lists: false,
            greentext: false,
            superscript: false,
            subscript: false,
            spoiler: false,
        }
    }
}

/// Turns on the extension set that every page conversion uses, whatever
/// was set before.
pub fn enable_extensions(options: &mut MarkdownExtensions)
    ensures
        *final(options) == page_extensions(),
        site_extensions(*final(options)),
{
    options.strikethrough = true;
    options.table = true;
    options.autolink = true;
    options.shortcodes = true;
    options.underline = true;
    options.description_lists = true;
    options.greentext = true;
    options.superscript = true;
    options.subscript = true;
    options.spoiler = true;
}

/// Relies on comrak::markdown_to_html: its output depends on the input text
/// and the options alone.
#[verifier::external_body]
fn comrak_to_html(md: &str, ext: &MarkdownExtensions) -> (r: String)
    ensures
        r@ == markdown_html_of(md@, *ext),
{
    let mut options = comrak::Options::default();
    options.extension.strikethrough = ext.strikethrough;
    options.extension.table = ext.table;
    options.extension.autolink = ext.autolink;
    options.extension.shortcodes = ext.shortcodes;
    options.extension.underline = ext.underline;
    options.extension.description_lists = ext.description_lists;
    options.extension.greentext = ext.greentext;
    options.extension.superscript = ext.superscript;
    options.extension.subscript = ext.subscript;
    options.extension.spoiler = ext.spoiler;
    comrak::markdown_to_html(md, &options)
}

/// Converts `md` to HTML with the given extensions.
pub fn markdown_to_html(md: &str, ext: &MarkdownExtensions) -> (r: String)
    ensures
        r@ == markdown_html_of(md@, *ext),
{
    comrak_to_html(md, ext)
}

/// The opening tag of the container round rendered Markdown.
pub const MARKDOWN_OPEN: &'static str = "<div class=\"markdown-body\">";

/// The closing tag of the container round rendered Markdown.
pub const MARKDOWN_CLOSE: &'static str = "</div>";

/// `html` inside the Markdown container element.
pub open spec fn wrapped(html: Seq<char>) -> Seq<char> {
    MARKDOWN_OPEN@ + html + MARKDOWN_CLOSE@
}

/// The page body for rendered Markdown: `html` inside the container element.
pub fn wrap_markdown_body(html: &str) -> (r: String)
    ensures
        r@ == wrapped(html@),
{
    let mut s: String = MARKDOWN_OPEN.to_owned();
    s.append(html);
    s.append(MARKDOWN_CLOSE);
    s
}

/// The page body for the Markdown text `md`.
pub open spec fn markdown_page(md: Seq<char>) -> Seq<char> {
    wrapped(markdown_html_of(md, page_extensions()))
}

/// Converts `md` to HTML with the page extension set and wraps it in the
/// container element.
pub fn render_markdown_page(md: &str) -> (r: String)
    ensures
        r@ == markdown_page(md@),
{
    let mut ext = MarkdownExtensions::none();
    enable_extensions(&mut ext);
    let html = markdown_to_html(md, &ext);
    wrap_markdown_body(html.as_str())
}

/// Conversion is deterministic: equal texts give byte-identical pages.
pub proof fn markdown_page_deterministic(a: Seq<char>, b: Seq<char>)
    requires
        a == b,
    ensures
        markdown_page(a) == markdown_page(b),
{
}

} // verus!
