//! The page shell: the document frame that every page shares.
//!
//! The shell takes the inner content of a page and nothing else. Whatever the
//! content, the document begins with the same head and navigation bar and ends
//! with the same footer.

use crate::markup::Markup;
use crate::sections::{footer, footer_html};
use vstd::prelude::*;

verus! {

/// The doctype, the opening of the document, and the `<head>` block: metadata,
/// favicons for light and dark colour schemes, the styling scripts with their
/// configuration, and the title.
pub const DOCUMENT_HEAD: &'static str =
    "<!DOCTYPE html><html lang=\"en\"><head><meta http-equiv=\"x-clacks-overhead\" content=\"GNU \
    Terry Pratchett\"><link href=\"black-favicon.png\" rel=\"icon\" media=\"(prefers-color-scheme: \
    light)\"><link href=\"white-favicon.png\" rel=\"icon\" media=\"(prefers-color-scheme: dark)\">\
    <script src=\"https://cdn.tailwindcss.com\"></script><script src=\"tw.js\"></script><script> \
    tailwind.config = {\n                    theme: {\n                        container: \
    {\n                            center: true,\n                        \
    },\n                        fontFamily: {\n                            \"mono\": \"courier, \
    monospace\",\n                        }\n                    }\n                }</script><meta \
    charset=\"utf-8\"><meta name=\"description\" content=\"When you see this logo on any artwork, \
    whether painting, poetry, or prose, you know that it was made by a human just like you.\"><meta \
    content=\"width=device-width, initial-scale=1\" name=\"viewport\"><title class=\"text-4xl\">The \
    Brainmade Mark</title></head>";

/// The opening of the body and the navigation bar.
pub const NAVIGATION: &'static str =
    "<body class=\"bg-black text-white font-mono text-sm md:text-2xl mx-auto w-full max-w-5xl\"><nav \
    class=\"flex items-center justify-between flex-wrap bg-black-500 p-6\"><div class=\"flex \
    items-center flex-shrink-0 text-white mr-6\"><span class=\"font-semibold text-xl \
    tracking-tight\">The Brainmade Mark</span></div><div class=\"w-full block flex-grow lg:flex \
    lg:items-center lg:w-auto\"><div class=\"text-xl lg:flex-grow\"><a href=\"index.html#about\" \
    class=\"underline block lg:inline-block lg:mt-0 text-black-200 hover:text-white mr-4\">About</a>\
    <a href=\"index.html#downloads\" class=\"underline block lg:inline-block lg:mt-0 text-black-200 \
    hover:text-white mr-4\">Downloads</a><a href=\"https://github.com/0atman/Brainmade-org\" \
    class=\"underline block lg:inline-block lg:mt-0 text-black-200 hover:text-white mr-4\">\
    Github</a><a href=\"credits.html\" class=\"underline block lg:inline-block lg:mt-0 \
    text-black-200 hover:text-white mr-4\">Credits</a></div></div></nav>";

/// The opening of the bordered container around the inner content.
pub const CONTAINER_OPEN: &'static str = "<div class=\"border-black border-8 container mx-auto\">";

/// The end of the bordered container.
pub const CONTAINER_CLOSE: &'static str = "</div>";

/// The end of the body and of the document.
pub const DOCUMENT_CLOSE: &'static str = "</body></html>";

/// Everything that a document holds before the inner content.
pub open spec fn shell_prefix() -> Seq<char> {
    DOCUMENT_HEAD@ + NAVIGATION@ + CONTAINER_OPEN@
}

/// Everything that a document holds after the inner content.
pub open spec fn shell_suffix() -> Seq<char> {
    CONTAINER_CLOSE@ + footer_html() + DOCUMENT_CLOSE@
}

/// The complete document around the inner content `inner`.
pub open spec fn document_html(inner: Seq<char>) -> Seq<char> {
    shell_prefix() + inner + shell_suffix()
}

/// Wraps `inner` in the page shell.
pub fn template(inner: Markup) -> (document: Markup)
    ensures
        document@.html() == document_html(inner@.html()),
{
    let document = Markup::text(DOCUMENT_HEAD)
        .followed_by(Markup::text(NAVIGATION))
        .followed_by(Markup::text(CONTAINER_OPEN))
        .followed_by(inner)
        .followed_by(Markup::text(CONTAINER_CLOSE))
        .followed_by(footer())
        .followed_by(Markup::text(DOCUMENT_CLOSE));
    assert(document@.html() =~= document_html(inner@.html()));
    document
}

/// The offset of the inner content in every document.
pub open spec fn content_start() -> int {
    shell_prefix().len() as int
}

/// Where the parts of a document lie: the shell prefix, then the inner
/// content, then the shell suffix, and nothing else.
pub proof fn lemma_document_layout(inner: Seq<char>)
    ensures
        document_html(inner).len() == content_start() + inner.len() + shell_suffix().len(),
        document_html(inner).take(content_start()) == shell_prefix(),
        document_html(inner).subrange(content_start(), content_start() + inner.len()) == inner,
        document_html(inner).skip(content_start() + inner.len()) == shell_suffix(),
{
    let document = document_html(inner);
    assert(document.take(content_start()) =~= shell_prefix());
    assert(document.subrange(content_start(), content_start() + inner.len()) =~= inner);
    assert(document.skip(content_start() + inner.len()) =~= shell_suffix());
}

/// Shell invariance: the documents around any two contents hold the same text
/// before the content (head and navigation) and the same text after it
/// (footer). They differ in the content alone.
pub proof fn lemma_shell_invariance(first: Seq<char>, second: Seq<char>)
    ensures
        document_html(first).take(content_start()) == document_html(second).take(content_start()),
        document_html(first).skip(content_start() + first.len()) == document_html(second).skip(
            content_start() + second.len(),
        ),
{
    lemma_document_layout(first);
    lemma_document_layout(second);
}

} // verus!
