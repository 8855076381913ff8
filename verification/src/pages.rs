//! The two pages of the site.

use crate::markup::Markup;
use crate::sections::{
    about, about_html, heading, heading_html, intro, intro_html, sect1, sect1_html, sect2,
    sect2_html,
};
use crate::shell::{content_start, document_html, lemma_document_layout, template};
use vstd::prelude::*;

verus! {

/// The spacing between the sections of a page.
pub const SPACER: &'static str = "<br><br>";

/// The credits: a title, the attributions of the logo artwork, and the
/// acknowledgements.
pub const CREDITS: &'static str =
    "<h2 class=\"text-3xl\">Credits</h2><ul><li>Logo based on \"Human\" by JunGSa from <a \
    class=\"underline\" href=\"https://thenounproject.com/browse/icons/term/human/\">Noun \
    Project</a></li><li>And \"seed\" by Adrian Syauqi from <a class=\"underline\" \
    href=\"https://thenounproject.com/browse/icons/term/seed/\">Noun Project</a></li></ul><br>\
    Special thanks to everyone who workshopped the logo with me, especially super patron supporter \
    Andrew Jackson. Andrew, I should be paying YOU!";

/// The inner content of a page of five regions: the heading, then the
/// introduction, then three sections, each section after a spacer.
pub open spec fn page_body(
    heading: Seq<char>,
    intro: Seq<char>,
    sect1: Seq<char>,
    sect2: Seq<char>,
    sect3: Seq<char>,
) -> Seq<char> {
    heading + intro + SPACER@ + sect1 + SPACER@ + sect2 + SPACER@ + sect3
}

/// Composes five regions, in this order, and wraps them in the page shell.
pub fn page(
    heading: Markup,
    intro: Markup,
    sect1: Markup,
    sect2: Markup,
    sect3: Markup,
) -> (document: Markup)
    ensures
        document@.html() == document_html(
            page_body(
                heading@.html(),
                intro@.html(),
                sect1@.html(),
                sect2@.html(),
                sect3@.html(),
            ),
        ),
{
    let body = heading
        .followed_by(intro)
        .followed_by(Markup::text(SPACER))
        .followed_by(sect1)
        .followed_by(Markup::text(SPACER))
        .followed_by(sect2)
        .followed_by(Markup::text(SPACER))
        .followed_by(sect3);
    template(body)
}

/// The inner content of the index page.
pub open spec fn index_body() -> Seq<char> {
    page_body(heading_html(), intro_html(), sect1_html(), sect2_html(), about_html())
}

/// The text of the index page.
pub open spec fn index_html() -> Seq<char> {
    document_html(index_body())
}

/// The index page: heading, introduction, "About", "Downloads" and
/// "About Me", inside the page shell.
pub fn index() -> (document: Markup)
    ensures
        document@.html() == index_html(),
{
    page(heading(), intro(), sect1(), sect2(), about())
}

/// The inner content of the credits page.
pub open spec fn credits_body() -> Seq<char> {
    heading_html() + CREDITS@
}

/// The text of the credits page.
pub open spec fn credits_html() -> Seq<char> {
    document_html(credits_body())
}

/// The credits page: the heading and the credits, inside the page shell.
pub fn credits_page() -> (document: Markup)
    ensures
        document@.html() == credits_html(),
{
    template(heading().followed_by(Markup::text(CREDITS)))
}

/// `block` stands in `text` at offset `at`.
pub open spec fn occurs_at(text: Seq<char>, block: Seq<char>, at: int) -> bool {
    &&& 0 <= at
    &&& at + block.len() <= text.len()
    &&& text.subrange(at, at + block.len()) == block
}

/// Composition order: in the document that [`page`] builds, the five regions
/// stand one after the other, in declaration order and without overlap. The
/// heading starts where the inner content starts, the introduction follows it
/// directly, each section follows a spacer, and the last section ends where
/// the inner content ends.
pub proof fn lemma_page_composition_order(
    heading: Seq<char>,
    intro: Seq<char>,
    sect1: Seq<char>,
    sect2: Seq<char>,
    sect3: Seq<char>,
)
    ensures
        ({
            let body = page_body(heading, intro, sect1, sect2, sect3);
            let document = document_html(body);
            let at_heading = content_start();
            let at_intro = at_heading + heading.len();
            let at_sect1 = at_intro + intro.len() + SPACER@.len();
            let at_sect2 = at_sect1 + sect1.len() + SPACER@.len();
            let at_sect3 = at_sect2 + sect2.len() + SPACER@.len();
            &&& occurs_at(document, heading, at_heading)
            &&& occurs_at(document, intro, at_intro)
            &&& occurs_at(document, SPACER@, at_intro + intro.len())
            &&& occurs_at(document, sect1, at_sect1)
            &&& occurs_at(document, SPACER@, at_sect1 + sect1.len())
            &&& occurs_at(document, sect2, at_sect2)
            &&& occurs_at(document, SPACER@, at_sect2 + sect2.len())
            &&& occurs_at(document, sect3, at_sect3)
            &&& at_sect3 + sect3.len() == content_start() + body.len()
        }),
{
    let body = page_body(heading, intro, sect1, sect2, sect3);
    let document = document_html(body);
    lemma_document_layout(body);
    let at_heading = content_start();
    let at_intro = at_heading + heading.len();
    let at_spacer1 = at_intro + intro.len();
    let at_sect1 = at_spacer1 + SPACER@.len();
    let at_spacer2 = at_sect1 + sect1.len();
    let at_sect2 = at_spacer2 + SPACER@.len();
    let at_spacer3 = at_sect2 + sect2.len();
    let at_sect3 = at_spacer3 + SPACER@.len();
    assert(document.subrange(at_heading, at_heading + heading.len()) =~= heading);
    assert(document.subrange(at_intro, at_intro + intro.len()) =~= intro);
    assert(document.subrange(at_spacer1, at_spacer1 + SPACER@.len()) =~= SPACER@);
    assert(document.subrange(at_sect1, at_sect1 + sect1.len()) =~= sect1);
    assert(document.subrange(at_spacer2, at_spacer2 + SPACER@.len()) =~= SPACER@);
    assert(document.subrange(at_sect2, at_sect2 + sect2.len()) =~= sect2);
    assert(document.subrange(at_spacer3, at_spacer3 + SPACER@.len()) =~= SPACER@);
    assert(document.subrange(at_sect3, at_sect3 + sect3.len()) =~= sect3);
}

/// Composition order of the index page: heading, introduction, "About",
/// "Downloads" and "About Me" stand at ascending offsets, none starting
/// before the one declared before it has ended.
pub proof fn lemma_index_composition_order()
    ensures
        ({
            let at_heading = content_start();
            let at_intro = at_heading + heading_html().len();
            let at_about = at_intro + intro_html().len() + SPACER@.len();
            let at_downloads = at_about + sect1_html().len() + SPACER@.len();
            let at_about_me = at_downloads + sect2_html().len() + SPACER@.len();
            &&& occurs_at(index_html(), heading_html(), at_heading)
            &&& occurs_at(index_html(), intro_html(), at_intro)
            &&& occurs_at(index_html(), sect1_html(), at_about)
            &&& occurs_at(index_html(), sect2_html(), at_downloads)
            &&& occurs_at(index_html(), about_html(), at_about_me)
            &&& at_heading <= at_intro < at_about < at_downloads < at_about_me
        }),
{
    reveal_strlit("<br><br>");
    assert(SPACER@.len() == 8);
    lemma_page_composition_order(
        heading_html(),
        intro_html(),
        sect1_html(),
        sect2_html(),
        about_html(),
    );
}

/// Determinism of the index page: whatever two calls of [`index`] return, and
/// whatever rendering the two nodes returns, the two texts are the same.
pub proof fn lemma_index_deterministic(
    first: Markup,
    first_text: Seq<char>,
    second: Markup,
    second_text: Seq<char>,
)
    requires
        first@.html() == index_html(),
        first_text == first@.html(),
        second@.html() == index_html(),
        second_text == second@.html(),
    ensures
        first_text == second_text,
{
}

} // verus!
