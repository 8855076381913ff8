//! The named regions of a page.
//!
//! Every builder returns fixed, hand-authored content and takes no input, so
//! two calls give nodes that emit the same text. A builder never refers to the
//! page shell.

use crate::markup::Markup;
use vstd::prelude::*;

verus! {

/// The preview image of the video.
pub const WIDGET: &'static str = "<img class=\"w-1/2\" src=\"video.png\">";

/// The banner: the logo, then the slogan.
pub const HEADING: &'static str =
    "<div class=\"flex w-full justify-center\"><img class=\"w-1/2\" alt=\"A logo of a human with a \
    seed germinating in their head, with the word 'Brainmade' next to it, along with the website \
    brainmade.org underneath.\" src=\"white-logo.svg\"></div><br><br><h2 class=\"slogan\"><b \
    class=\"text-2xl\">When you see this logo on any artwork, whether painting, poetry, or prose, \
    you know that it was made by a human just like you.</b></h2><br><br>";

/// The introduction, up to the point where the video preview is embedded.
pub const INTRO_OPENING: &'static str =
    "The <i>Brainmade</i> mark is something you can attach to any works that are mostly made by you \
    or your friends, not by generative tools like GPT. I've built this website to freely share the \
    <a class=\"underline\" href=\"#downloads\">high-resolution black or white versions</a> of the \
    logo with you, which you can download and attach to your own projects if you'd like to make \
    this statement.<br>I hope the following video will explain in detail for making this clear, but \
    the tl;dr is:<br><br><ul class=\"list-decimal\"><li><b>I don't hate AIs,</b></li><li><b>I love \
    humans!</b></li></ul><br><br><b><a class=\"underline\" href=\"https://youtu.be/kul0z3OTmVM\">\
    Watch my short video here, or read on.";

/// What closes the introduction after the video preview.
pub const INTRO_CLOSING: &'static str = "</a></b>";

/// The "About" section.
pub const ABOUT: &'static str =
    "<h1 class=\"text-4xl\" id=\"about\"><b>About</b></h1><br>I don't need 100% human made, I \
    perhaps need 90% human made. Three example may make my thinking clearer:<ul \
    class=\"list-decimal\"><li>Using, say, chatgpt as a rhyming dictionary feels fine, but writing \
    whole verses of your poem doesn't.</li><li>Using DALL-E to start brainstorming with 100 \
    generated views of birds sitting on telephone lines seems fine, but getting it to paint large \
    sections of your artwork doesn't.</li><li>Asking a text generator to give you 10 happy-sounding \
    synonyms for despair sparks joy in me, but asking it to write your anti-trancendentalist \
    masterpiece does not.</li></ul><br>Using these tools to make more of the artwork you want is \
    valid, but you're not a creator, you're still a consumer. I'm not sure exactly what 'too much \
    AI' is, but just like your audience, I'll know it when I see it.<br><br>I love knowing a human \
    made the artwork I'm consuming.<br>There's <i>something</i> there, something transcendent and \
    magical.<br><br>I <i>like</i> that you tried hard, that's part of the experience.";

/// The "Downloads" section: the links to the logo files.
pub const DOWNLOADS: &'static str =
    "<h2 id=\"downloads\" class=\"text-4xl\"><b>Downloads</b></h2><br><h3 class=\"text-l\"><b>\
    White</b></h3><ul class=\"list-disc\"><li><a href=\"white-logo.png\" class=\"underline block \
    lg:inline-block lg:mt-0 text-black-200 hover:text-white mr-4\">white-logo.png</a></li><li><a \
    href=\"white-logo.svg\" class=\"underline block lg:inline-block lg:mt-0 text-black-200 \
    hover:text-white mr-4\">white-logo.svg</a></li></ul><h3 class=\"text-l\"><b>Black</b></h3><ul \
    class=\"list-disc\"><li><a href=\"black-logo.png\" class=\"underline block lg:inline-block \
    lg:mt-0 text-black-200 hover:text-white mr-4\">black-logo.png</a></li><li><a \
    href=\"black-logo.svg\" class=\"underline block lg:inline-block lg:mt-0 text-black-200 \
    hover:text-white mr-4\">black-logo.svg</a></li></ul><h3 class=\"text-l\"><b>88x31 Buttons</b>\
    </h3><ul class=\"list-disc\"><li><a href=\"88x31-light.png\" class=\"underline block \
    lg:inline-block lg:mt-0 text-black-200 hover:text-white mr-4\">88x31-light.png</a></li><li><a \
    href=\"88x31-dark.png\" class=\"underline block lg:inline-block lg:mt-0 text-black-200 \
    hover:text-white mr-4\">88x31-dark.png</a></li></ul>";

/// The "About Me" section.
pub const ABOUT_ME: &'static str =
    "<h2 id=\"about\" class=\"text-4xl\"><b>About Me</b></h2><br>I'm Tris, I'm a writer and producer \
    of <a class=\"underline\" href=\"http://noboilerplate.org\">fast, technical videos</a>, and <a \
    class=\"underline\" href=\"https://namtao.com\">audiofiction and music.</a><br>My first career \
    was as a web developer, doing production on the side for 15 years, but in 2022 I accidentally \
    become entirely self-employed thanks to the surprising success of my YouTube channel, No \
    Boilerplate.<br><br>At heart I'm still a software developer, I'll re-use 100 libraries to avoid \
    writing 10 lines of code - standing on the shoulders of giants is the only way I know how I get \
    around.<br>But I've looked for a way to mark my videos and stories as being made by humans, not \
    AI, and I can't find one that works in exactly the way I want.<br>I don't want something that \
    says 'NO AI USED', signposts that are negative and judgemental, nor a '100% human made' \
    guarantee - what would that even MEAN these days?<br>I want a positive mark.<br><br>I have many \
    issues with the options I've seen so far, from having multiple logos (which is confusing) to \
    the fixation on AI being inherently evil (this will not always be the case).<br>My root concern \
    with these methods is that they are negative. `AI = bad`.\n        But I think the correct way \
    to present this is `human = good`.<br>";

/// The footer line, below four line breaks.
pub const FOOTER: &'static str =
    "<br><br><br><br><p class=\"text-xs\">Brainmade is a NAMTAO production, made with <3 in 2024</p>";

/// The text of the video preview.
pub open spec fn widget_html() -> Seq<char> {
    WIDGET@
}

/// The video preview that the introduction links.
pub fn widget() -> (node: Markup)
    ensures
        node@.html() == widget_html(),
{
    Markup::text(WIDGET)
}

/// The text of the heading banner.
pub open spec fn heading_html() -> Seq<char> {
    HEADING@
}

/// The heading banner.
pub fn heading() -> (node: Markup)
    ensures
        node@.html() == heading_html(),
{
    Markup::text(HEADING)
}

/// The text of the introduction, with the video preview inside its last link.
pub open spec fn intro_html() -> Seq<char> {
    INTRO_OPENING@ + widget_html() + INTRO_CLOSING@
}

/// The introductory prose, which ends in a link around the video preview.
pub fn intro() -> (node: Markup)
    ensures
        node@.html() == intro_html(),
{
    Markup::text(INTRO_OPENING).followed_by(widget()).followed_by(Markup::text(INTRO_CLOSING))
}

/// The text of the "About" section.
pub open spec fn sect1_html() -> Seq<char> {
    ABOUT@
}

/// The "About" section.
pub fn sect1() -> (node: Markup)
    ensures
        node@.html() == sect1_html(),
{
    Markup::text(ABOUT)
}

/// The text of the "Downloads" section.
pub open spec fn sect2_html() -> Seq<char> {
    DOWNLOADS@
}

/// The "Downloads" section.
pub fn sect2() -> (node: Markup)
    ensures
        node@.html() == sect2_html(),
{
    Markup::text(DOWNLOADS)
}

/// The text of the "About Me" section.
pub open spec fn about_html() -> Seq<char> {
    ABOUT_ME@
}

/// The "About Me" section.
pub fn about() -> (node: Markup)
    ensures
        node@.html() == about_html(),
{
    Markup::text(ABOUT_ME)
}

/// The text of the footer.
pub open spec fn footer_html() -> Seq<char> {
    FOOTER@
}

/// The footer shared by every page.
pub fn footer() -> (node: Markup)
    ensures
        node@.html() == footer_html(),
{
    Markup::text(FOOTER)
}

} // verus!
