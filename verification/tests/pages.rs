use brainmade::markup::Markup;
use brainmade::pages::{credits_page, index, page, CREDITS, SPACER};
use brainmade::sections::{about, footer, heading, intro, sect1, sect2};
use brainmade::shell::{
    template, CONTAINER_CLOSE, CONTAINER_OPEN, DOCUMENT_CLOSE, DOCUMENT_HEAD, NAVIGATION,
};

fn shell_prefix() -> String {
    format!("{}{}{}", DOCUMENT_HEAD, NAVIGATION, CONTAINER_OPEN)
}

fn shell_suffix() -> String {
    format!("{}{}{}", CONTAINER_CLOSE, footer().render(), DOCUMENT_CLOSE)
}

#[test]
fn template_wraps_the_content_in_the_shell() {
    let html = template(Markup::text("<p>inner</p>")).render();
    assert_eq!(html, format!("{}<p>inner</p>{}", shell_prefix(), shell_suffix()));
}

#[test]
fn template_of_nothing_is_the_bare_shell() {
    let html = template(Markup::empty()).render();
    assert_eq!(html, format!("{}{}", shell_prefix(), shell_suffix()));
    assert!(html.contains("<div class=\"border-black border-8 container mx-auto\"></div><br><br><br><br><p class=\"text-xs\">"));
}

#[test]
fn document_starts_with_the_doctype_and_ends_with_the_footer() {
    let html = template(Markup::text("x")).render();
    assert!(html.starts_with("<!DOCTYPE html><html lang=\"en\"><head><meta http-equiv=\"x-clacks-overhead\" content=\"GNU Terry Pratchett\">"));
    assert!(html.ends_with(
        "x</div><br><br><br><br><p class=\"text-xs\">Brainmade is a NAMTAO production, made with <3 in 2024</p></body></html>"
    ));
}

#[test]
fn head_holds_the_fixed_metadata() {
    assert!(DOCUMENT_HEAD.starts_with("<!DOCTYPE html><html lang=\"en\"><head>"));
    assert!(DOCUMENT_HEAD.ends_with("<title class=\"text-4xl\">The Brainmade Mark</title></head>"));
    assert!(DOCUMENT_HEAD.contains("<meta charset=\"utf-8\">"));
    assert!(DOCUMENT_HEAD.contains("<meta content=\"width=device-width, initial-scale=1\" name=\"viewport\">"));
    assert!(DOCUMENT_HEAD.contains("<meta name=\"description\" content=\"When you see this logo on any artwork,"));
    assert!(DOCUMENT_HEAD.contains("<link href=\"black-favicon.png\" rel=\"icon\" media=\"(prefers-color-scheme: light)\">"));
    assert!(DOCUMENT_HEAD.contains("<link href=\"white-favicon.png\" rel=\"icon\" media=\"(prefers-color-scheme: dark)\">"));
    assert!(DOCUMENT_HEAD.contains("<script src=\"https://cdn.tailwindcss.com\"></script><script src=\"tw.js\"></script>"));
}

#[test]
fn framework_configuration_is_inline_and_unescaped() {
    assert!(DOCUMENT_HEAD.contains(
        "<script> tailwind.config = {\n                    theme: {\n                        container: {\n                            center: true,\n                        },\n                        fontFamily: {\n                            \"mono\": \"courier, monospace\",\n                        }\n                    }\n                }</script>"
    ));
    assert!(!DOCUMENT_HEAD.contains("&quot;"));
}

#[test]
fn navigation_links_sections_repository_and_credits() {
    assert!(NAVIGATION.starts_with("<body class=\"bg-black text-white font-mono text-sm md:text-2xl mx-auto w-full max-w-5xl\"><nav "));
    assert!(NAVIGATION.ends_with("</div></div></nav>"));
    assert!(NAVIGATION.contains("<span class=\"font-semibold text-xl tracking-tight\">The Brainmade Mark</span>"));
    let class = "underline block lg:inline-block lg:mt-0 text-black-200 hover:text-white mr-4";
    let mut last = 0;
    for (href, label) in [
        ("index.html#about", "About"),
        ("index.html#downloads", "Downloads"),
        ("https://github.com/0atman/Brainmade-org", "Github"),
        ("credits.html", "Credits"),
    ] {
        let link = format!("<a href=\"{}\" class=\"{}\">{}</a>", href, class, label);
        let at = NAVIGATION.find(link.as_str()).unwrap();
        assert!(at > last);
        last = at;
    }
}

#[test]
fn shell_is_the_same_around_any_two_pages() {
    let first = index().render();
    let second = credits_page().render();
    let third = template(Markup::text("anything else")).render();
    let prefix = shell_prefix();
    let suffix = shell_suffix();
    for html in [&first, &second, &third] {
        assert_eq!(&html[..prefix.len()], prefix.as_str());
        assert_eq!(&html[html.len() - suffix.len()..], suffix.as_str());
    }
    assert_ne!(first, second);
}

#[test]
fn head_block_is_the_same_in_both_pages() {
    let first = index().render();
    let second = credits_page().render();
    let first_head = &first[first.find("<head>").unwrap()..first.find("</head>").unwrap()];
    let second_head = &second[second.find("<head>").unwrap()..second.find("</head>").unwrap()];
    assert_eq!(first_head, second_head);
    let first_nav = &first[first.find("<nav ").unwrap()..first.find("</nav>").unwrap()];
    let second_nav = &second[second.find("<nav ").unwrap()..second.find("</nav>").unwrap()];
    assert_eq!(first_nav, second_nav);
}

#[test]
fn page_composes_five_regions_with_spacers() {
    let html = page(
        Markup::text("H"),
        Markup::text("I"),
        Markup::text("1"),
        Markup::text("2"),
        Markup::text("3"),
    )
    .render();
    assert_eq!(html, format!("{}HI<br><br>1<br><br>2<br><br>3{}", shell_prefix(), shell_suffix()));
    assert_eq!(SPACER, "<br><br>");
}

#[test]
fn index_is_the_five_regions_in_the_shell() {
    let expected = format!(
        "{}{}{}<br><br>{}<br><br>{}<br><br>{}{}",
        shell_prefix(),
        heading().render(),
        intro().render(),
        sect1().render(),
        sect2().render(),
        about().render(),
        shell_suffix()
    );
    assert_eq!(index().render(), expected);
}

#[test]
fn index_regions_stand_in_ascending_order() {
    let html = index().render();
    let markers = [
        "<div class=\"flex w-full justify-center\">",
        "The <i>Brainmade</i> mark is something",
        "<h1 class=\"text-4xl\" id=\"about\"><b>About</b></h1>",
        "<h2 id=\"downloads\" class=\"text-4xl\"><b>Downloads</b></h2>",
        "<h2 id=\"about\" class=\"text-4xl\"><b>About Me</b></h2>",
    ];
    let mut previous = 0;
    for marker in markers {
        assert_eq!(html.matches(marker).count(), 1);
        let at = html.find(marker).unwrap();
        assert!(at > previous);
        previous = at;
    }
    assert!(previous < html.find("<p class=\"text-xs\">").unwrap());
}

#[test]
fn index_regions_start_where_the_lengths_say() {
    let html = index().render();
    let at_heading = shell_prefix().len();
    let at_intro = at_heading + heading().render().len();
    let at_about = at_intro + intro().render().len() + SPACER.len();
    let at_downloads = at_about + sect1().render().len() + SPACER.len();
    let at_about_me = at_downloads + sect2().render().len() + SPACER.len();
    assert!(html[at_heading..].starts_with(heading().render().as_str()));
    assert!(html[at_intro..].starts_with(intro().render().as_str()));
    assert!(html[at_about..].starts_with(sect1().render().as_str()));
    assert!(html[at_downloads..].starts_with(sect2().render().as_str()));
    assert!(html[at_about_me..].starts_with(about().render().as_str()));
    assert_eq!(at_about_me + about().render().len() + shell_suffix().len(), html.len());
}

#[test]
fn index_rendered_twice_is_byte_identical() {
    let first = index().render();
    let second = index().render();
    assert_eq!(first.as_bytes(), second.as_bytes());
    let page = index();
    assert_eq!(page.render(), page.render());
    assert_eq!(page.render(), first);
}

#[test]
fn index_has_the_title_and_the_doctype() {
    let html = index().render();
    assert!(html.starts_with("<!DOCTYPE html>"));
    assert!(html.contains("<title class=\"text-4xl\">The Brainmade Mark</title>"));
    assert!(html.ends_with("</body></html>"));
}

#[test]
fn credits_page_is_heading_and_credits_in_the_shell() {
    let expected = format!("{}{}{}{}", shell_prefix(), heading().render(), CREDITS, shell_suffix());
    assert_eq!(credits_page().render(), expected);
}

#[test]
fn credits_attribute_the_artwork_with_unescaped_quotes() {
    let html = credits_page().render();
    assert!(html.contains(
        "<h2 class=\"text-3xl\">Credits</h2><ul><li>Logo based on \"Human\" by JunGSa from <a class=\"underline\" href=\"https://thenounproject.com/browse/icons/term/human/\">Noun Project</a></li>"
    ));
    assert!(html.contains(
        "<li>And \"seed\" by Adrian Syauqi from <a class=\"underline\" href=\"https://thenounproject.com/browse/icons/term/seed/\">Noun Project</a></li></ul><br>Special thanks to everyone"
    ));
    assert!(html.contains("Andrew, I should be paying YOU!</div>"));
    assert!(!html.contains("&quot;"));
}

#[test]
fn credits_page_rendered_twice_is_byte_identical() {
    assert_eq!(credits_page().render(), credits_page().render());
}

#[test]
fn pages_are_plain_ascii_of_fixed_length() {
    let index_html = index().render();
    let credits_html = credits_page().render();
    assert!(index_html.is_ascii());
    assert!(credits_html.is_ascii());
    assert_eq!(
        index_html.len(),
        shell_prefix().len()
            + heading().render().len()
            + intro().render().len()
            + sect1().render().len()
            + sect2().render().len()
            + about().render().len()
            + 3 * 8
            + shell_suffix().len()
    );
}
