use brainmade::sections::{
    about, footer, heading, intro, sect1, sect2, widget, ABOUT, ABOUT_ME, DOWNLOADS, FOOTER,
    HEADING, INTRO_CLOSING, INTRO_OPENING, WIDGET,
};

#[test]
fn widget_is_the_video_preview_image() {
    assert_eq!(widget().render(), "<img class=\"w-1/2\" src=\"video.png\">");
    assert_eq!(widget().render(), WIDGET);
}

#[test]
fn footer_is_four_breaks_and_the_production_line() {
    assert_eq!(
        footer().render(),
        "<br><br><br><br><p class=\"text-xs\">Brainmade is a NAMTAO production, made with <3 in 2024</p>"
    );
    assert_eq!(footer().render(), FOOTER);
}

#[test]
fn footer_heart_is_not_escaped() {
    assert!(footer().render().contains("made with <3 in 2024"));
    assert!(!footer().render().contains("&lt;3"));
}

#[test]
fn heading_holds_the_logo_and_the_slogan() {
    let html = heading().render();
    assert_eq!(html, HEADING);
    assert!(html.starts_with("<div class=\"flex w-full justify-center\"><img class=\"w-1/2\" alt=\"A logo of a human"));
    assert!(html.contains("with the word 'Brainmade' next to it"));
    assert!(html.contains(" src=\"white-logo.svg\"></div><br><br><h2 class=\"slogan\"><b class=\"text-2xl\">When you see this logo"));
    assert!(html.ends_with("made by a human just like you.</b></h2><br><br>"));
}

#[test]
fn intro_embeds_the_widget_inside_its_last_link() {
    let html = intro().render();
    assert_eq!(html, format!("{}{}{}", INTRO_OPENING, WIDGET, INTRO_CLOSING));
    assert!(html.starts_with("The <i>Brainmade</i> mark is something you can attach"));
    assert!(html.ends_with(
        "<b><a class=\"underline\" href=\"https://youtu.be/kul0z3OTmVM\">Watch my short video here, or read on.<img class=\"w-1/2\" src=\"video.png\"></a></b>"
    ));
}

#[test]
fn intro_lists_both_statements() {
    let html = intro().render();
    assert!(html.contains("<ul class=\"list-decimal\"><li><b>I don't hate AIs,</b></li><li><b>I love humans!</b></li></ul>"));
    assert!(html.contains("<a class=\"underline\" href=\"#downloads\">high-resolution black or white versions</a> of the logo"));
}

#[test]
fn sect1_is_the_about_section() {
    let html = sect1().render();
    assert_eq!(html, ABOUT);
    assert!(html.starts_with("<h1 class=\"text-4xl\" id=\"about\"><b>About</b></h1><br>I don't need 100% human made"));
    assert!(html.contains("what 'too much AI' is"));
    assert!(html.ends_with("I <i>like</i> that you tried hard, that's part of the experience."));
    assert_eq!(html.matches("<li>").count(), 3);
}

#[test]
fn sect2_links_the_six_downloads() {
    let html = sect2().render();
    assert_eq!(html, DOWNLOADS);
    assert!(html.starts_with("<h2 id=\"downloads\" class=\"text-4xl\"><b>Downloads</b></h2><br><h3 class=\"text-l\"><b>White</b></h3>"));
    for file in [
        "white-logo.png",
        "white-logo.svg",
        "black-logo.png",
        "black-logo.svg",
        "88x31-light.png",
        "88x31-dark.png",
    ] {
        let link = format!(
            "<li><a href=\"{}\" class=\"underline block lg:inline-block lg:mt-0 text-black-200 hover:text-white mr-4\">{}</a></li>",
            file, file
        );
        assert_eq!(html.matches(link.as_str()).count(), 1);
    }
    assert!(html.contains("<h3 class=\"text-l\"><b>88x31 Buttons</b></h3>"));
    assert!(html.ends_with("</li></ul>"));
}

#[test]
fn about_is_the_about_me_section() {
    let html = about().render();
    assert_eq!(html, ABOUT_ME);
    assert!(html.starts_with("<h2 id=\"about\" class=\"text-4xl\"><b>About Me</b></h2><br>I'm Tris"));
    assert!(html.contains("<a class=\"underline\" href=\"http://noboilerplate.org\">fast, technical videos</a>, and <a class=\"underline\" href=\"https://namtao.com\">audiofiction and music.</a>"));
    assert!(html.contains("'NO AI USED'"));
    assert!(html.ends_with("they are negative. `AI = bad`.\n        But I think the correct way to present this is `human = good`.<br>"));
}

#[test]
fn builders_give_the_same_text_on_every_call() {
    assert_eq!(widget().render(), widget().render());
    assert_eq!(heading().render(), heading().render());
    assert_eq!(intro().render(), intro().render());
    assert_eq!(sect1().render(), sect1().render());
    assert_eq!(sect2().render(), sect2().render());
    assert_eq!(about().render(), about().render());
    assert_eq!(footer().render(), footer().render());
}

#[test]
fn section_lengths_are_fixed() {
    assert_eq!(widget().render().len(), 35);
    assert_eq!(footer().render().len(), 93);
    assert_eq!(INTRO_CLOSING.len(), 8);
}
