//! The head of the control page: its metadata, stylesheets and scripts.

use vstd::prelude::*;
use crate::markup::{escape_html, html_escape};

verus! {

/// The Font Awesome stylesheet, which draws the icons of the buttons.
pub const FONT_AWESOME_CSS: &'static str = "https://cdnjs.cloudflare.com/ajax/libs/font-awesome/6.7.2/css/all.min.css";

/// The page's own stylesheet.
pub const MAIN_CSS: &'static str = "/main.css";

/// htmx, which sends the controls over the websocket.
pub const HTMX_JS: &'static str = "https://cdnjs.cloudflare.com/ajax/libs/htmx/2.0.4/htmx.min.js";

/// htmx's websocket extension.
pub const HTMX_WS_JS: &'static str = "https://unpkg.com/htmx-ext-ws@2.0.2/ws.js";

/// The page's own script.
pub const MAIN_JS: &'static str = "/main.js";

/// A stylesheet link.
struct Css(&'static str);

/// A script loaded from a URL.
struct Script(&'static str);

/// The head of the control page.
pub struct Head;

/// The markup of a stylesheet link to `href`.
pub open spec fn css_markup(href: Seq<char>) -> Seq<char> {
    "<link rel=\"stylesheet\" type=\"text/css\" href=\""@ + html_escape(href) + "\">"@
}

/// The markup of a script loaded from `src`.
pub open spec fn script_markup(src: Seq<char>) -> Seq<char> {
    "<script src=\""@ + html_escape(src) + "\"></script>"@
}

/// The metadata and the title of the page.
pub open spec fn head_meta_markup() -> Seq<char> {
    "<head><meta charset=\"utf-8\"><meta http-equiv=\"X-UA-Compatible\" content=\"IE=edge\"><meta name=\"viewport\" content=\"width=device-width, initial-scale=1.0\"><title>Remote</title>"@
}

/// The markup of the head: metadata and title, the two stylesheets, the
/// three scripts.
pub open spec fn head_markup() -> Seq<char> {
    head_meta_markup() + css_markup(FONT_AWESOME_CSS@) + css_markup(MAIN_CSS@) + script_markup(
        HTMX_JS@,
    ) + script_markup(HTMX_WS_JS@) + script_markup(MAIN_JS@) + "</head>"@
}

impl Css {
    fn render(&self) -> (html: String)
        ensures
            html@ == css_markup(self.0@),
    {
        let mut html = String::new();
        html.append("<link rel=\"stylesheet\" type=\"text/css\" href=\"");
        let href = escape_html(self.0);
        html.append(href.as_str());
        html.append("\">");
        html
    }
}

impl Script {
    fn render(&self) -> (html: String)
        ensures
            html@ == script_markup(self.0@),
    {
        let mut html = String::new();
        html.append("<script src=\"");
        let src = escape_html(self.0);
        html.append(src.as_str());
        html.append("\"></script>");
        html
    }
}

impl Head {
    /// The markup of the head.
    pub fn render(&self) -> (html: String)
        ensures
            html@ == head_markup(),
    {
        let mut html = String::new();
        html.append(
            "<head><meta charset=\"utf-8\"><meta http-equiv=\"X-UA-Compatible\" content=\"IE=edge\"><meta name=\"viewport\" content=\"width=device-width, initial-scale=1.0\"><title>Remote</title>",
        );
        let part = Css(FONT_AWESOME_CSS).render();
        html.append(part.as_str());
        let part = Css(MAIN_CSS).render();
        html.append(part.as_str());
        let part = Script(HTMX_JS).render();
        html.append(part.as_str());
        let part = Script(HTMX_WS_JS).render();
        html.append(part.as_str());
        let part = Script(MAIN_JS).render();
        html.append(part.as_str());
        html.append("</head>");
        html
    }
}

} // verus!
