//! A button of the control page. Pressing it sends its name over the
//! websocket.

use vstd::prelude::*;
use crate::markup::{escape_html, html_escape};

verus! {

/// A button, drawn with one Font Awesome icon, or with two where it toggles
/// (play/pause), and twice as wide where it is `double`.
pub struct Button {
    name: &'static str,
    icon: &'static str,
    icon2: Option<&'static str>,
    double: bool,
}

/// What a button is: its name, its icons and its width.
pub struct ButtonView {
    pub name: Seq<char>,
    pub icon: Seq<char>,
    pub icon2: Option<Seq<char>>,
    pub double: bool,
}

impl View for Button {
    type V = ButtonView;

    closed spec fn view(&self) -> ButtonView {
        ButtonView {
            name: self.name@,
            icon: self.icon@,
            icon2: match self.icon2 {
                Some(i) => Some(i@),
                None => None,
            },
            double: self.double,
        }
    }
}

/// The markup of one icon.
pub open spec fn icon_markup(icon: Seq<char>) -> Seq<char> {
    "<i class=\"fas fa-"@ + html_escape(icon) + "\"></i>"@
}

/// The markup inside a button: its icon, then its second icon if it has one.
pub open spec fn button_inner_markup(b: ButtonView) -> Seq<char> {
    match b.icon2 {
        Some(icon2) => icon_markup(b.icon) + icon_markup(icon2),
        None => icon_markup(b.icon),
    }
}

/// The markup of a button.
pub open spec fn button_markup(b: ButtonView) -> Seq<char> {
    (if b.double {
        "<button class=\"double\" ws-send name=\""@
    } else {
        "<button ws-send name=\""@
    }) + html_escape(b.name) + "\">"@ + button_inner_markup(b) + "</button>"@
}

/// The button `name` with the icon `icon`: one icon, normal width.
pub open spec fn plain_button(name: Seq<char>, icon: Seq<char>) -> ButtonView {
    ButtonView { name, icon, icon2: None, double: false }
}

fn icon_html(icon: &str) -> (html: String)
    ensures
        html@ == icon_markup(icon@),
{
    let mut html = String::new();
    html.append("<i class=\"fas fa-");
    let escaped = escape_html(icon);
    html.append(escaped.as_str());
    html.append("\"></i>");
    html
}

impl Button {
    /// A button named `name` with the icon `icon`, one icon and normal width.
    pub fn new(name: &'static str, icon: &'static str) -> (button: Button)
        ensures
            button@ == plain_button(name@, icon@),
    {
        Button { name, icon, icon2: None, double: false }
    }

    /// Makes the button twice as wide; nothing else changes.
    pub fn double(&mut self) -> (this: &mut Self)
        ensures
            this@ == (ButtonView { double: true, ..old(self)@ }),
            final(self)@ == final(this)@,
    {
        self.double = true;
        self
    }

    /// Gives the button a second icon, `icon2`; nothing else changes.
    pub fn icon2(&mut self, icon2: &'static str) -> (this: &mut Self)
        ensures
            this@ == (ButtonView { icon2: Some(icon2@), ..old(self)@ }),
            final(self)@ == final(this)@,
    {
        self.icon2 = Some(icon2);
        self
    }

    fn inner(&self) -> (html: String)
        ensures
            html@ == button_inner_markup(self@),
    {
        let mut html = icon_html(self.icon);
        match self.icon2 {
            Some(icon2) => {
                let second = icon_html(icon2);
                html.append(second.as_str());
            },
            None => {},
        }
        html
    }

    /// The markup of the button.
    pub fn render(&self) -> (html: String)
        ensures
            html@ == button_markup(self@),
    {
        let mut html = String::new();
        if self.double {
            html.append("<button class=\"double\" ws-send name=\"");
        } else {
            html.append("<button ws-send name=\"");
        }
        let name = escape_html(self.name);
        html.append(name.as_str());
        html.append("\">");
        let inner = self.inner();
        html.append(inner.as_str());
        html.append("</button>");
        html
    }
}

/// A button shows as a `button` element that sends its name, escaped, over
/// the websocket, with the class `double` exactly where it is wide, holding
/// its icon and then its second icon where it has one.
pub proof fn lemma_button_shows_name_and_icons(b: ButtonView)
    ensures
        button_markup(b) == (if b.double {
            "<button class=\"double\" ws-send name=\""@
        } else {
            "<button ws-send name=\""@
        }) + html_escape(b.name) + "\">"@ + "<i class=\"fas fa-"@ + html_escape(b.icon)
            + "\"></i>"@ + match b.icon2 {
            Some(i) => "<i class=\"fas fa-"@ + html_escape(i) + "\"></i>"@,
            None => Seq::empty(),
        } + "</button>"@,
{
    let open = if b.double {
        "<button class=\"double\" ws-send name=\""@
    } else {
        "<button ws-send name=\""@
    };
    let first = icon_markup(b.icon);
    let second = match b.icon2 {
        Some(i) => icon_markup(i),
        None => Seq::empty(),
    };
    assert(button_inner_markup(b) =~= first + second);
    assert(button_markup(b) =~= open + html_escape(b.name) + "\">"@ + first + second
        + "</button>"@);
}

} // verus!
