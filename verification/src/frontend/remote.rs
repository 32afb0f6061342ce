//! The control page: the media info panel, the buttons, the volume slider.

use vstd::prelude::*;
use crate::frontend::button::{button_markup, plain_button, Button, ButtonView};
use crate::frontend::head::{head_markup, Head};
use crate::markup::{decimal, render_u32};
use crate::mediainfo::{media_info_markup, MediaInfo, MediaInfoView};
use crate::message::{fields_of, requested_action, ActionView, MemberView};

verus! {

/// The control page. `music` picks the media-player buttons over the
/// video-player ones; `media` shows the media info panel, filled from
/// `mediainfo` where it is given.
pub struct Remote {
    /// The volume, in percent, that the slider starts at.
    pub volume: u32,
    pub music: bool,
    pub media: bool,
    pub mediainfo: Option<MediaInfo>,
}

/// maud's `DOCTYPE`: the literal `<!DOCTYPE html>`.
#[verifier::external_body]
fn doctype() -> (doctype: &'static str)
    ensures
        doctype@ == "<!DOCTYPE html>"@,
{
    maud::DOCTYPE.0
}

/// The buttons of the page above the volume slider: play/pause, stop,
/// previous and next for music; a wide pause and the two arrows otherwise.
pub open spec fn remote_buttons(music: bool) -> Seq<ButtonView> {
    if music {
        seq![
            ButtonView { name: "playpause"@, icon: "play"@, icon2: Some("pause"@), double: false },
            plain_button("stop"@, "stop"@),
            plain_button("prev"@, "backward"@),
            plain_button("next"@, "forward"@),
        ]
    } else {
        seq![
            ButtonView { name: "pause"@, icon: "minus"@, icon2: None, double: true },
            plain_button("left"@, "arrow-left"@),
            plain_button("right"@, "arrow-right"@),
        ]
    }
}

/// The buttons of the page below the volume slider: mute and unmute.
pub open spec fn volume_buttons() -> Seq<ButtonView> {
    seq![plain_button("mute"@, "volume-mute"@), plain_button("unmute"@, "volume-high"@)]
}

/// The markup of buttons, one after the other.
pub open spec fn buttons_markup(buttons: Seq<ButtonView>) -> Seq<char>
    decreases buttons.len(),
{
    if buttons.len() == 0 {
        Seq::empty()
    } else {
        buttons_markup(buttons.drop_last()) + button_markup(buttons.last())
    }
}

/// The media info panel: nothing where the page shows none, else a wide box
/// with the media info in it where there is one.
pub open spec fn media_panel_markup(media: bool, info: Option<MediaInfoView>) -> Seq<char> {
    if media {
        "<div class=\"double info\" id=\"mediainfo\">"@ + match info {
            Some(i) => media_info_markup(i),
            None => Seq::empty(),
        } + "</div>"@
    } else {
        Seq::empty()
    }
}

/// The volume slider, from 0 to 100, starting at `volume`, with the volume
/// shown beside it.
pub open spec fn volume_field_markup(volume: nat) -> Seq<char> {
    "<div id=\"vol-field\"><input id=\"vol\" type=\"range\" min=\"0\" max=\"100\" value=\""@
        + decimal(volume)
        + "\" name=\"vol\" hx-trigger=\"input\" ws-send><span id=\"volume\">"@ + decimal(volume)
        + "</span></div>"@
}

/// The markup of the page.
pub open spec fn remote_markup(
    volume: nat,
    music: bool,
    media: bool,
    info: Option<MediaInfoView>,
) -> Seq<char> {
    "<!DOCTYPE html>"@ + "<html lang=\"en\">"@ + head_markup()
        + "<body><div class=\"wrapper\" hx-ext=\"ws\" ws-connect=\"/ws\">"@
        + media_panel_markup(media, info) + buttons_markup(remote_buttons(music))
        + volume_field_markup(volume) + buttons_markup(volume_buttons())
        + "</div></body></html>"@
}

/// The top of the page, before the media info panel: the doctype, the
/// head, and the opening of the body.
pub open spec fn page_top() -> Seq<char> {
    "<!DOCTYPE html>"@ + "<html lang=\"en\">"@ + head_markup()
        + "<body><div class=\"wrapper\" hx-ext=\"ws\" ws-connect=\"/ws\">"@
}

/// The media info panel is the one thing that `media` adds to the page: the
/// page with it is the page without it, with the panel put in right after
/// the top of the page; the panel holds the media info's own markup, or
/// nothing where there is no media info, whatever the buttons and the
/// volume. Without `media`, the media info does not show.
pub proof fn lemma_media_panel_placement(
    volume: nat,
    music: bool,
    info: MediaInfoView,
    other: Option<MediaInfoView>,
)
    ensures
        remote_markup(volume, music, false, None).take(page_top().len() as int) == page_top(),
        remote_markup(volume, music, true, Some(info)) == page_top()
            + "<div class=\"double info\" id=\"mediainfo\">"@ + media_info_markup(info) + "</div>"@
            + remote_markup(volume, music, false, None).skip(page_top().len() as int),
        remote_markup(volume, music, true, None) == page_top()
            + "<div class=\"double info\" id=\"mediainfo\">"@ + "</div>"@ + remote_markup(
            volume,
            music,
            false,
            None,
        ).skip(page_top().len() as int),
        remote_markup(volume, music, false, other) == remote_markup(volume, music, false, None),
{
    let top = page_top();
    let panel_open = "<div class=\"double info\" id=\"mediainfo\">"@;
    let panel_close = "</div>"@;
    let controls = buttons_markup(remote_buttons(music));
    let field = volume_field_markup(volume);
    let mutes = buttons_markup(volume_buttons());
    let end = "</div></body></html>"@;
    let rest = controls + field + mutes + end;
    lemma_append_four(top, controls, field, mutes, end);
    lemma_split(top, rest);
    let filled = panel_open + media_info_markup(info) + panel_close;
    let empty = panel_open + Seq::<char>::empty() + panel_close;
    lemma_append_four(top + filled, controls, field, mutes, end);
    lemma_append_four(top + empty, controls, field, mutes, end);
    assert(top + Seq::<char>::empty() =~= top);
    assert(top + filled =~= top + panel_open + media_info_markup(info) + panel_close);
    assert(empty =~= panel_open + panel_close);
    assert(top + empty =~= top + panel_open + panel_close);
}

/// The page without the media panel: its top, the buttons picked by
/// `music` one after the other, the volume slider starting at `volume` with
/// the same number shown beside it, then the mute and unmute buttons.
pub proof fn lemma_page_layout(volume: nat, music: bool)
    ensures
        remote_markup(volume, music, false, None) == page_top() + buttons_markup(
            remote_buttons(music),
        ) + volume_field_markup(volume) + buttons_markup(volume_buttons())
            + "</div></body></html>"@,
        volume_field_markup(volume)
            == "<div id=\"vol-field\"><input id=\"vol\" type=\"range\" min=\"0\" max=\"100\" value=\""@
            + decimal(volume) + "\" name=\"vol\" hx-trigger=\"input\" ws-send><span id=\"volume\">"@
            + decimal(volume) + "</span></div>"@,
        music ==> buttons_markup(remote_buttons(music)) == button_markup(remote_buttons(music)[0])
            + button_markup(remote_buttons(music)[1]) + button_markup(remote_buttons(music)[2])
            + button_markup(remote_buttons(music)[3]),
        !music ==> buttons_markup(remote_buttons(music)) == button_markup(remote_buttons(music)[0])
            + button_markup(remote_buttons(music)[1]) + button_markup(remote_buttons(music)[2]),
        buttons_markup(volume_buttons()) == button_markup(volume_buttons()[0]) + button_markup(
            volume_buttons()[1],
        ),
        remote_buttons(music).len() == if music { 4nat } else { 3nat },
        volume_buttons().len() == 2,
{
    let top = page_top();
    let controls = buttons_markup(remote_buttons(music));
    let field = volume_field_markup(volume);
    let mutes = buttons_markup(volume_buttons());
    let end = "</div></body></html>"@;
    lemma_append_four(top, controls, field, mutes, end);
    assert(top + Seq::<char>::empty() =~= top);
    let s = remote_buttons(music);
    if music {
        lemma_buttons_markup_push(seq![], s[0]);
        lemma_buttons_markup_push(seq![s[0]], s[1]);
        lemma_buttons_markup_push(seq![s[0], s[1]], s[2]);
        lemma_buttons_markup_push(seq![s[0], s[1], s[2]], s[3]);
        assert(seq![s[0]] =~= Seq::<ButtonView>::empty().push(s[0]));
        assert(seq![s[0], s[1]] =~= seq![s[0]].push(s[1]));
        assert(seq![s[0], s[1], s[2]] =~= seq![s[0], s[1]].push(s[2]));
        assert(s =~= seq![s[0], s[1], s[2]].push(s[3]));
        assert(Seq::<char>::empty() + button_markup(s[0]) =~= button_markup(s[0]));
    } else {
        lemma_buttons_markup_push(seq![], s[0]);
        lemma_buttons_markup_push(seq![s[0]], s[1]);
        lemma_buttons_markup_push(seq![s[0], s[1]], s[2]);
        assert(seq![s[0]] =~= Seq::<ButtonView>::empty().push(s[0]));
        assert(seq![s[0], s[1]] =~= seq![s[0]].push(s[1]));
        assert(s =~= seq![s[0], s[1]].push(s[2]));
        assert(Seq::<char>::empty() + button_markup(s[0]) =~= button_markup(s[0]));
    }
    let v = volume_buttons();
    lemma_buttons_markup_push(seq![], v[0]);
    lemma_buttons_markup_push(seq![v[0]], v[1]);
    assert(seq![v[0]] =~= Seq::<ButtonView>::empty().push(v[0]));
    assert(v =~= seq![v[0]].push(v[1]));
    assert(Seq::<char>::empty() + button_markup(v[0]) =~= button_markup(v[0]));
}

/// Text appended piece by piece is the text followed by the pieces joined.
proof fn lemma_append_four(
    text: Seq<char>,
    a: Seq<char>,
    b: Seq<char>,
    c: Seq<char>,
    d: Seq<char>,
)
    ensures
        text + a + b + c + d == text + (a + b + c + d),
{
    assert(text + a + b + c + d =~= text + (a + b + c + d));
}

/// The front of joined text is its first part, and the back its second.
proof fn lemma_split(front: Seq<char>, back: Seq<char>)
    ensures
        (front + back).take(front.len() as int) == front,
        (front + back).skip(front.len() as int) == back,
{
    assert((front + back).take(front.len() as int) =~= front);
    assert((front + back).skip(front.len() as int) =~= back);
}

/// One more button adds its markup at the end.
proof fn lemma_buttons_markup_push(buttons: Seq<ButtonView>, button: ButtonView)
    ensures
        buttons_markup(buttons.push(button)) == buttons_markup(buttons) + button_markup(button),
{
    assert(buttons.push(button).drop_last() =~= buttons);
}

/// Every control of the page sends a message that asks for what the control
/// stands for: a press of a button sends its name, a move of the slider sends
/// `vol` with the volume, and a message naming that control alone asks for
/// its action, whatever text comes with the name.
pub proof fn lemma_page_controls_are_understood(music: bool, value: Seq<char>)
    ensures
        music ==> requested_action(fields_of(map![remote_buttons(music)[0].name => MemberView::Str(value)])) == Some(
            ActionView::PlayPause,
        ),
        music ==> requested_action(fields_of(map![remote_buttons(music)[1].name => MemberView::Str(value)])) == Some(
            ActionView::Stop,
        ),
        music ==> requested_action(fields_of(map![remote_buttons(music)[2].name => MemberView::Str(value)])) == Some(
            ActionView::Prev,
        ),
        music ==> requested_action(fields_of(map![remote_buttons(music)[3].name => MemberView::Str(value)])) == Some(
            ActionView::Next,
        ),
        !music ==> requested_action(fields_of(map![remote_buttons(music)[0].name => MemberView::Str(value)])) == Some(
            ActionView::Pause,
        ),
        !music ==> requested_action(fields_of(map![remote_buttons(music)[1].name => MemberView::Str(value)])) == Some(
            ActionView::Left,
        ),
        !music ==> requested_action(fields_of(map![remote_buttons(music)[2].name => MemberView::Str(value)])) == Some(
            ActionView::Right,
        ),
        requested_action(fields_of(map![volume_buttons()[0].name => MemberView::Str(value)])) == Some(ActionView::Mute),
        requested_action(fields_of(map![volume_buttons()[1].name => MemberView::Str(value)])) == Some(ActionView::Unmute),
        requested_action(fields_of(map!["vol"@ => MemberView::Str(value)])) == Some(ActionView::Vol(value)),
{
    reveal_strlit("pause");
    reveal_strlit("right");
    reveal_strlit("left");
    reveal_strlit("mute");
    reveal_strlit("unmute");
    reveal_strlit("vol");
    reveal_strlit("playpause");
    reveal_strlit("next");
    reveal_strlit("prev");
    reveal_strlit("stop");
    assert("pause"@.len() == 5 && "right"@.len() == 5 && "left"@.len() == 4 && "mute"@.len() == 4);
    assert("unmute"@.len() == 6 && "vol"@.len() == 3 && "playpause"@.len() == 9);
    assert("next"@.len() == 4 && "prev"@.len() == 4 && "stop"@.len() == 4);
    assert("pause"@[0] != "right"@[0]);
    assert("left"@[0] != "mute"@[0] && "left"@[0] != "next"@[0] && "left"@[0] != "prev"@[0]);
    assert("left"@[0] != "stop"@[0] && "mute"@[0] != "next"@[0] && "mute"@[0] != "prev"@[0]);
    assert("mute"@[0] != "stop"@[0] && "next"@[0] != "prev"@[0] && "next"@[0] != "stop"@[0]);
    assert("prev"@[0] != "stop"@[0]);
}

fn controls_html(music: bool) -> (html: String)
    ensures
        html@ == buttons_markup(remote_buttons(music)),
{
    let mut html = String::new();
    if music {
        let mut b1 = Button::new("playpause", "play");
        b1.icon2("pause");
        let b2 = Button::new("stop", "stop");
        let b3 = Button::new("prev", "backward");
        let b4 = Button::new("next", "forward");
        let part = b1.render();
        html.append(part.as_str());
        let part = b2.render();
        html.append(part.as_str());
        let part = b3.render();
        html.append(part.as_str());
        let part = b4.render();
        html.append(part.as_str());
        proof {
            let s = remote_buttons(music);
            lemma_buttons_markup_push(seq![], s[0]);
            lemma_buttons_markup_push(seq![s[0]], s[1]);
            lemma_buttons_markup_push(seq![s[0], s[1]], s[2]);
            lemma_buttons_markup_push(seq![s[0], s[1], s[2]], s[3]);
            assert(seq![s[0]] =~= Seq::<ButtonView>::empty().push(s[0]));
            assert(seq![s[0], s[1]] =~= seq![s[0]].push(s[1]));
            assert(seq![s[0], s[1], s[2]] =~= seq![s[0], s[1]].push(s[2]));
            assert(s =~= seq![s[0], s[1], s[2]].push(s[3]));
        }
    } else {
        let mut b1 = Button::new("pause", "minus");
        b1.double();
        let b2 = Button::new("left", "arrow-left");
        let b3 = Button::new("right", "arrow-right");
        let part = b1.render();
        html.append(part.as_str());
        let part = b2.render();
        html.append(part.as_str());
        let part = b3.render();
        html.append(part.as_str());
        proof {
            let s = remote_buttons(music);
            lemma_buttons_markup_push(seq![], s[0]);
            lemma_buttons_markup_push(seq![s[0]], s[1]);
            lemma_buttons_markup_push(seq![s[0], s[1]], s[2]);
            assert(seq![s[0]] =~= Seq::<ButtonView>::empty().push(s[0]));
            assert(seq![s[0], s[1]] =~= seq![s[0]].push(s[1]));
            assert(s =~= seq![s[0], s[1]].push(s[2]));
        }
    }
    html
}

fn volume_buttons_html() -> (html: String)
    ensures
        html@ == buttons_markup(volume_buttons()),
{
    let mut html = String::new();
    let part = Button::new("mute", "volume-mute").render();
    html.append(part.as_str());
    let part = Button::new("unmute", "volume-high").render();
    html.append(part.as_str());
    proof {
        let s = volume_buttons();
        lemma_buttons_markup_push(seq![], s[0]);
        lemma_buttons_markup_push(seq![s[0]], s[1]);
        assert(seq![s[0]] =~= Seq::<ButtonView>::empty().push(s[0]));
        assert(s =~= seq![s[0]].push(s[1]));
    }
    html
}

fn volume_field_html(volume: u32) -> (html: String)
    ensures
        html@ == volume_field_markup(volume as nat),
{
    let mut html = String::new();
    html.append(
        "<div id=\"vol-field\"><input id=\"vol\" type=\"range\" min=\"0\" max=\"100\" value=\"",
    );
    let number = render_u32(volume);
    html.append(number.as_str());
    html.append("\" name=\"vol\" hx-trigger=\"input\" ws-send><span id=\"volume\">");
    html.append(number.as_str());
    html.append("</span></div>");
    html
}

impl Remote {
    /// The markup of the page.
    pub fn render(&self) -> (html: String)
        ensures
            html@ == remote_markup(
                self.volume as nat,
                self.music,
                self.media,
                match self.mediainfo {
                    Some(i) => Some(i@),
                    None => None,
                },
            ),
    {
        let mut html = String::new();
        html.append(doctype());
        html.append("<html lang=\"en\">");
        let head = Head.render();
        html.append(head.as_str());
        html.append("<body><div class=\"wrapper\" hx-ext=\"ws\" ws-connect=\"/ws\">");
        if self.media {
            html.append("<div class=\"double info\" id=\"mediainfo\">");
            match &self.mediainfo {
                Some(info) => {
                    let panel = info.render();
                    html.append(panel.as_str());
                },
                None => {},
            }
            html.append("</div>");
        }
        let controls = controls_html(self.music);
        html.append(controls.as_str());
        let field = volume_field_html(self.volume);
        html.append(field.as_str());
        let buttons = volume_buttons_html();
        html.append(buttons.as_str());
        html.append("</div></body></html>");
        html
    }
}

} // verus!
