use media_remote::frontend::head::Head;
use media_remote::frontend::mediainfo::MediaInfo as MediaInfoPanel;
use media_remote::mediainfo::MediaInfo;
use media_remote::{Button, Remote};

const HEAD: &str = "<head><meta charset=\"utf-8\"><meta http-equiv=\"X-UA-Compatible\" content=\"IE=edge\"><meta name=\"viewport\" content=\"width=device-width, initial-scale=1.0\"><title>Remote</title><link rel=\"stylesheet\" type=\"text/css\" href=\"https://cdnjs.cloudflare.com/ajax/libs/font-awesome/6.7.2/css/all.min.css\"><link rel=\"stylesheet\" type=\"text/css\" href=\"/main.css\"><script src=\"https://cdnjs.cloudflare.com/ajax/libs/htmx/2.0.4/htmx.min.js\"></script><script src=\"https://unpkg.com/htmx-ext-ws@2.0.2/ws.js\"></script><script src=\"/main.js\"></script></head>";

fn info(title: &str, artist: &str) -> MediaInfo {
    MediaInfo::new(Some((title.to_string(), artist.to_string())))
}

#[test]
fn plain_button_markup() {
    let b = Button::new("stop", "stop");
    assert_eq!(
        b.render(),
        "<button ws-send name=\"stop\"><i class=\"fas fa-stop\"></i></button>"
    );
}

#[test]
fn double_button_markup() {
    let mut b = Button::new("pause", "minus");
    b.double();
    assert_eq!(
        b.render(),
        "<button class=\"double\" ws-send name=\"pause\"><i class=\"fas fa-minus\"></i></button>"
    );
}

#[test]
fn two_icon_button_markup() {
    let mut b = Button::new("playpause", "play");
    b.icon2("pause");
    assert_eq!(
        b.render(),
        "<button ws-send name=\"playpause\"><i class=\"fas fa-play\"></i><i class=\"fas fa-pause\"></i></button>"
    );
}

#[test]
fn builder_calls_chain_in_either_order() {
    let mut a = Button::new("x", "y");
    a.double().icon2("z");
    let mut b = Button::new("x", "y");
    b.icon2("z").double();
    assert_eq!(a.render(), b.render());
    assert_eq!(
        a.render(),
        "<button class=\"double\" ws-send name=\"x\"><i class=\"fas fa-y\"></i><i class=\"fas fa-z\"></i></button>"
    );
}

#[test]
fn button_name_is_escaped() {
    let b = Button::new("a\"b", "c<d");
    assert_eq!(
        b.render(),
        "<button ws-send name=\"a&quot;b\"><i class=\"fas fa-c&lt;d\"></i></button>"
    );
}

#[test]
fn head_markup() {
    assert_eq!(Head.render(), HEAD);
}

#[test]
fn no_session_means_no_media() {
    let m = MediaInfo::new(None);
    assert!(m.is_empty());
    assert_eq!(m.title(), None);
    assert_eq!(m.artist(), None);
    assert_eq!(m.render(), "<p class=\"title\">No media info</p>");
}

#[test]
fn default_media_info_is_empty() {
    let m = MediaInfo::default();
    assert!(m.is_empty());
    assert_eq!(m.render(), "<p class=\"title\">No media info</p>");
}

#[test]
fn blank_properties_mean_no_media() {
    let m = info("", "");
    assert!(m.is_empty());
    assert_eq!(m.render(), "<p class=\"title\">No media info</p>");
}

#[test]
fn empty_artist_is_left_out() {
    let m = info("Song", "");
    assert!(!m.is_empty());
    assert_eq!(m.title(), Some("Song"));
    assert_eq!(m.artist(), None);
    assert_eq!(m.render(), "<p class=\"title\">Song</p>");
}

#[test]
fn empty_title_is_left_out() {
    let m = info("", "Band");
    assert_eq!(m.title(), None);
    assert_eq!(m.artist(), Some("Band"));
    assert_eq!(m.render(), "<p class=\"artist\">Band</p>");
}

#[test]
fn title_and_artist() {
    let m = info("Song", "Band");
    assert_eq!(
        m.render(),
        "<p class=\"title\">Song</p><p class=\"artist\">Band</p>"
    );
}

#[test]
fn media_text_is_escaped() {
    let m = info("<script>alert(\"x\")</script>", "Tom & Jerry");
    let html = m.render();
    assert_eq!(
        html,
        "<p class=\"title\">&lt;script&gt;alert(&quot;x&quot;)&lt;/script&gt;</p><p class=\"artist\">Tom &amp; Jerry</p>"
    );
    assert!(!html.contains("<script>"));
}

#[test]
fn non_ascii_text_is_kept() {
    let m = info("Für Elise ♪", "");
    assert_eq!(m.render(), "<p class=\"title\">Für Elise ♪</p>");
}

#[test]
fn media_update_message() {
    let m = info("Song", "Band");
    assert_eq!(
        m.render_update(),
        "<dix id=\"mediainfo\" hx-swap-oob=\"innerHTML\"><p class=\"title\">Song</p><p class=\"artist\">Band</p></dix>"
    );
    assert_eq!(
        MediaInfo::new(None).render_update(),
        "<dix id=\"mediainfo\" hx-swap-oob=\"innerHTML\"><p class=\"title\">No media info</p></dix>"
    );
}

#[test]
fn panel_without_media_info() {
    let p = MediaInfoPanel { mediainfo: None };
    assert_eq!(p.render(), "<p class=\"title\">No media info</p>");
}

#[test]
fn panel_with_empty_media_info_shows_nothing() {
    let p = MediaInfoPanel { mediainfo: Some(MediaInfo::new(None)) };
    assert_eq!(p.render(), "");
}

#[test]
fn panel_with_media_info() {
    let p = MediaInfoPanel { mediainfo: Some(info("Song", "Band")) };
    assert_eq!(
        p.render(),
        "<p class=\"title\">Song</p><p class=\"artist\">Band</p>"
    );
}

const VIDEO_BUTTONS: &str = "<button class=\"double\" ws-send name=\"pause\"><i class=\"fas fa-minus\"></i></button><button ws-send name=\"left\"><i class=\"fas fa-arrow-left\"></i></button><button ws-send name=\"right\"><i class=\"fas fa-arrow-right\"></i></button>";

const MUSIC_BUTTONS: &str = "<button ws-send name=\"playpause\"><i class=\"fas fa-play\"></i><i class=\"fas fa-pause\"></i></button><button ws-send name=\"stop\"><i class=\"fas fa-stop\"></i></button><button ws-send name=\"prev\"><i class=\"fas fa-backward\"></i></button><button ws-send name=\"next\"><i class=\"fas fa-forward\"></i></button>";

const MUTE_BUTTONS: &str = "<button ws-send name=\"mute\"><i class=\"fas fa-volume-mute\"></i></button><button ws-send name=\"unmute\"><i class=\"fas fa-volume-high\"></i></button>";

fn page(panel: &str, buttons: &str, volume: &str) -> String {
    format!(
        "<!DOCTYPE html><html lang=\"en\">{}<body><div class=\"wrapper\" hx-ext=\"ws\" ws-connect=\"/ws\">{}{}<div id=\"vol-field\"><input id=\"vol\" type=\"range\" min=\"0\" max=\"100\" value=\"{}\" name=\"vol\" hx-trigger=\"input\" ws-send><span id=\"volume\">{}</span></div>{}</div></body></html>",
        HEAD, panel, buttons, volume, volume, MUTE_BUTTONS
    )
}

#[test]
fn video_page() {
    let r = Remote { volume: 50, music: false, media: false, mediainfo: None };
    assert_eq!(r.render(), page("", VIDEO_BUTTONS, "50"));
}

#[test]
fn music_page() {
    let r = Remote { volume: 7, music: true, media: false, mediainfo: None };
    assert_eq!(r.render(), page("", MUSIC_BUTTONS, "7"));
}

#[test]
fn page_with_media_panel() {
    let r = Remote { volume: 100, music: true, media: true, mediainfo: Some(info("Song", "Band")) };
    assert_eq!(
        r.render(),
        page(
            "<div class=\"double info\" id=\"mediainfo\"><p class=\"title\">Song</p><p class=\"artist\">Band</p></div>",
            MUSIC_BUTTONS,
            "100"
        )
    );
}

#[test]
fn page_with_empty_media_panel() {
    let r = Remote { volume: 0, music: false, media: true, mediainfo: None };
    assert_eq!(
        r.render(),
        page("<div class=\"double info\" id=\"mediainfo\"></div>", VIDEO_BUTTONS, "0")
    );
    let r = Remote { volume: 0, music: false, media: true, mediainfo: Some(MediaInfo::new(None)) };
    assert_eq!(
        r.render(),
        page(
            "<div class=\"double info\" id=\"mediainfo\"><p class=\"title\">No media info</p></div>",
            VIDEO_BUTTONS,
            "0"
        )
    );
}

#[test]
fn media_info_hidden_without_media_flag() {
    let r = Remote { volume: 1, music: false, media: false, mediainfo: Some(info("Song", "")) };
    assert_eq!(r.render(), page("", VIDEO_BUTTONS, "1"));
}

#[test]
fn large_volume_is_written_in_full() {
    let r = Remote { volume: 4294967295, music: false, media: false, mediainfo: None };
    assert_eq!(r.render(), page("", VIDEO_BUTTONS, "4294967295"));
}
