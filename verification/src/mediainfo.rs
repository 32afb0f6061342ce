//! What is playing: the title and the artist that the desktop's media
//! session reports, and how the page shows them.

use vstd::prelude::*;
use crate::markup::{escape_html, html_escape};

verus! {

/// The title and the artist of what is playing; each is absent where the
/// media session reported it empty.
pub struct MediaInfo {
    title: Option<String>,
    artist: Option<String>,
}

/// What a `MediaInfo` holds.
pub struct MediaInfoView {
    pub title: Option<Seq<char>>,
    pub artist: Option<Seq<char>>,
}

impl MediaInfoView {
    /// Neither a title nor an artist.
    pub open spec fn is_empty(self) -> bool {
        self.title is None && self.artist is None
    }
}

/// A text as an optional field: absent where it is empty.
pub open spec fn nonempty_text(text: Seq<char>) -> Option<Seq<char>> {
    if text.len() == 0 {
        None
    } else {
        Some(text)
    }
}

/// Media info with neither title nor artist.
pub open spec fn no_media_info() -> MediaInfoView {
    MediaInfoView { title: None, artist: None }
}

/// The media info for the title and the artist that a media session reported.
pub open spec fn media_info_of(title: Seq<char>, artist: Seq<char>) -> MediaInfoView {
    MediaInfoView { title: nonempty_text(title), artist: nonempty_text(artist) }
}

/// The media info for what the media session reported: nothing where no
/// session or no media properties could be had.
pub open spec fn media_info_from(properties: Option<(Seq<char>, Seq<char>)>) -> MediaInfoView {
    match properties {
        Some((title, artist)) => media_info_of(title, artist),
        None => no_media_info(),
    }
}

pub open spec fn opt_string_view(o: Option<String>) -> Option<Seq<char>> {
    match o {
        Some(s) => Some(s@),
        None => None,
    }
}

impl View for MediaInfo {
    type V = MediaInfoView;

    closed spec fn view(&self) -> MediaInfoView {
        MediaInfoView { title: opt_string_view(self.title), artist: opt_string_view(self.artist) }
    }
}

/// A paragraph of the class `class` holding the text `text`.
pub open spec fn paragraph_markup(class: Seq<char>, text: Seq<char>) -> Seq<char> {
    "<p class=\""@ + class + "\">"@ + html_escape(text) + "</p>"@
}

/// The paragraph for an optional field: nothing where the field is absent.
pub open spec fn field_markup(class: Seq<char>, field: Option<Seq<char>>) -> Seq<char> {
    match field {
        Some(text) => paragraph_markup(class, text),
        None => Seq::empty(),
    }
}

/// The title paragraph, then the artist paragraph, each where it is present.
pub open spec fn fields_markup(info: MediaInfoView) -> Seq<char> {
    field_markup("title"@, info.title) + field_markup("artist"@, info.artist)
}

/// What the page shows where it knows of nothing playing.
pub open spec fn no_media_markup() -> Seq<char> {
    "<p class=\"title\">No media info</p>"@
}

/// The markup of media info: its fields, or the note that nothing is known
/// where it has none.
pub open spec fn media_info_markup(info: MediaInfoView) -> Seq<char> {
    if !info.is_empty() {
        fields_markup(info)
    } else {
        no_media_markup()
    }
}

fn paragraph_html(class: &str, text: &str) -> (html: String)
    ensures
        html@ == paragraph_markup(class@, text@),
{
    let mut html = String::new();
    html.append("<p class=\"");
    html.append(class);
    html.append("\">");
    let escaped = escape_html(text);
    html.append(escaped.as_str());
    html.append("</p>");
    html
}

fn field_html(class: &str, field: &Option<String>) -> (html: String)
    ensures
        html@ == field_markup(class@, opt_string_view(*field)),
{
    match field {
        Some(text) => paragraph_html(class, text.as_str()),
        None => String::new(),
    }
}

/// The title paragraph, then the artist paragraph, each where it is present.
pub fn fields_html(info: &MediaInfo) -> (html: String)
    ensures
        html@ == fields_markup(info@),
{
    let mut html = field_html("title", &info.title);
    let artist = field_html("artist", &info.artist);
    html.append(artist.as_str());
    html
}

/// The note that nothing is known to be playing.
pub fn no_media_html() -> (html: String)
    ensures
        html@ == no_media_markup(),
{
    let mut html = String::new();
    html.append("<p class=\"title\">No media info</p>");
    html
}

fn nonempty(text: String) -> (field: Option<String>)
    ensures
        opt_string_view(field) == nonempty_text(text@),
{
    if text.as_str().is_empty() {
        None
    } else {
        Some(text)
    }
}

impl Default for MediaInfo {
    /// Media info with neither title nor artist.
    fn default() -> (info: MediaInfo)
        ensures
            info@ == no_media_info(),
    {
        MediaInfo { title: None, artist: None }
    }
}

impl MediaInfo {
    /// The media info for the title and the artist that the media session
    /// reported, `None` where no session or no media properties could be had:
    /// an empty title or artist counts as absent.
    pub fn new(properties: Option<(String, String)>) -> (info: MediaInfo)
        ensures
            info@ == media_info_from(
                match properties {
                    Some((title, artist)) => Some((title@, artist@)),
                    None => None,
                },
            ),
    {
        match properties {
            Some((title, artist)) => {
                if title.as_str().is_empty() && artist.as_str().is_empty() {
                    return MediaInfo::default();
                }
                MediaInfo { title: nonempty(title), artist: nonempty(artist) }
            },
            None => MediaInfo::default(),
        }
    }

    /// Whether there is neither a title nor an artist.
    pub fn is_empty(&self) -> (empty: bool)
        ensures
            empty == self@.is_empty(),
    {
        self.title.is_none() && self.artist.is_none()
    }

    /// The title, where there is one.
    pub fn title(&self) -> (title: Option<&str>)
        ensures
            title matches Some(t) ==> self@.title == Some(t@),
            title is None ==> self@.title is None,
    {
        match &self.title {
            Some(t) => Some(t.as_str()),
            None => None,
        }
    }

    /// The artist, where there is one.
    pub fn artist(&self) -> (artist: Option<&str>)
        ensures
            artist matches Some(a) ==> self@.artist == Some(a@),
            artist is None ==> self@.artist is None,
    {
        match &self.artist {
            Some(a) => Some(a.as_str()),
            None => None,
        }
    }

    /// The message that puts this media info into the page's media info
    /// panel, sent to every page when the desktop's media session changes.
    pub fn render_update(&self) -> (html: String)
        ensures
            html@ == media_info_update_markup(self@),
    {
        let mut html = String::new();
        html.append("<dix id=\"mediainfo\" hx-swap-oob=\"innerHTML\">");
        let inner = self.render();
        html.append(inner.as_str());
        html.append("</dix>");
        html
    }

    /// The markup of the media info: the title and artist paragraphs, or the
    /// note that nothing is known where there are neither.
    pub fn render(&self) -> (html: String)
        ensures
            html@ == media_info_markup(self@),
    {
        if !self.is_empty() {
            fields_html(self)
        } else {
            no_media_html()
        }
    }
}

/// The message that replaces the content of the page's media info panel by
/// the markup of `info`, out of band.
pub open spec fn media_info_update_markup(info: MediaInfoView) -> Seq<char> {
    "<dix id=\"mediainfo\" hx-swap-oob=\"innerHTML\">"@ + media_info_markup(info) + "</dix>"@
}

/// Media info made from a title and an artist is empty exactly where both
/// were empty, and the page then shows the note that nothing is playing.
pub proof fn lemma_blank_properties_mean_no_media(title: Seq<char>, artist: Seq<char>)
    ensures
        media_info_of(title, artist).is_empty() <==> (title.len() == 0 && artist.len() == 0),
        media_info_of(title, artist).is_empty() ==> media_info_of(title, artist) == no_media_info(),
        (title.len() == 0 && artist.len() == 0) ==> media_info_markup(media_info_of(title, artist))
            == no_media_markup(),
        media_info_markup(media_info_from(None)) == no_media_markup(),
{
}

/// A title or an artist that the media session reports is kept as it is
/// where it is not empty, and left out where it is empty; where there is no
/// session, neither is there.
pub proof fn lemma_reported_fields_kept(title: Seq<char>, artist: Seq<char>)
    ensures
        title.len() > 0 ==> media_info_of(title, artist).title == Some(title),
        title.len() == 0 ==> media_info_of(title, artist).title is None,
        artist.len() > 0 ==> media_info_of(title, artist).artist == Some(artist),
        artist.len() == 0 ==> media_info_of(title, artist).artist is None,
        media_info_from(Some((title, artist))) == media_info_of(title, artist),
        media_info_from(None).title is None && media_info_from(None).artist is None,
{
}

/// How media info shows: where it has a title, the title paragraph (the
/// title escaped), then the artist paragraph where it has an artist; where it
/// has only an artist, the artist paragraph; where it has neither, the note
/// that nothing is known. The panel update wraps exactly that markup in the
/// out-of-band `mediainfo` element.
pub proof fn lemma_media_info_shows_its_fields(info: MediaInfoView)
    ensures
        info.title matches Some(t) ==> media_info_markup(info) == "<p class=\"title\">"@
            + html_escape(t) + "</p>"@ + match info.artist {
            Some(a) => "<p class=\"artist\">"@ + html_escape(a) + "</p>"@,
            None => Seq::empty(),
        },
        info.title is None ==> (info.artist matches Some(a) ==> media_info_markup(info)
            == "<p class=\"artist\">"@ + html_escape(a) + "</p>"@),
        info.title is None && info.artist is None ==> media_info_markup(info)
            == "<p class=\"title\">No media info</p>"@,
        media_info_update_markup(info) == "<dix id=\"mediainfo\" hx-swap-oob=\"innerHTML\">"@
            + media_info_markup(info) + "</dix>"@,
{
    reveal_strlit("title");
    reveal_strlit("artist");
    reveal_strlit("<p class=\"");
    reveal_strlit("\">");
    reveal_strlit("</p>");
    reveal_strlit("<p class=\"title\">");
    reveal_strlit("<p class=\"artist\">");
    match info.title {
        Some(t) => {
            assert("<p class=\""@ + "title"@ + "\">"@ =~= "<p class=\"title\">"@);
            match info.artist {
                Some(a) => {
                    assert("<p class=\""@ + "artist"@ + "\">"@ =~= "<p class=\"artist\">"@);
                },
                None => {},
            }
        },
        None => {
            match info.artist {
                Some(a) => {
                    assert("<p class=\""@ + "artist"@ + "\">"@ =~= "<p class=\"artist\">"@);
                },
                None => {},
            }
        },
    }
}

} // verus!
