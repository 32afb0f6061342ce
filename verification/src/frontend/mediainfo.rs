//! The media info panel as the page shows it: the fields of the media info
//! where there is one, the note that nothing is known where there is none.

use vstd::prelude::*;
use crate::mediainfo::{
    fields_html, fields_markup, media_info_markup, no_media_html, no_media_markup,
    MediaInfo as MediaInfoStruct, MediaInfoView,
};

verus! {

/// The media info panel of the page.
pub struct MediaInfo {
    pub mediainfo: Option<MediaInfoStruct>,
}

/// The markup of the panel: the fields where there is media info (nothing at
/// all where it has neither title nor artist), the note that nothing is
/// known where there is none.
pub open spec fn panel_markup(info: Option<MediaInfoView>) -> Seq<char> {
    match info {
        Some(i) => fields_markup(i),
        None => no_media_markup(),
    }
}

impl MediaInfo {
    /// The markup of the panel.
    pub fn render(&self) -> (html: String)
        ensures
            html@ == panel_markup(
                match self.mediainfo {
                    Some(i) => Some(i@),
                    None => None,
                },
            ),
    {
        match &self.mediainfo {
            Some(info) => fields_html(info),
            None => no_media_html(),
        }
    }
}

/// The panel shows present media info as the media info shows itself, each
/// present field on its own, whichever others are there; where the media
/// info has no field at all, the panel is empty; without media info, the
/// panel holds the note that nothing is known.
pub proof fn lemma_panel_shows_media_info(info: MediaInfoView)
    ensures
        !info.is_empty() ==> panel_markup(Some(info)) == media_info_markup(info),
        info.is_empty() ==> panel_markup(Some(info)) == Seq::<char>::empty(),
        panel_markup(None) == "<p class=\"title\">No media info</p>"@,
{
}

} // verus!
