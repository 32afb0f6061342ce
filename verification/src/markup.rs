//! Text that goes into the markup: escaping and numbers, as the page
//! templates render them.

use vstd::prelude::*;

verus! {

/// What escaping makes of one character of text put into markup.
pub open spec fn escape_char(c: char) -> Seq<char> {
    if c == '&' {
        seq!['&', 'a', 'm', 'p', ';']
    } else if c == '<' {
        seq!['&', 'l', 't', ';']
    } else if c == '>' {
        seq!['&', 'g', 't', ';']
    } else if c == '"' {
        seq!['&', 'q', 'u', 'o', 't', ';']
    } else {
        seq![c]
    }
}

/// Text escaped for markup: each character escaped in turn.
pub open spec fn html_escape(text: Seq<char>) -> Seq<char>
    decreases text.len(),
{
    if text.len() == 0 {
        Seq::empty()
    } else {
        html_escape(text.drop_last()) + escape_char(text.last())
    }
}

/// The decimal digit for `d` (`d < 10`).
pub open spec fn digit_char(d: nat) -> char {
    seq!['0', '1', '2', '3', '4', '5', '6', '7', '8', '9'][d as int]
}

/// The decimal representation of `n`, without sign or leading zeros.
pub open spec fn decimal(n: nat) -> Seq<char>
    decreases n,
{
    if n < 10 {
        seq![digit_char(n)]
    } else {
        decimal(n / 10) + seq![digit_char(n % 10)]
    }
}

/// The characters that would open or close a tag or an attribute value.
pub open spec fn is_markup_char(c: char) -> bool {
    c == '<' || c == '>' || c == '"'
}

/// Escaping one character yields none of `<`, `>` and `"`.
proof fn lemma_escape_char_inert(c: char)
    ensures
        forall|i: int| 0 <= i < escape_char(c).len() ==> !is_markup_char(#[trigger] escape_char(c)[i]),
{
}

/// Escaped text holds no `<`, `>` or `"`: whatever text is put into the
/// markup, it can open no tag and close no attribute value.
pub proof fn lemma_escaped_text_is_inert(text: Seq<char>)
    ensures
        forall|i: int| 0 <= i < html_escape(text).len() ==> !is_markup_char(#[trigger] html_escape(text)[i]),
    decreases text.len(),
{
    if text.len() > 0 {
        lemma_escaped_text_is_inert(text.drop_last());
        lemma_escape_char_inert(text.last());
        let front = html_escape(text.drop_last());
        let back = escape_char(text.last());
        assert forall|i: int| 0 <= i < html_escape(text).len() implies !is_markup_char(
            #[trigger] html_escape(text)[i],
        ) by {
            if i < front.len() {
                assert(html_escape(text)[i] == front[i]);
            } else {
                assert(html_escape(text)[i] == back[i - front.len()]);
            }
        }
    }
}

/// maud's `Render` impl for `str` (`escape_to_string` in maud's escape.rs):
/// the text with `&`, `<`, `>` and `"` replaced by their entities, every other
/// character kept.
#[verifier::external_body]
pub(crate) fn escape_html(text: &str) -> (escaped: String)
    ensures
        escaped@ == html_escape(text@),
{
    maud::Render::render(text).into_string()
}

/// maud's `Render` impl for `u32` (which formats with `itoa`): the decimal
/// representation of the number.
#[verifier::external_body]
pub(crate) fn render_u32(n: u32) -> (rendered: String)
    ensures
        rendered@ == decimal(n as nat),
{
    maud::Render::render(&n).into_string()
}

} // verus!
