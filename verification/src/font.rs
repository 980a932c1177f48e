//! Fonts, and the CSS `font` text that the canvas is given for them.
use vstd::prelude::*;

use crate::strings::string_push;
use crate::css::{decimal, push_decimal};

verus! {

/// The CSS font style (https://developer.mozilla.org/en-US/docs/Web/CSS/font-style).
/// An oblique angle is held as the text of its number of degrees.
pub enum FontStyle {
    Normal,
    Italic,
    Oblique(Option<String>),
}

/// What a font style is, as text.
pub ghost enum FontStyleView {
    Normal,
    Italic,
    Oblique(Option<Seq<char>>),
}

impl View for FontStyle {
    type V = FontStyleView;

    open spec fn view(&self) -> FontStyleView {
        match self {
            FontStyle::Normal => FontStyleView::Normal,
            FontStyle::Italic => FontStyleView::Italic,
            FontStyle::Oblique(None) => FontStyleView::Oblique(None),
            FontStyle::Oblique(Some(angle)) => FontStyleView::Oblique(Some(angle@)),
        }
    }
}

impl Clone for FontStyle {
    fn clone(&self) -> (r: Self)
        ensures
            r@ == self@,
    {
        match self {
            FontStyle::Normal => FontStyle::Normal,
            FontStyle::Italic => FontStyle::Italic,
            FontStyle::Oblique(None) => FontStyle::Oblique(None),
            FontStyle::Oblique(Some(angle)) => FontStyle::Oblique(Some(angle.clone())),
        }
    }
}

/// A font: family name, weight, style and size. The size is held as the
/// text of its number of pixels.
pub struct WebFont {
    family: String,
    weight: u32,
    style: FontStyle,
    size: String,
}

/// What a font is: its family name, weight, style and size text.
pub ghost struct FontView {
    pub family: Seq<char>,
    pub weight: u32,
    pub style: FontStyleView,
    pub size: Seq<char>,
}

impl View for WebFont {
    type V = FontView;

    closed spec fn view(&self) -> FontView {
        FontView {
            family: self.family@,
            weight: self.weight,
            style: self.style@,
            size: self.size@,
        }
    }
}

impl Clone for WebFont {
    fn clone(&self) -> (r: Self)
        ensures
            r@ == self@,
    {
        WebFont {
            family: self.family.clone(),
            weight: self.weight,
            style: self.style.clone(),
            size: self.size.clone(),
        }
    }
}

/// The CSS keyword (and angle) of a font style.
pub open spec fn style_text(style: FontStyleView) -> Seq<char> {
    match style {
        FontStyleView::Normal => "normal"@,
        FontStyleView::Italic => "italic"@,
        FontStyleView::Oblique(None) => "italic"@,
        FontStyleView::Oblique(Some(angle)) => "oblique "@ + angle + "deg"@,
    }
}

/// The CSS `font` text of a font: `<style> <weight> <size>px "<family>"`.
pub open spec fn font_text(font: FontView) -> Seq<char> {
    style_text(font.style) + seq![' '] + decimal(font.weight as nat) + seq![' '] + font.size
        + "px \""@ + font.family + seq!['"']
}

/// The font that a family name and a size give: weight 400, normal style.
pub open spec fn font_by_name(name: Seq<char>, size: Seq<char>) -> FontView {
    FontView { family: name, weight: 400, style: FontStyleView::Normal, size }
}

fn push_str(s: &mut String, t: &str)
    ensures
        final(s)@ == old(s)@ + t@,
{
    s.append(t);
}

impl WebFont {
    /// The CSS `font` text of this font, as the canvas takes it.
    pub fn get_font_string(&self) -> (r: String)
        ensures
            r@ == font_text(self@),
    {
        let mut s = String::new();
        match &self.style {
            FontStyle::Normal => {
                push_str(&mut s, "normal");
            },
            FontStyle::Italic => {
                push_str(&mut s, "italic");
            },
            FontStyle::Oblique(None) => {
                push_str(&mut s, "italic");
            },
            FontStyle::Oblique(Some(angle)) => {
                push_str(&mut s, "oblique ");
                push_str(&mut s, angle.as_str());
                push_str(&mut s, "deg");
            },
        }
        string_push(&mut s, ' ');
        push_decimal(&mut s, self.weight);
        string_push(&mut s, ' ');
        push_str(&mut s, self.size.as_str());
        push_str(&mut s, "px \"");
        push_str(&mut s, self.family.as_str());
        string_push(&mut s, '"');
        assert(s@ =~= font_text(self@));
        s
    }
}

/// A font under construction.
pub struct WebFontBuilder(WebFont);

impl View for WebFontBuilder {
    type V = FontView;

    closed spec fn view(&self) -> FontView {
        self.0@
    }
}

impl WebFontBuilder {
    /// The font of the given family and size text, of weight 400 and normal style.
    pub fn by_name(name: &str, size: &str) -> (r: WebFontBuilder)
        ensures
            r@ == font_by_name(name@, size@),
    {
        WebFontBuilder(
            WebFont {
                family: name.to_owned(),
                size: size.to_owned(),
                weight: 400,
                style: FontStyle::Normal,
            },
        )
    }

    /// The font built; building a font never fails.
    pub fn build(self) -> (r: Result<WebFont, piet::Error>)
        ensures
            r matches Ok(font) && font@ == self@,
    {
        Ok(self.0)
    }
}

/// A font asked for by family name and size text is drawn as
/// `normal 400 <size>px "<name>"`.
pub proof fn lemma_font_by_name_text(name: Seq<char>, size: Seq<char>)
    ensures
        font_text(font_by_name(name, size)) == "normal 400 "@ + size + "px \""@ + name + seq!['"'],
{
    reveal_strlit("normal");
    reveal_strlit("normal 400 ");
    assert(decimal(400) =~= seq!['4', '0', '0']) by {
        reveal_with_fuel(decimal, 3);
    }
    assert(font_text(font_by_name(name, size)) =~= "normal 400 "@ + size + "px \""@ + name
        + seq!['"']);
}

} // verus!
