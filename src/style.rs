//! Colors and fonts, and the CSS strings a rendering context takes for them.

use vstd::prelude::*;
use crate::decimal::{decimal, decimal_text};

verus! {

/// A color as a drawing call receives it: its red, green and blue components
/// and its opacity, the latter kept as the decimal text that names it in CSS
/// (`"0.5"`, `"1"`).
#[derive(Clone, Debug, PartialEq, Eq)]
pub struct CanvasColor {
    pub r: u8,
    pub g: u8,
    pub b: u8,
    pub alpha_text: String,
}

/// A font as a text drawing call receives it: a size in whole pixels and a
/// family name.
#[derive(Clone, Debug, PartialEq, Eq)]
pub struct FontDesc {
    pub size: u32,
    pub name: String,
}

/// `rgba(<r>,<g>,<b>,<a>)`, with the components in decimal.
pub open spec fn rgba_text(r: u8, g: u8, b: u8, alpha: Seq<char>) -> Seq<char> {
    seq!['r', 'g', 'b', 'a', '('] + decimal(r as nat) + seq![','] + decimal(g as nat) + seq![',']
        + decimal(b as nat) + seq![','] + alpha + seq![')']
}

/// `<size>px <name>`, with the size in decimal.
pub open spec fn font_text(size: u32, name: Seq<char>) -> Seq<char> {
    decimal(size as nat) + seq!['p', 'x', ' '] + name
}

impl CanvasColor {
    pub fn new(r: u8, g: u8, b: u8, alpha_text: String) -> (c: CanvasColor)
        ensures
            c.r == r,
            c.g == g,
            c.b == b,
            c.alpha_text@ == alpha_text@,
    {
        CanvasColor { r, g, b, alpha_text }
    }

    /// The fill or stroke style that this color gives.
    pub open spec fn css(&self) -> Seq<char> {
        rgba_text(self.r, self.g, self.b, self.alpha_text@)
    }

    pub fn rgb(&self) -> (t: (u8, u8, u8))
        ensures
            t == (self.r, self.g, self.b),
    {
        (self.r, self.g, self.b)
    }
}

impl FontDesc {
    pub fn new(size: u32, name: String) -> (f: FontDesc)
        ensures
            f.size == size,
            f.name@ == name@,
    {
        FontDesc { size, name }
    }

    /// The CSS font string of this font.
    pub open spec fn css(&self) -> Seq<char> {
        font_text(self.size, self.name@)
    }

    pub fn get_size(&self) -> (s: u32)
        ensures
            s == self.size,
    {
        self.size
    }

    pub fn get_name(&self) -> (s: &str)
        ensures
            s@ == self.name@,
    {
        self.name.as_str()
    }
}

/// The CSS color string for `color`: `rgba(r,g,b,a)`, made afresh on each call.
pub fn make_canvas_color(color: &CanvasColor) -> (s: String)
    ensures
        s@ == color.css(),
{
    proof {
        reveal_strlit("rgba(");
        reveal_strlit(",");
        reveal_strlit(")");
    }
    let mut s = String::from_str("rgba(");
    let rt = decimal_text(color.r as u64);
    s.append(rt.as_str());
    s.append(",");
    let gt = decimal_text(color.g as u64);
    s.append(gt.as_str());
    s.append(",");
    let bt = decimal_text(color.b as u64);
    s.append(bt.as_str());
    s.append(",");
    s.append(color.alpha_text.as_str());
    s.append(")");
    assert(s@ =~= color.css());
    s
}

/// The CSS font string for `font`: `<size>px <name>`.
pub fn make_canvas_font(font: &FontDesc) -> (s: String)
    ensures
        s@ == font.css(),
{
    proof {
        reveal_strlit("px ");
    }
    let mut s = decimal_text(font.size as u64);
    s.append("px ");
    s.append(font.name.as_str());
    assert(s@ =~= font.css());
    s
}

} // verus!
