//! The light and dark colour schemes.

use vstd::prelude::*;

verus! {

#[derive(Clone, Copy, Debug, PartialEq, Eq, Structural)]
pub enum ThemeKind {
    Light,
    Dark,
}

impl Default for ThemeKind {
    fn default() -> (theme: Self)
        ensures
            theme == ThemeKind::Light,
    {
        ThemeKind::Light
    }
}

/// An opaque colour as red, green and blue components.
#[derive(Clone, Copy, Debug, PartialEq, Eq, Structural)]
pub struct Rgb {
    pub r: u8,
    pub g: u8,
    pub b: u8,
}

#[derive(Clone, Copy, Debug, PartialEq, Eq, Structural)]
pub struct ThemePalette {
    pub app_background: Rgb,
    pub paper: Rgb,
    pub text: Rgb,
    pub muted_text: Rgb,
    pub panel: Rgb,
    pub border: Rgb,
    pub active: Rgb,
    pub inactive: Rgb,
    pub error: Rgb,
    pub cursor: Rgb,
    pub tape_hole: Rgb,
    pub tape_ghost: Rgb,
}

pub open spec fn rgb(r: u8, g: u8, b: u8) -> Rgb {
    Rgb { r, g, b }
}

/// The colours of each theme.
pub open spec fn palette_of(theme: ThemeKind) -> ThemePalette {
    match theme {
        ThemeKind::Light => ThemePalette {
            app_background: rgb(224, 216, 204),
            paper: rgb(255, 238, 221),
            text: rgb(76, 76, 76),
            muted_text: rgb(116, 105, 94),
            panel: rgb(244, 230, 214),
            border: rgb(176, 158, 140),
            active: rgb(190, 174, 151),
            inactive: rgb(231, 217, 201),
            error: rgb(153, 48, 38),
            cursor: rgb(76, 76, 76),
            tape_hole: rgb(70, 65, 59),
            tape_ghost: rgb(171, 151, 131),
        },
        ThemeKind::Dark => ThemePalette {
            app_background: rgb(31, 27, 24),
            paper: rgb(61, 49, 39),
            text: rgb(232, 214, 190),
            muted_text: rgb(174, 153, 130),
            panel: rgb(48, 40, 34),
            border: rgb(104, 86, 69),
            active: rgb(121, 95, 70),
            inactive: rgb(65, 54, 45),
            error: rgb(235, 132, 112),
            cursor: rgb(232, 214, 190),
            tape_hole: rgb(225, 204, 179),
            tape_ghost: rgb(116, 92, 72),
        },
    }
}

fn color(r: u8, g: u8, b: u8) -> (c: Rgb)
    ensures
        c == rgb(r, g, b),
{
    Rgb { r, g, b }
}

impl ThemeKind {
    pub fn palette(self) -> (palette: ThemePalette)
        ensures
            palette == palette_of(self),
    {
        match self {
            ThemeKind::Light => ThemePalette {
                app_background: color(224, 216, 204),
                paper: color(255, 238, 221),
                text: color(76, 76, 76),
                muted_text: color(116, 105, 94),
                panel: color(244, 230, 214),
                border: color(176, 158, 140),
                active: color(190, 174, 151),
                inactive: color(231, 217, 201),
                error: color(153, 48, 38),
                cursor: color(76, 76, 76),
                tape_hole: color(70, 65, 59),
                tape_ghost: color(171, 151, 131),
            },
            ThemeKind::Dark => ThemePalette {
                app_background: color(31, 27, 24),
                paper: color(61, 49, 39),
                text: color(232, 214, 190),
                muted_text: color(174, 153, 130),
                panel: color(48, 40, 34),
                border: color(104, 86, 69),
                active: color(121, 95, 70),
                inactive: color(65, 54, 45),
                error: color(235, 132, 112),
                cursor: color(232, 214, 190),
                tape_hole: color(225, 204, 179),
                tape_ghost: color(116, 92, 72),
            },
        }
    }
}

/// In both themes the text stands out from the paper, punched holes from their
/// ghost outlines, and the two palettes differ.
pub proof fn lemma_palettes_are_distinct()
    ensures
        palette_of(ThemeKind::Light) != palette_of(ThemeKind::Dark),
        palette_of(ThemeKind::Light).paper != palette_of(ThemeKind::Light).text,
        palette_of(ThemeKind::Dark).paper != palette_of(ThemeKind::Dark).text,
        palette_of(ThemeKind::Light).tape_hole != palette_of(ThemeKind::Light).tape_ghost,
        palette_of(ThemeKind::Dark).tape_hole != palette_of(ThemeKind::Dark).tape_ghost,
        palette_of(ThemeKind::Light).active != palette_of(ThemeKind::Light).text,
        palette_of(ThemeKind::Dark).active != palette_of(ThemeKind::Dark).text,
{
}

} // verus!
