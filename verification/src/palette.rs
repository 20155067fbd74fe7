//! The primitive colours of the GitHub "dark colorblind" palette that the
//! theme is built from.

use vstd::prelude::*;

verus! {

/// Colours of one state (default, foreground, muted, ...).
pub struct StateColors {
    pub default: String,
    pub fg: String,
    pub muted: String,
    pub subtle: String,
    pub emphasis: String,
    pub on_emphasis: String,
}

/// Canvas colours.
pub struct Canvas {
    pub default: String,
    pub overlay: String,
    pub inset: String,
    pub subtle: String,
}

/// Border colours.
pub struct Border {
    pub default: String,
    pub muted: String,
}

/// The colour scales.
pub struct Scale {
    pub black: String,
    pub white: String,
    pub gray: Vec<String>,
    pub blue: Vec<String>,
    pub green: Vec<String>,
    pub yellow: Vec<String>,
    pub orange: Vec<String>,
    pub red: Vec<String>,
    pub purple: Vec<String>,
    pub pink: Vec<String>,
}

/// Button colours.
pub struct Btn {
    pub bg: String,
    pub hover_bg: String,
    pub primary: BtnState,
    pub active_bg: String,
    pub text: String,
}

/// Colours of one button state.
pub struct BtnState {
    pub bg: String,
    pub text: String,
    pub hover_bg: String,
}

/// Code editor colours.
pub struct Codemirror {
    pub activeline_bg: String,
}

/// The terminal's ANSI colours.
pub struct Ansi {
    pub black: String,
    pub black_bright: String,
    pub white: String,
    pub white_bright: String,
    pub gray: String,
    pub red: String,
    pub red_bright: String,
    pub green: String,
    pub green_bright: String,
    pub yellow: String,
    pub yellow_bright: String,
    pub blue: String,
    pub blue_bright: String,
    pub magenta: String,
    pub magenta_bright: String,
    pub cyan: String,
    pub cyan_bright: String,
}

/// Primer colours.
pub struct Primer {
    pub border: PrimerBorder,
}

/// Primer border colours.
pub struct PrimerBorder {
    pub active: String,
}

/// The whole palette.
pub struct Primitives {
    pub fg: StateColors,
    pub canvas: Canvas,
    pub border: Border,
    pub neutral: StateColors,
    pub accent: StateColors,
    pub success: StateColors,
    pub attention: StateColors,
    pub danger: StateColors,
    pub scale: Scale,
    pub severe: StateColors,
    pub ansi: Ansi,
    pub btn: Btn,
    pub codemirror: Codemirror,
    pub primer: Primer,
}

/// The palette entries that the theme refers to.
#[derive(Clone, Copy, Debug, PartialEq, Eq, Structural)]
pub enum PaletteRef {
    FgDefault,
    FgMuted,
    FgSubtle,
    DangerFg,
    BtnPrimaryText,
    BtnPrimaryHoverBg,
    CanvasDefault,
    CanvasOverlay,
    CanvasSubtle,
    BorderDefault,
    NeutralSubtle,
    NeutralMuted,
    NeutralEmphasis,
    SuccessFg,
    AttentionEmphasis,
    AttentionFg,
    SevereFg,
    CodemirrorActivelineBg,
    AnsiBlack,
    AnsiRed,
    AnsiGreen,
    AnsiYellow,
    AnsiBlue,
    AnsiMagenta,
    AnsiCyan,
    AnsiWhite,
}

/// The colour that a palette entry names.
pub open spec fn palette_entry(p: Primitives, r: PaletteRef) -> Seq<char> {
    match r {
        PaletteRef::FgDefault => p.fg.default@,
        PaletteRef::FgMuted => p.fg.muted@,
        PaletteRef::FgSubtle => p.fg.subtle@,
        PaletteRef::DangerFg => p.danger.fg@,
        PaletteRef::BtnPrimaryText => p.btn.primary.text@,
        PaletteRef::BtnPrimaryHoverBg => p.btn.primary.hover_bg@,
        PaletteRef::CanvasDefault => p.canvas.default@,
        PaletteRef::CanvasOverlay => p.canvas.overlay@,
        PaletteRef::CanvasSubtle => p.canvas.subtle@,
        PaletteRef::BorderDefault => p.border.default@,
        PaletteRef::NeutralSubtle => p.neutral.subtle@,
        PaletteRef::NeutralMuted => p.neutral.muted@,
        PaletteRef::NeutralEmphasis => p.neutral.emphasis@,
        PaletteRef::SuccessFg => p.success.fg@,
        PaletteRef::AttentionEmphasis => p.attention.emphasis@,
        PaletteRef::AttentionFg => p.attention.fg@,
        PaletteRef::SevereFg => p.severe.fg@,
        PaletteRef::CodemirrorActivelineBg => p.codemirror.activeline_bg@,
        PaletteRef::AnsiBlack => p.ansi.black@,
        PaletteRef::AnsiRed => p.ansi.red@,
        PaletteRef::AnsiGreen => p.ansi.green@,
        PaletteRef::AnsiYellow => p.ansi.yellow@,
        PaletteRef::AnsiBlue => p.ansi.blue@,
        PaletteRef::AnsiMagenta => p.ansi.magenta@,
        PaletteRef::AnsiCyan => p.ansi.cyan@,
        PaletteRef::AnsiWhite => p.ansi.white@,
    }
}

/// The colour that a palette entry names.
pub fn palette_color(p: &Primitives, r: PaletteRef) -> (c: &str)
    ensures
        c@ == palette_entry(*p, r),
{
    match r {
        PaletteRef::FgDefault => p.fg.default.as_str(),
        PaletteRef::FgMuted => p.fg.muted.as_str(),
        PaletteRef::FgSubtle => p.fg.subtle.as_str(),
        PaletteRef::DangerFg => p.danger.fg.as_str(),
        PaletteRef::BtnPrimaryText => p.btn.primary.text.as_str(),
        PaletteRef::BtnPrimaryHoverBg => p.btn.primary.hover_bg.as_str(),
        PaletteRef::CanvasDefault => p.canvas.default.as_str(),
        PaletteRef::CanvasOverlay => p.canvas.overlay.as_str(),
        PaletteRef::CanvasSubtle => p.canvas.subtle.as_str(),
        PaletteRef::BorderDefault => p.border.default.as_str(),
        PaletteRef::NeutralSubtle => p.neutral.subtle.as_str(),
        PaletteRef::NeutralMuted => p.neutral.muted.as_str(),
        PaletteRef::NeutralEmphasis => p.neutral.emphasis.as_str(),
        PaletteRef::SuccessFg => p.success.fg.as_str(),
        PaletteRef::AttentionEmphasis => p.attention.emphasis.as_str(),
        PaletteRef::AttentionFg => p.attention.fg.as_str(),
        PaletteRef::SevereFg => p.severe.fg.as_str(),
        PaletteRef::CodemirrorActivelineBg => p.codemirror.activeline_bg.as_str(),
        PaletteRef::AnsiBlack => p.ansi.black.as_str(),
        PaletteRef::AnsiRed => p.ansi.red.as_str(),
        PaletteRef::AnsiGreen => p.ansi.green.as_str(),
        PaletteRef::AnsiYellow => p.ansi.yellow.as_str(),
        PaletteRef::AnsiBlue => p.ansi.blue.as_str(),
        PaletteRef::AnsiMagenta => p.ansi.magenta.as_str(),
        PaletteRef::AnsiCyan => p.ansi.cyan.as_str(),
        PaletteRef::AnsiWhite => p.ansi.white.as_str(),
    }
}

} // verus!
