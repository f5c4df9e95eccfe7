use vstd::prelude::*;

verus! {

/// The closed eight-value palette shared by the dark and bright tones.
#[derive(Clone, Copy, Debug, PartialEq, Eq, Structural)]
pub enum BaseColor {
    Black,
    Red,
    Green,
    Yellow,
    Blue,
    Magenta,
    Cyan,
    White,
}

/// Discriminant of [`Color`]: selects which member of its payload is active.
#[derive(Clone, Copy, Debug, PartialEq, Eq, Structural)]
pub enum ColorTag {
    Dark,
    Bright,
    Ansi,
}

/// Payload of [`Color`]: a base tone in one of two brightness axes, or a
/// raw 256-color ANSI value passed through unchanged.
#[derive(Clone, Copy, Debug, PartialEq, Eq, Structural)]
pub enum ColorData {
    Dark(BaseColor),
    Bright(BaseColor),
    Ansi(u8),
}

/// A palette color as it crosses the backend boundary: an explicit tag plus
/// the payload it selects. Only the payload member matching the tag may be
/// read; [`Color::wf`] says the two agree.
#[derive(Clone, Copy, Debug, PartialEq, Eq, Structural)]
pub struct Color {
    pub tag: ColorTag,
    pub data: ColorData,
}

/// A foreground/background bundle for one styling operation.
#[derive(Clone, Copy, Debug, PartialEq, Eq, Structural)]
pub struct ColorPair {
    pub fg: Color,
    pub bg: Color,
}

/// A concrete terminal color, the target of the palette mapping: the
/// canonical dark tones, their bright/grey variants, a raw ANSI value, or
/// the terminal's configured default (`Reset`).
#[derive(Clone, Copy, Debug, PartialEq, Eq, Structural)]
pub enum TermColor {
    Reset,
    Black,
    DarkGrey,
    Red,
    DarkRed,
    Green,
    DarkGreen,
    Yellow,
    DarkYellow,
    Blue,
    DarkBlue,
    Magenta,
    DarkMagenta,
    Cyan,
    DarkCyan,
    White,
    Grey,
}

/// The terminal color a dark-toned base color denotes: the canonical
/// eight-color values, with white mapping to grey.
pub open spec fn dark_term_color(base: BaseColor) -> TermColor {
    match base {
        BaseColor::Black => TermColor::Black,
        BaseColor::Red => TermColor::DarkRed,
        BaseColor::Green => TermColor::DarkGreen,
        BaseColor::Yellow => TermColor::DarkYellow,
        BaseColor::Blue => TermColor::DarkBlue,
        BaseColor::Magenta => TermColor::DarkMagenta,
        BaseColor::Cyan => TermColor::DarkCyan,
        BaseColor::White => TermColor::Grey,
    }
}

/// The terminal color a bright-toned base color denotes: the bright
/// variants, with black mapping to dark grey.
pub open spec fn bright_term_color(base: BaseColor) -> TermColor {
    match base {
        BaseColor::Black => TermColor::DarkGrey,
        BaseColor::Red => TermColor::Red,
        BaseColor::Green => TermColor::Green,
        BaseColor::Yellow => TermColor::Yellow,
        BaseColor::Blue => TermColor::Blue,
        BaseColor::Magenta => TermColor::Magenta,
        BaseColor::Cyan => TermColor::Cyan,
        BaseColor::White => TermColor::White,
    }
}

/// A resolved color for one styling instruction: either a named terminal
/// color or a raw ANSI value.
#[derive(Clone, Copy, Debug, PartialEq, Eq, Structural)]
pub enum ResolvedColor {
    Named(TermColor),
    Ansi(u8),
}

impl Color {
    /// The tag selects the payload member that is actually present.
    pub open spec fn wf(self) -> bool {
        match self.tag {
            ColorTag::Dark => self.data is Dark,
            ColorTag::Bright => self.data is Bright,
            ColorTag::Ansi => self.data is Ansi,
        }
    }

    /// A dark-toned palette color.
    pub fn dark(base: BaseColor) -> (c: Color)
        ensures
            c.wf(),
            c == (Color { tag: ColorTag::Dark, data: ColorData::Dark(base) }),
    {
        Color { tag: ColorTag::Dark, data: ColorData::Dark(base) }
    }

    /// A bright-toned palette color.
    pub fn bright(base: BaseColor) -> (c: Color)
        ensures
            c.wf(),
            c == (Color { tag: ColorTag::Bright, data: ColorData::Bright(base) }),
    {
        Color { tag: ColorTag::Bright, data: ColorData::Bright(base) }
    }

    /// A raw 256-color ANSI value.
    pub fn ansi(value: u8) -> (c: Color)
        ensures
            c.wf(),
            c == (Color { tag: ColorTag::Ansi, data: ColorData::Ansi(value) }),
    {
        Color { tag: ColorTag::Ansi, data: ColorData::Ansi(value) }
    }

    /// The concrete terminal color this palette color denotes.
    pub open spec fn resolved_spec(self) -> ResolvedColor {
        match self.data {
            ColorData::Dark(base) => ResolvedColor::Named(dark_term_color(base)),
            ColorData::Bright(base) => ResolvedColor::Named(bright_term_color(base)),
            ColorData::Ansi(value) => ResolvedColor::Ansi(value),
        }
    }

    /// Resolves this palette color to a concrete terminal color, reading the
    /// payload member that the tag selects.
    pub fn resolve(self) -> (r: ResolvedColor)
        requires
            self.wf(),
        ensures
            r == self.resolved_spec(),
    {
        match self.tag {
            ColorTag::Dark => {
                match self.data {
                    ColorData::Dark(base) => {
                        match base {
                            BaseColor::Black => ResolvedColor::Named(TermColor::Black),
                            BaseColor::Red => ResolvedColor::Named(TermColor::DarkRed),
                            BaseColor::Green => ResolvedColor::Named(TermColor::DarkGreen),
                            BaseColor::Yellow => ResolvedColor::Named(TermColor::DarkYellow),
                            BaseColor::Blue => ResolvedColor::Named(TermColor::DarkBlue),
                            BaseColor::Magenta => ResolvedColor::Named(TermColor::DarkMagenta),
                            BaseColor::Cyan => ResolvedColor::Named(TermColor::DarkCyan),
                            BaseColor::White => ResolvedColor::Named(TermColor::Grey),
                        }
                    },
                    _ => vstd::pervasive::unreached(),
                }
            },
            ColorTag::Bright => {
                match self.data {
                    ColorData::Bright(base) => {
                        match base {
                            BaseColor::Black => ResolvedColor::Named(TermColor::DarkGrey),
                            BaseColor::Red => ResolvedColor::Named(TermColor::Red),
                            BaseColor::Green => ResolvedColor::Named(TermColor::Green),
                            BaseColor::Yellow => ResolvedColor::Named(TermColor::Yellow),
                            BaseColor::Blue => ResolvedColor::Named(TermColor::Blue),
                            BaseColor::Magenta => ResolvedColor::Named(TermColor::Magenta),
                            BaseColor::Cyan => ResolvedColor::Named(TermColor::Cyan),
                            BaseColor::White => ResolvedColor::Named(TermColor::White),
                        }
                    },
                    _ => vstd::pervasive::unreached(),
                }
            },
            ColorTag::Ansi => {
                match self.data {
                    ColorData::Ansi(value) => ResolvedColor::Ansi(value),
                    _ => vstd::pervasive::unreached(),
                }
            },
        }
    }
}

impl ColorPair {
    /// Both sides carry the payload their tag selects.
    pub open spec fn wf(self) -> bool {
        self.fg.wf() && self.bg.wf()
    }
}

} // verus!
