//! Highlighting for the parts of a rendered launch.
//!
//! A palette says what is written before and after each kind of part. The
//! plain palette writes nothing; the ANSI palette writes the escape codes of
//! a colour terminal. Highlighting never changes the part itself.

use vstd::prelude::*;
use vstd::string::*;

verus! {

/// A colour of the terminal, or none: the colours of `yansi::Color` that
/// the palettes use, under its names.
#[derive(Clone, Copy, Debug, PartialEq, Eq, Structural)]
pub enum Tint {
    /// No colour: nothing is switched.
    Unset,
    Black,
    Green,
    Yellow,
    Cyan,
}

/// The digit by which an escape code names a colour.
pub open spec fn tint_code(tint: Tint) -> Seq<char> {
    match tint {
        Tint::Unset => Seq::empty(),
        Tint::Black => "0"@,
        Tint::Green => "2"@,
        Tint::Yellow => "3"@,
        Tint::Cyan => "6"@,
    }
}

/// The escape code that switches the two colours on: the background first,
/// as `4` and its digit, then the foreground, as `3` and its digit. Nothing
/// where both are unset.
pub open spec fn sgr_start(foreground: Tint, background: Tint) -> Seq<char> {
    if foreground is Unset && background is Unset {
        Seq::empty()
    } else if background is Unset {
        "\x1B["@ + "3"@ + tint_code(foreground) + "m"@
    } else if foreground is Unset {
        "\x1B["@ + "4"@ + tint_code(background) + "m"@
    } else {
        "\x1B["@ + "4"@ + tint_code(background) + ";"@ + "3"@ + tint_code(foreground) + "m"@
    }
}

/// The escape code that switches all colours off again. Nothing where both
/// are unset.
pub open spec fn sgr_end(foreground: Tint, background: Tint) -> Seq<char> {
    if foreground is Unset && background is Unset {
        Seq::empty()
    } else {
        "\x1B[0m"@
    }
}

/// Calls `yansi::Style::fmt_prefix` and `yansi::Style::fmt_suffix` on the
/// style that `yansi::Style::new` and `Style::bg` make of the two colours,
/// each handed over as the `yansi::Color` of its name.
///
/// Taken from `yansi`: the two write their codes whether or not painting is
/// switched on for the process; the prefix is `ESC [`, the background as `4`
/// and the colour's digit, a `;` between the two where both are set, the
/// foreground as `3` and the colour's digit, and `m`; the suffix is
/// `ESC [ 0 m`; a style with no colour writes neither.
#[verifier::external_body]
fn sgr_codes(foreground: Tint, background: Tint) -> (codes: (String, String))
    ensures
        codes.0@ == sgr_start(foreground, background),
        codes.1@ == sgr_end(foreground, background),
{
    let color = |tint: Tint| match tint {
        Tint::Unset => yansi::Color::Unset,
        Tint::Black => yansi::Color::Black,
        Tint::Green => yansi::Color::Green,
        Tint::Yellow => yansi::Color::Yellow,
        Tint::Cyan => yansi::Color::Cyan,
    };
    let style = yansi::Style::new(color(foreground)).bg(color(background));
    let mut codes = (String::new(), String::new());
    let _ = style.fmt_prefix(&mut codes.0);
    let _ = style.fmt_suffix(&mut codes.1);
    codes
}

/// What is written before and after a highlighted part.
#[derive(Debug)]
pub struct Accent {
    pub before: String,
    pub after: String,
}

/// An accent as two texts.
pub ghost struct AccentView {
    pub before: Seq<char>,
    pub after: Seq<char>,
}

impl View for Accent {
    type V = AccentView;

    open spec fn view(&self) -> AccentView {
        AccentView { before: self.before@, after: self.after@ }
    }
}

/// The part `text` with the accent around it.
pub open spec fn painted(accent: AccentView, text: Seq<char>) -> Seq<char> {
    accent.before + text + accent.after
}

/// The accent that writes nothing.
pub open spec fn no_accent() -> AccentView {
    AccentView { before: Seq::empty(), after: Seq::empty() }
}

/// The accent of a colour terminal for the two colours.
pub open spec fn ansi_accent(foreground: Tint, background: Tint) -> AccentView {
    AccentView {
        before: sgr_start(foreground, background),
        after: sgr_end(foreground, background),
    }
}

impl Accent {
    /// The accent that writes nothing.
    pub fn none() -> (accent: Accent)
        ensures
            accent@ == no_accent(),
    {
        Accent { before: String::new(), after: String::new() }
    }

    /// The accent that switches `foreground` and `background` on before a
    /// part and all colours off after it.
    pub fn ansi(foreground: Tint, background: Tint) -> (accent: Accent)
        ensures
            accent@ == ansi_accent(foreground, background),
    {
        let (before, after) = sgr_codes(foreground, background);
        Accent { before, after }
    }

    /// Appends `text` to `out` with this accent around it.
    pub fn paint(&self, out: &mut String, text: &str)
        ensures
            final(out)@ == old(out)@ + painted(self@, text@),
    {
        out.append(self.before.as_str());
        out.append(text);
        out.append(self.after.as_str());
    }
}

/// The accents of the four kinds of highlighted part.
#[derive(Debug)]
pub struct Palette {
    /// The word `Launch` of the first line, and the number and type of a
    /// mission.
    pub title: Accent,
    /// The words that name a line: `Liftoff:`, `Broadcasts:`, `Rocket:`,
    /// `Missions:`.
    pub label: Accent,
    /// The time to or since liftoff.
    pub countdown: Accent,
    /// The mark of a liftoff time that is not yet settled.
    pub badge: Accent,
}

/// A palette as four accents.
pub ghost struct PaletteView {
    pub title: AccentView,
    pub label: AccentView,
    pub countdown: AccentView,
    pub badge: AccentView,
}

impl View for Palette {
    type V = PaletteView;

    open spec fn view(&self) -> PaletteView {
        PaletteView {
            title: self.title@,
            label: self.label@,
            countdown: self.countdown@,
            badge: self.badge@,
        }
    }
}

/// The palette that writes nothing round any part.
pub open spec fn plain_palette() -> PaletteView {
    PaletteView {
        title: no_accent(),
        label: no_accent(),
        countdown: no_accent(),
        badge: no_accent(),
    }
}

/// The palette of a colour terminal: titles yellow, labels cyan, the
/// countdown green, the badge black on yellow.
pub open spec fn ansi_palette() -> PaletteView {
    PaletteView {
        title: ansi_accent(Tint::Yellow, Tint::Unset),
        label: ansi_accent(Tint::Cyan, Tint::Unset),
        countdown: ansi_accent(Tint::Green, Tint::Unset),
        badge: ansi_accent(Tint::Black, Tint::Yellow),
    }
}

impl Palette {
    /// The palette without highlighting.
    pub fn plain() -> (palette: Palette)
        ensures
            palette@ == plain_palette(),
    {
        Palette {
            title: Accent::none(),
            label: Accent::none(),
            countdown: Accent::none(),
            badge: Accent::none(),
        }
    }

    /// The palette of a colour terminal.
    pub fn ansi() -> (palette: Palette)
        ensures
            palette@ == ansi_palette(),
    {
        Palette {
            title: Accent::ansi(Tint::Yellow, Tint::Unset),
            label: Accent::ansi(Tint::Cyan, Tint::Unset),
            countdown: Accent::ansi(Tint::Green, Tint::Unset),
            badge: Accent::ansi(Tint::Black, Tint::Yellow),
        }
    }
}

} // verus!
