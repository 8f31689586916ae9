//! Colour selection by kind of entry, and the text that names an entry.

use crate::item::DeviceType;
use crate::item::DirectoryItem;
use crate::item::ItemView;
use crate::text::byte_len;
use crate::text::byte_length;
use colored::Color;
use colored::Colorize;
use vstd::prelude::*;
use vstd::string::*;

verus! {

/// The bright colours that names are painted in.
#[derive(Debug, Clone, Copy, PartialEq, Eq, Structural)]
pub enum Hue {
    Cyan,
    Yellow,
    Magenta,
    Blue,
    Green,
}

/// What a name is painted with. `Plain` leaves the text as it is.
#[derive(Debug, Clone, Copy, PartialEq, Eq, Structural)]
pub enum ColourTag {
    Plain,
    Bright(Hue),
}

/// The colour of an entry: by kind when colouring is on, bright green for
/// a regular file that others may execute, plain otherwise.
pub open spec fn colour_for(kind: DeviceType, executable: bool, colourize: bool) -> ColourTag {
    if !colourize {
        ColourTag::Plain
    } else {
        match kind {
            DeviceType::Symlink => ColourTag::Bright(Hue::Cyan),
            DeviceType::BlockDevice => ColourTag::Bright(Hue::Yellow),
            DeviceType::CharDevice => ColourTag::Bright(Hue::Magenta),
            DeviceType::Fifo => ColourTag::Plain,
            DeviceType::Socket => ColourTag::Plain,
            DeviceType::Dir => ColourTag::Bright(Hue::Blue),
            DeviceType::File => if executable {
                ColourTag::Bright(Hue::Green)
            } else {
                ColourTag::Plain
            },
        }
    }
}

/// The escape character that opens a terminal control sequence.
pub open spec fn escape() -> char {
    '\u{1b}'
}

/// The control sequence that switches the terminal to a bright colour.
pub open spec fn colour_code(hue: Hue) -> Seq<char> {
    match hue {
        Hue::Cyan => "\u{1b}[96m"@,
        Hue::Yellow => "\u{1b}[93m"@,
        Hue::Magenta => "\u{1b}[95m"@,
        Hue::Blue => "\u{1b}[94m"@,
        Hue::Green => "\u{1b}[92m"@,
    }
}

/// The control sequence that switches all colouring off again.
pub open spec fn colour_reset() -> Seq<char> {
    "\u{1b}[0m"@
}

/// What is known of `painted` when it is `text` in the colour `hue`.
/// Whether the colour is applied is decided by the environment and by
/// whether the output is a terminal, as often as it is asked: a text that
/// holds no escape character comes back unchanged, or between the colour's
/// code and the reset, or followed by the reset alone. Of a text that
/// holds an escape character nothing is said.
pub open spec fn brightens(hue: Hue, text: Seq<char>, painted: Seq<char>) -> bool {
    !text.contains(escape()) ==> {
        ||| painted == text
        ||| painted == text + colour_reset()
        ||| painted == colour_code(hue) + text + colour_reset()
    }
}

/// What is known of `painted` when it is `text` painted with `tag`: a
/// plain tag leaves the text unchanged, a bright one colours it.
pub open spec fn paints(tag: ColourTag, text: Seq<char>, painted: Seq<char>) -> bool {
    match tag {
        ColourTag::Plain => painted == text,
        ColourTag::Bright(hue) => brightens(hue, text, painted),
    }
}

/// The separator between a symlink and what it resolves to.
pub open spec fn arrow() -> Seq<char> {
    " -> "@
}

impl ItemView {
    /// The colour tag of the item.
    pub open spec fn colour(self) -> ColourTag {
        colour_for(self.file_type, self.executable, self.defaults.colourize)
    }

    /// The text that is painted: the absolute path in long form, the bare
    /// name otherwise.
    pub open spec fn lead(self) -> Seq<char> {
        if self.defaults.long_form {
            self.path_abs
        } else {
            self.file_name
        }
    }

    /// The displayed path, given the painted lead: a symlink in long form
    /// is followed by an arrow and the unpainted path it resolves to.
    pub open spec fn display_path(self, painted: Seq<char>) -> Seq<char> {
        if self.file_type == DeviceType::Symlink && self.defaults.long_form {
            painted + arrow() + self.path_abs
        } else {
            painted
        }
    }

    /// Whether `text` is a displayed path of the item for some painting of
    /// its lead.
    pub open spec fn is_file_path(self, text: Seq<char>) -> bool {
        exists|painted: Seq<char>|
            #![trigger self.display_path(painted)]
            paints(self.colour(), self.lead(), painted) && text == self.display_path(painted)
    }

    /// The displayed path of the item when nothing is painted.
    pub open spec fn plain_path(self) -> Seq<char> {
        self.display_path(self.lead())
    }
}

/// An unpainted item has exactly one displayed path.
pub proof fn lemma_plain_file_path(item: ItemView, text: Seq<char>)
    requires
        item.colour() == ColourTag::Plain,
    ensures
        item.is_file_path(text) <==> text == item.plain_path(),
{
    if text == item.plain_path() {
        assert(paints(item.colour(), item.lead(), item.lead()) && text == item.display_path(
            item.lead(),
        ));
    }
}

/// Colours `text` through `colored`: `Colorize::color` for string slices
/// with the bright colour of that name, and the result as it displays. A
/// string with a foreground colour displays as its text when colouring is
/// off; when it is on, as the colour's code (`ESC [ 9n m`), the text, and
/// the reset (`ESC [ 0 m`), where every reset inside the text is followed
/// by the code again. Whether colouring is on is read from the
/// environment, the terminal and a process-wide override, once for the
/// decision to decorate and once more for the code, so the reset may
/// appear without the code.
#[verifier::external_body]
fn brighten(text: &str, hue: Hue) -> (r: String)
    ensures
        brightens(hue, text@, r@),
{
    let colour = match hue {
        Hue::Cyan => Color::BrightCyan,
        Hue::Yellow => Color::BrightYellow,
        Hue::Magenta => Color::BrightMagenta,
        Hue::Blue => Color::BrightBlue,
        Hue::Green => Color::BrightGreen,
    };
    text.color(colour).to_string()
}

/// Paints `text` with `tag`.
pub fn colourise(text: &str, tag: ColourTag) -> (r: String)
    ensures
        paints(tag, text@, r@),
{
    match tag {
        ColourTag::Plain => String::from_str(text),
        ColourTag::Bright(hue) => brighten(text, hue),
    }
}

impl DirectoryItem<'_> {
    /// Chooses the colour tag of the item.
    pub fn pick_colour(&self) -> (r: ColourTag)
        ensures
            r == self@.colour(),
    {
        if !self.defaults.colourize {
            return ColourTag::Plain;
        }
        match self.file_type {
            DeviceType::Symlink => ColourTag::Bright(Hue::Cyan),
            DeviceType::BlockDevice => ColourTag::Bright(Hue::Yellow),
            DeviceType::CharDevice => ColourTag::Bright(Hue::Magenta),
            DeviceType::Fifo => ColourTag::Plain,
            DeviceType::Socket => ColourTag::Plain,
            DeviceType::Dir => ColourTag::Bright(Hue::Blue),
            DeviceType::File => if self.executable {
                ColourTag::Bright(Hue::Green)
            } else {
                ColourTag::Plain
            },
        }
    }

    /// Length of the bare name in bytes.
    pub fn file_name_length(&self) -> (r: usize)
        ensures
            r == byte_len(self@.file_name),
    {
        byte_length(self.file_name.as_str())
    }

    /// The displayed path for an already painted lead.
    pub fn display_path(&self, display: &str) -> (r: String)
        ensures
            r@ == self@.display_path(display@),
    {
        let mut out = String::from_str(display);
        match self.file_type {
            DeviceType::Symlink => if self.defaults.long_form {
                out.append(" -> ");
                out.append(self.path_abs.as_str());
            },
            _ => {},
        }
        out
    }

    /// The displayed path: the lead, painted with the item's colour, and
    /// the symlink arrow where it applies.
    pub fn file_path(&self) -> (r: String)
        ensures
            self@.is_file_path(r@),
            self@.colour() == ColourTag::Plain ==> r@ == self@.plain_path(),
    {
        let display = if self.defaults.long_form {
            self.path_abs.as_str()
        } else {
            self.file_name.as_str()
        };
        let painted = colourise(display, self.pick_colour());
        let out = self.display_path(painted.as_str());
        assert(paints(self@.colour(), self@.lead(), painted@) && out@ == self@.display_path(
            painted@,
        ));
        out
    }
}

} // verus!
