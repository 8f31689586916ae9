//! The binary unit ladder for human-readable sizes.

use crate::item::DirectoryItem;
use crate::item::ItemView;
use crate::text::decimal;
use crate::text::decimal_string;
use vstd::prelude::*;
use vstd::string::*;

verus! {

pub const KIBIBYTE: u128 = 0x400;

pub const MEBIBYTE: u128 = 0x10_0000;

pub const GIBIBYTE: u128 = 0x4000_0000;

pub const TEBIBYTE: u128 = 0x100_0000_0000;

pub const PEBIBYTE: u128 = 0x4_0000_0000_0000;

pub const EXBIBYTE: u128 = 0x1000_0000_0000_0000;

pub const ZEBIBYTE: u128 = 0x40_0000_0000_0000_0000;

pub const YOBIBYTE: u128 = 0x1_0000_0000_0000_0000_0000;

/// A rung of the ladder. `Yobi` is the open-ended top rung: it takes every
/// size from 1024^8 upwards and is rendered with a marker after the unit.
#[derive(Debug, Clone, Copy, PartialEq, Eq, Structural)]
pub enum SizeUnit {
    Byte,
    Kibi,
    Mebi,
    Gibi,
    Tebi,
    Pebi,
    Exbi,
    Zebi,
    Yobi,
}

impl SizeUnit {
    /// Position on the ladder, counted from `Byte`.
    pub open spec fn rank(self) -> nat {
        match self {
            SizeUnit::Byte => 0,
            SizeUnit::Kibi => 1,
            SizeUnit::Mebi => 2,
            SizeUnit::Gibi => 3,
            SizeUnit::Tebi => 4,
            SizeUnit::Pebi => 5,
            SizeUnit::Exbi => 6,
            SizeUnit::Zebi => 7,
            SizeUnit::Yobi => 8,
        }
    }

    /// How many bytes one of this unit holds: 1024 to the power of its rank.
    pub open spec fn bytes(self) -> nat {
        match self {
            SizeUnit::Byte => 1,
            SizeUnit::Kibi => 0x400,
            SizeUnit::Mebi => 0x10_0000,
            SizeUnit::Gibi => 0x4000_0000,
            SizeUnit::Tebi => 0x100_0000_0000,
            SizeUnit::Pebi => 0x4_0000_0000_0000,
            SizeUnit::Exbi => 0x1000_0000_0000_0000,
            SizeUnit::Zebi => 0x40_0000_0000_0000_0000,
            SizeUnit::Yobi => 0x1_0000_0000_0000_0000_0000,
        }
    }

    /// The first size that no longer belongs to this unit; `None` for the
    /// top rung.
    pub open spec fn limit(self) -> Option<nat> {
        match self {
            SizeUnit::Byte => Some(SizeUnit::Kibi.bytes()),
            SizeUnit::Kibi => Some(SizeUnit::Mebi.bytes()),
            SizeUnit::Mebi => Some(SizeUnit::Gibi.bytes()),
            SizeUnit::Gibi => Some(SizeUnit::Tebi.bytes()),
            SizeUnit::Tebi => Some(SizeUnit::Pebi.bytes()),
            SizeUnit::Pebi => Some(SizeUnit::Exbi.bytes()),
            SizeUnit::Exbi => Some(SizeUnit::Zebi.bytes()),
            SizeUnit::Zebi => Some(SizeUnit::Yobi.bytes()),
            SizeUnit::Yobi => None,
        }
    }

    /// Whether `size` lies on this rung: at least one whole unit, and below
    /// the next unit up.
    pub open spec fn holds(self, size: nat) -> bool {
        self.bytes() <= size && match self.limit() {
            Some(next) => size < next,
            None => true,
        }
    }

    /// What is written after the number.
    pub open spec fn suffix(self) -> Seq<char> {
        match self {
            SizeUnit::Byte => "B"@,
            SizeUnit::Kibi => "KiB"@,
            SizeUnit::Mebi => "MiB"@,
            SizeUnit::Gibi => "GiB"@,
            SizeUnit::Tebi => "TiB"@,
            SizeUnit::Pebi => "PiB"@,
            SizeUnit::Exbi => "EiB"@,
            SizeUnit::Zebi => "ZiB"@,
            SizeUnit::Yobi => "YiB what... how?"@,
        }
    }

    /// The suffix as text.
    pub fn suffix_str(self) -> (r: &'static str)
        ensures
            r@ == self.suffix(),
    {
        match self {
            SizeUnit::Byte => "B",
            SizeUnit::Kibi => "KiB",
            SizeUnit::Mebi => "MiB",
            SizeUnit::Gibi => "GiB",
            SizeUnit::Tebi => "TiB",
            SizeUnit::Pebi => "PiB",
            SizeUnit::Exbi => "EiB",
            SizeUnit::Zebi => "ZiB",
            SizeUnit::Yobi => "YiB what... how?",
        }
    }
}

/// The unit in which `size` is shown: the largest one that `size` reaches.
/// A threshold value itself belongs to the unit it opens.
pub open spec fn unit_of(size: nat) -> SizeUnit {
    if size < SizeUnit::Kibi.bytes() {
        SizeUnit::Byte
    } else if size < SizeUnit::Mebi.bytes() {
        SizeUnit::Kibi
    } else if size < SizeUnit::Gibi.bytes() {
        SizeUnit::Mebi
    } else if size < SizeUnit::Tebi.bytes() {
        SizeUnit::Gibi
    } else if size < SizeUnit::Pebi.bytes() {
        SizeUnit::Tebi
    } else if size < SizeUnit::Exbi.bytes() {
        SizeUnit::Pebi
    } else if size < SizeUnit::Zebi.bytes() {
        SizeUnit::Exbi
    } else if size < SizeUnit::Yobi.bytes() {
        SizeUnit::Zebi
    } else {
        SizeUnit::Yobi
    }
}

/// How many whole units of `unit_of(size)` there are in `size`.
pub open spec fn unit_value(size: nat) -> nat {
    size / unit_of(size).bytes()
}

/// The human-readable rendering of `size`.
pub open spec fn unit_text(size: nat) -> Seq<char> {
    decimal(unit_value(size)) + unit_of(size).suffix()
}

/// Every size of at least one byte lies on exactly one rung of the ladder,
/// and that rung is the unit it is shown in.
pub proof fn law_unit_unique(size: nat, unit: SizeUnit)
    requires
        size >= 1,
    ensures
        unit.holds(size) <==> unit == unit_of(size),
{
}

/// The rungs are powers of 1024, each 1024 times the one below.
pub proof fn law_ladder_is_binary(unit: SizeUnit)
    ensures
        match unit.limit() {
            Some(next) => next == 1024 * unit.bytes(),
            None => unit == SizeUnit::Yobi,
        },
        SizeUnit::Byte.bytes() == 1,
{
}

/// Picks the unit for `size` and counts the whole units in it.
pub fn select_unit(size: u128) -> (r: (SizeUnit, u128))
    ensures
        r.0 == unit_of(size as nat),
        r.1 == unit_value(size as nat),
        size >= 1 ==> r.0.holds(size as nat),
{
    if size < KIBIBYTE {
        (SizeUnit::Byte, size)
    } else if size < MEBIBYTE {
        (SizeUnit::Kibi, size / KIBIBYTE)
    } else if size < GIBIBYTE {
        (SizeUnit::Mebi, size / MEBIBYTE)
    } else if size < TEBIBYTE {
        (SizeUnit::Gibi, size / GIBIBYTE)
    } else if size < PEBIBYTE {
        (SizeUnit::Tebi, size / TEBIBYTE)
    } else if size < EXBIBYTE {
        (SizeUnit::Pebi, size / PEBIBYTE)
    } else if size < ZEBIBYTE {
        (SizeUnit::Exbi, size / EXBIBYTE)
    } else if size < YOBIBYTE {
        (SizeUnit::Zebi, size / ZEBIBYTE)
    } else {
        (SizeUnit::Yobi, size / YOBIBYTE)
    }
}

impl ItemView {
    /// The size as it is shown: on the unit ladder when human-readable
    /// sizes are asked for, else as the plain number of bytes.
    pub open spec fn size_text(self) -> Seq<char> {
        if self.defaults.human_readable {
            unit_text(self.size)
        } else {
            decimal(self.size)
        }
    }
}

impl DirectoryItem<'_> {
    /// Renders `size` on the binary unit ladder: the whole number of units,
    /// directly followed by the unit.
    pub fn convert_units(size: u128) -> (r: String)
        ensures
            r@ == unit_text(size as nat),
    {
        let (unit, value) = select_unit(size);
        let mut out = decimal_string(value);
        out.append(unit.suffix_str());
        out
    }

    /// The size of the item as it is shown.
    pub fn size(&self) -> (r: String)
        ensures
            r@ == self@.size_text(),
    {
        if self.defaults.human_readable {
            return DirectoryItem::convert_units(self.size);
        }
        decimal_string(self.size)
    }
}

} // verus!
