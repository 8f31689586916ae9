//! Kind detection and the permission column of the long form.

use crate::item::DeviceType;
use crate::item::DirectoryItem;
use crate::item::FileTypeFlags;
use crate::item::ItemView;
use vstd::prelude::*;
use vstd::string::*;

verus! {

/// The kind of an entry, decided by the first predicate that holds, in the
/// order socket, symlink, character device, fifo, block device, directory;
/// a regular file when none does.
pub open spec fn classify(flags: FileTypeFlags) -> DeviceType {
    if flags.socket {
        DeviceType::Socket
    } else if flags.symlink {
        DeviceType::Symlink
    } else if flags.char_device {
        DeviceType::CharDevice
    } else if flags.fifo {
        DeviceType::Fifo
    } else if flags.block_device {
        DeviceType::BlockDevice
    } else if flags.dir {
        DeviceType::Dir
    } else {
        DeviceType::File
    }
}

/// The character that stands for a kind at the head of a permission string.
pub open spec fn type_char(kind: DeviceType) -> char {
    match kind {
        DeviceType::Dir => 'd',
        DeviceType::BlockDevice => 'b',
        DeviceType::Symlink => 'l',
        DeviceType::CharDevice => 'c',
        DeviceType::Socket => 's',
        DeviceType::Fifo => 'p',
        DeviceType::File => '-',
    }
}

/// The `rwx` group of one octal permission digit.
pub open spec fn triplet(digit: nat) -> Seq<char> {
    if digit == 0 {
        seq!['-', '-', '-']
    } else if digit == 1 {
        seq!['-', '-', 'x']
    } else if digit == 2 {
        seq!['-', 'w', '-']
    } else if digit == 3 {
        seq!['-', 'w', 'x']
    } else if digit == 4 {
        seq!['r', '-', '-']
    } else if digit == 5 {
        seq!['r', '-', 'x']
    } else if digit == 6 {
        seq!['r', 'w', '-']
    } else {
        seq!['r', 'w', 'x']
    }
}

/// The octal digit that `value` stands for: a digit itself, or a digit in
/// the group or owner position of a mode with nothing else set. Any other
/// value counts as 7.
pub open spec fn triplet_digit(value: u32) -> nat {
    if value < 8 {
        value as nat
    } else if value < 64 && value % 8 == 0 {
        (value / 8) as nat
    } else if value < 512 && value % 64 == 0 {
        (value / 64) as nat
    } else {
        7
    }
}

/// The owner, group and other digits of a mode, in that order.
pub open spec fn mode_digits(mode: u32) -> (nat, nat, nat) {
    (((mode / 64) % 8) as nat, ((mode / 8) % 8) as nat, (mode % 8) as nat)
}

/// The ten-character permission string of an entry of kind `kind` with
/// mode bits `mode`.
pub open spec fn permission_text(kind: DeviceType, mode: u32) -> Seq<char> {
    seq![type_char(kind)] + triplet(mode_digits(mode).0) + triplet(mode_digits(mode).1) + triplet(
        mode_digits(mode).2,
    )
}

/// A permission string is the kind character and three groups of three.
pub proof fn lemma_permission_text_len(kind: DeviceType, mode: u32)
    ensures
        permission_text(kind, mode).len() == 10,
        permission_text(kind, mode)[0] == type_char(kind),
{
}

proof fn lemma_mode_masks(mode: u32)
    ensures
        triplet_digit(mode & 0o700) == mode_digits(mode).0,
        triplet_digit(mode & 0o070) == mode_digits(mode).1,
        triplet_digit(mode & 0o007) == mode_digits(mode).2,
{
    let owner = mode & 0o700;
    let group = mode & 0o070;
    let other = mode & 0o007;
    assert(owner < 512 && owner % 64 == 0 && owner / 64 == (mode / 64) % 8) by (bit_vector)
        requires
            owner == mode & 0o700,
    ;
    assert(group < 64 && group % 8 == 0 && group / 8 == (mode / 8) % 8) by (bit_vector)
        requires
            group == mode & 0o070,
    ;
    assert(other < 8 && other == mode % 8) by (bit_vector)
        requires
            other == mode & 0o007,
    ;
}

impl ItemView {
    /// The permission string of the item.
    pub open spec fn permissions(self) -> Seq<char> {
        permission_text(self.file_type, self.mode)
    }
}

impl DirectoryItem<'_> {
    /// Decides the kind of an entry from its file-type predicates.
    pub fn file_type(f_type: FileTypeFlags) -> (r: DeviceType)
        ensures
            r == classify(f_type),
    {
        if f_type.socket {
            DeviceType::Socket
        } else if f_type.symlink {
            DeviceType::Symlink
        } else if f_type.char_device {
            DeviceType::CharDevice
        } else if f_type.fifo {
            DeviceType::Fifo
        } else if f_type.block_device {
            DeviceType::BlockDevice
        } else if f_type.dir {
            DeviceType::Dir
        } else {
            DeviceType::File
        }
    }

    /// The character that heads the permission string.
    pub fn permission_char(&self) -> (r: char)
        ensures
            r == type_char(self.file_type),
    {
        match self.file_type {
            DeviceType::Dir => 'd',
            DeviceType::BlockDevice => 'b',
            DeviceType::Symlink => 'l',
            DeviceType::CharDevice => 'c',
            DeviceType::Socket => 's',
            DeviceType::Fifo => 'p',
            DeviceType::File => '-',
        }
    }

    /// The `rwx` group for one permission digit, given either as the digit
    /// or as the digit in place within a mode.
    pub fn permissions_triplet(value: u32) -> (r: &'static str)
        ensures
            r@ == triplet(triplet_digit(value)),
    {
        proof {
            reveal_strlit("---");
            reveal_strlit("--x");
            reveal_strlit("-w-");
            reveal_strlit("-wx");
            reveal_strlit("r--");
            reveal_strlit("r-x");
            reveal_strlit("rw-");
            reveal_strlit("rwx");
        }
        let r = match value {
            0 => "---",
            0o1 | 0o10 | 0o100 => "--x",
            0o2 | 0o20 | 0o200 => "-w-",
            0o3 | 0o30 | 0o300 => "-wx",
            0o4 | 0o40 | 0o400 => "r--",
            0o5 | 0o50 | 0o500 => "r-x",
            0o6 | 0o60 | 0o600 => "rw-",
            _ => "rwx",
        };
        assert(r@ =~= triplet(triplet_digit(value)));
        r
    }

    /// The permission string: kind character, then the owner, group and
    /// other groups.
    pub fn permissions_string(&self) -> (r: String)
        ensures
            r@ == self@.permissions(),
            r@.len() == 10,
    {
        let system = self.mode & 0o700;
        let group = self.mode & 0o070;
        let user_ = self.mode & 0o007;
        proof {
            lemma_mode_masks(self.mode);
        }
        let mut out = String::from_str(kind_str(self.file_type));
        out.append(Self::permissions_triplet(system));
        out.append(Self::permissions_triplet(group));
        out.append(Self::permissions_triplet(user_));
        out
    }
}

/// The kind character as a one-character text.
fn kind_str(kind: DeviceType) -> (r: &'static str)
    ensures
        r@ == seq![type_char(kind)],
{
    proof {
        reveal_strlit("d");
        reveal_strlit("b");
        reveal_strlit("l");
        reveal_strlit("c");
        reveal_strlit("s");
        reveal_strlit("p");
        reveal_strlit("-");
    }
    let r = match kind {
        DeviceType::Dir => "d",
        DeviceType::BlockDevice => "b",
        DeviceType::Symlink => "l",
        DeviceType::CharDevice => "c",
        DeviceType::Socket => "s",
        DeviceType::Fifo => "p",
        DeviceType::File => "-",
    };
    assert(r@ =~= seq![type_char(kind)]);
    r
}

} // verus!
