//! The data model: display configuration, what is read about one
//! filesystem entry, and the directory item built from it.

use vstd::prelude::*;

verus! {

/// Display preferences, fixed for a whole run and shared by all items.
#[derive(Debug, Clone, Copy, PartialEq, Eq, Structural)]
pub struct Defaults {
    /// Colour names by kind of entry.
    pub colourize: bool,
    /// Show sizes on the binary unit ladder instead of in plain bytes.
    pub human_readable: bool,
    /// One entry per line with its metadata, instead of a grid of names.
    pub long_form: bool,
    /// Include entries whose name starts with a dot.
    pub all: bool,
}

/// The kind of a filesystem entry.
#[derive(Debug, Clone, Copy, PartialEq, Eq, Structural)]
pub enum DeviceType {
    Dir,
    BlockDevice,
    CharDevice,
    Symlink,
    Socket,
    Fifo,
    File,
}

/// The file-type predicates of an entry, each as the operating system
/// answered it.
#[derive(Debug, Clone, Copy, PartialEq, Eq, Structural)]
pub struct FileTypeFlags {
    pub socket: bool,
    pub symlink: bool,
    pub char_device: bool,
    pub fifo: bool,
    pub block_device: bool,
    pub dir: bool,
}

/// What a `stat` of an entry yields.
#[derive(Debug, Clone, Copy, PartialEq, Eq, Structural)]
pub struct EntryMetadata {
    pub kind: FileTypeFlags,
    /// Raw mode bits.
    pub mode: u32,
    pub uid: u32,
    pub gid: u32,
    pub nlink: u64,
    /// Change time in seconds since the epoch.
    pub ctime: i64,
    pub size: u64,
}

/// Everything that was read about one entry before it is turned into a
/// [`DirectoryItem`]. A `None` records a read that failed.
#[derive(Debug, Clone)]
pub struct EntrySource {
    /// The path as it was given or enumerated.
    pub path: String,
    /// Final component of `path`.
    pub file_name: String,
    /// `None` when the entry could not be inspected.
    pub metadata: Option<EntryMetadata>,
    /// The canonical absolute path; `None` when it could not be resolved.
    pub canonical: Option<String>,
}

/// Mathematical model of an [`EntrySource`].
pub struct SourceView {
    pub path: Seq<char>,
    pub file_name: Seq<char>,
    pub metadata: Option<EntryMetadata>,
    pub canonical: Option<Seq<char>>,
}

impl View for EntrySource {
    type V = SourceView;

    open spec fn view(&self) -> SourceView {
        SourceView {
            path: self.path@,
            file_name: self.file_name@,
            metadata: self.metadata,
            canonical: match self.canonical {
                Some(p) => Some(p@),
                None => None,
            },
        }
    }
}

impl SourceView {
    /// An entry can be turned into an item when both its metadata and its
    /// canonical path were read.
    pub open spec fn extractable(self) -> bool {
        self.metadata is Some && self.canonical is Some
    }
}

/// An entry that could not be turned into an item, tagged with its path.
#[derive(Debug, Clone)]
pub struct ExtractError {
    pub path: String,
}

/// One filesystem entry, ready to be rendered.
#[derive(Debug, Clone)]
pub struct DirectoryItem<'a> {
    /// Canonical absolute path.
    pub path_abs: String,
    /// The path as it was reached.
    pub path_disp: String,
    /// Final path component.
    pub file_name: String,
    pub file_type: DeviceType,
    /// Change time in seconds since the epoch.
    pub time: i64,
    /// Number of hard links.
    pub nlink: u64,
    /// Raw mode bits.
    pub mode: u32,
    /// Name of the owning group, or its numeric id where it has no name.
    pub group: String,
    /// Size in bytes.
    pub size: u128,
    /// Name of the owning user, or its numeric id where it has no name.
    pub user: String,
    /// Whether users other than owner and group may execute the entry.
    pub executable: bool,
    pub defaults: &'a Defaults,
}

/// Mathematical model of a [`DirectoryItem`].
pub struct ItemView {
    pub path_abs: Seq<char>,
    pub path_disp: Seq<char>,
    pub file_name: Seq<char>,
    pub file_type: DeviceType,
    pub time: i64,
    pub nlink: u64,
    pub mode: u32,
    pub group: Seq<char>,
    pub size: nat,
    pub user: Seq<char>,
    pub executable: bool,
    pub defaults: Defaults,
}

impl<'a> View for DirectoryItem<'a> {
    type V = ItemView;

    open spec fn view(&self) -> ItemView {
        ItemView {
            path_abs: self.path_abs@,
            path_disp: self.path_disp@,
            file_name: self.file_name@,
            file_type: self.file_type,
            time: self.time,
            nlink: self.nlink,
            mode: self.mode,
            group: self.group@,
            size: self.size as nat,
            user: self.user@,
            executable: self.executable,
            defaults: *self.defaults,
        }
    }
}

/// The models of a sequence of items, in order.
pub open spec fn item_views(items: Seq<DirectoryItem>) -> Seq<ItemView> {
    Seq::new(items.len(), |i: int| items[i]@)
}

} // verus!
