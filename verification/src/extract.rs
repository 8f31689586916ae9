//! Turning what was read about an entry into a directory item.

use crate::identity::found_name;
use crate::identity::lookup_group;
use crate::identity::lookup_user;
use crate::identity::owner_name;
use crate::identity::resolved_name;
use crate::item::Defaults;
use crate::item::DirectoryItem;
use crate::item::EntrySource;
use crate::item::ExtractError;
use crate::item::ItemView;
use crate::item::SourceView;
use crate::permissions::classify;
use nix::errno::Errno;
use vstd::prelude::*;

verus! {

/// Whether mode bits let users other than owner and group execute.
pub open spec fn other_may_execute(mode: u32) -> bool {
    mode % 2 == 1
}

/// The item that `source` describes when its owners are shown as `group`
/// and `user`. Meant for sources that are extractable.
pub open spec fn item_of(
    source: SourceView,
    group: Seq<char>,
    user: Seq<char>,
    defaults: Defaults,
) -> ItemView {
    let metadata = source.metadata->0;
    ItemView {
        path_abs: source.canonical->0,
        path_disp: source.path,
        file_name: source.file_name,
        file_type: classify(metadata.kind),
        time: metadata.ctime,
        nlink: metadata.nlink,
        mode: metadata.mode,
        group: group,
        size: metadata.size as nat,
        user: user,
        executable: other_may_execute(metadata.mode),
        defaults: defaults,
    }
}

impl ItemView {
    /// The executable flag agrees with the mode bits.
    pub open spec fn well_formed(self) -> bool {
        self.executable == other_may_execute(self.mode)
    }

    /// Whether the item is what `source` describes, under whatever names
    /// its owners were given.
    pub open spec fn extracted_from(self, source: SourceView, defaults: Defaults) -> bool {
        source.extractable() && self == item_of(source, self.group, self.user, defaults)
    }
}

impl<'a> DirectoryItem<'a> {
    /// Builds the item of `source` from the outcomes of looking its group
    /// and user up. Fails, naming the path, exactly when the metadata or
    /// the canonical path of the entry is missing.
    pub fn with_owners(
        source: &EntrySource,
        group: Result<Option<String>, Errno>,
        user: Result<Option<String>, Errno>,
        defaults: &'a Defaults,
    ) -> (r: Result<DirectoryItem<'a>, ExtractError>)
        ensures
            match r {
                Ok(item) => {
                    &&& source@.extractable()
                    &&& item@ == item_of(
                        source@,
                        resolved_name(found_name(group), source@.metadata->0.gid),
                        resolved_name(found_name(user), source@.metadata->0.uid),
                        *defaults,
                    )
                    &&& item@.well_formed()
                },
                Err(e) => !source@.extractable() && e.path@ == source@.path,
            },
    {
        let metadata = match source.metadata {
            Some(metadata) => metadata,
            None => {
                return Err(ExtractError { path: source.path.clone() });
            },
        };
        let path_abs = match &source.canonical {
            Some(path) => path.clone(),
            None => {
                return Err(ExtractError { path: source.path.clone() });
            },
        };
        let file_type = DirectoryItem::file_type(metadata.kind);
        let mode = metadata.mode;
        let mut executable = false;
        if mode & 0o001 == 0o1 {
            executable = true;
        }
        assert(executable == other_may_execute(mode)) by (bit_vector)
            requires
                executable == (mode & 0o001 == 0o1),
        ;
        Ok(
            DirectoryItem {
                file_type: file_type,
                file_name: source.file_name.clone(),
                time: metadata.ctime,
                nlink: metadata.nlink,
                mode: mode,
                group: owner_name(group, metadata.gid),
                size: metadata.size as u128,
                user: owner_name(user, metadata.uid),
                executable: executable,
                path_abs: path_abs,
                path_disp: source.path.clone(),
                defaults: defaults,
            },
        )
    }

    /// Builds the item of `source`, looking its group and user up in the
    /// system's databases; an id without a name is shown as a number.
    /// Fails, naming the path, exactly when the metadata or the canonical
    /// path of the entry is missing.
    pub fn from_source(source: &EntrySource, defaults: &'a Defaults) -> (r: Result<
        DirectoryItem<'a>,
        ExtractError,
    >)
        ensures
            match r {
                Ok(item) => item@.extracted_from(source@, *defaults) && item@.well_formed(),
                Err(e) => !source@.extractable() && e.path@ == source@.path,
            },
    {
        let metadata = match source.metadata {
            Some(metadata) => metadata,
            None => {
                return Err(ExtractError { path: source.path.clone() });
            },
        };
        let group = lookup_group(metadata.gid);
        let user = lookup_user(metadata.uid);
        DirectoryItem::with_owners(source, group, user, defaults)
    }
}

} // verus!
