//! Collecting the items of one listed path.

use crate::item::Defaults;
use crate::item::DirectoryItem;
use crate::item::EntrySource;
use crate::item::ExtractError;
use crate::item::SourceView;
use vstd::prelude::*;
use vstd::string::*;

verus! {

/// What was found at a path that is to be listed.
#[derive(Debug, Clone)]
pub enum Target {
    /// A directory, with its immediate children in the order in which they
    /// were enumerated.
    Directory(Vec<EntrySource>),
    /// Anything else: the entry itself.
    File(EntrySource),
}

/// The items of one listed path, and the entries that could not be turned
/// into items, both in the order of enumeration.
#[derive(Debug, Clone)]
pub struct Collected<'a> {
    pub items: Vec<DirectoryItem<'a>>,
    pub failures: Vec<ExtractError>,
}

/// The models of a sequence of entries, in order.
pub open spec fn source_views(entries: Seq<EntrySource>) -> Seq<SourceView> {
    Seq::new(entries.len(), |i: int| entries[i]@)
}

/// A name is hidden when it starts with a dot.
pub open spec fn is_hidden(name: Seq<char>) -> bool {
    name.len() > 0 && name[0] == '.'
}

/// Whether a child of a directory is listed: always when hidden entries
/// are asked for, else when its name is not hidden.
pub open spec fn is_listed(entry: SourceView, all: bool) -> bool {
    all || !is_hidden(entry.file_name)
}

/// The listed children of a directory, in their order.
pub open spec fn visible(entries: Seq<SourceView>, all: bool) -> Seq<SourceView>
    decreases entries.len(),
{
    if entries.len() == 0 {
        entries
    } else if is_listed(entries.last(), all) {
        visible(entries.drop_last(), all).push(entries.last())
    } else {
        visible(entries.drop_last(), all)
    }
}

/// The entries of which an item can be made, in their order.
pub open spec fn readable(entries: Seq<SourceView>) -> Seq<SourceView>
    decreases entries.len(),
{
    if entries.len() == 0 {
        entries
    } else if entries.last().extractable() {
        readable(entries.drop_last()).push(entries.last())
    } else {
        readable(entries.drop_last())
    }
}

/// The entries of which no item can be made, in their order.
pub open spec fn unreadable(entries: Seq<SourceView>) -> Seq<SourceView>
    decreases entries.len(),
{
    if entries.len() == 0 {
        entries
    } else if !entries.last().extractable() {
        unreadable(entries.drop_last()).push(entries.last())
    } else {
        unreadable(entries.drop_last())
    }
}

/// The entries that a target contributes to a listing: the listed children
/// of a directory, or the one entry of anything else.
pub open spec fn shown(target: Target, all: bool) -> Seq<SourceView> {
    match target {
        Target::Directory(entries) => visible(source_views(entries@), all),
        Target::File(entry) => seq![entry@],
    }
}

/// Whether `collected` is what `entries` yield: an item for each readable
/// entry and a failure for each unreadable one, each list in the order of
/// the entries.
pub open spec fn collected_from(
    collected: Collected,
    entries: Seq<SourceView>,
    defaults: Defaults,
) -> bool {
    &&& collected.items@.len() == readable(entries).len()
    &&& forall|j: int|
        0 <= j < readable(entries).len() ==> (#[trigger] collected.items@[j])@.extracted_from(
            readable(entries)[j],
            defaults,
        )
    &&& collected.failures@.len() == unreadable(entries).len()
    &&& forall|j: int|
        0 <= j < unreadable(entries).len() ==> (#[trigger] collected.failures@[j]).path@
            == unreadable(entries)[j].path
}

/// With hidden entries left out, nothing listed has a hidden name, and
/// every entry with another name is listed; with hidden entries asked for,
/// the listing is the whole directory in its order.
pub proof fn law_hidden_filter(entries: Seq<SourceView>)
    ensures
        forall|j: int|
            0 <= j < visible(entries, false).len() ==> !is_hidden(
                (#[trigger] visible(entries, false)[j]).file_name,
            ),
        forall|i: int|
            0 <= i < entries.len() && !is_hidden(entries[i].file_name) ==> visible(
                entries,
                false,
            ).contains(#[trigger] entries[i]),
        forall|j: int|
            0 <= j < visible(entries, false).len() ==> entries.contains(
                #[trigger] visible(entries, false)[j],
            ),
        visible(entries, true) == entries,
    decreases entries.len(),
{
    if entries.len() > 0 {
        let front = entries.drop_last();
        let last = entries.last();
        law_hidden_filter(front);
        let kept = visible(entries, false);
        assert forall|i: int|
            0 <= i < entries.len() && !is_hidden(entries[i].file_name) implies kept.contains(
            #[trigger] entries[i],
        ) by {
            if i == entries.len() - 1 {
                assert(kept[kept.len() - 1] == entries[i]);
            } else {
                assert(front[i] == entries[i]);
                assert(visible(front, false).contains(front[i]));
                let j = choose|j: int|
                    0 <= j < visible(front, false).len() && visible(front, false)[j] == front[i];
                assert(kept[j] == entries[i]);
            }
        }
        assert forall|j: int| 0 <= j < kept.len() implies entries.contains(#[trigger] kept[j]) by {
            if j < visible(front, false).len() {
                assert(visible(front, false)[j] == kept[j]);
                assert(front.contains(visible(front, false)[j]));
                let i = choose|i: int| 0 <= i < front.len() && front[i] == kept[j];
                assert(entries[i] == kept[j]);
            } else {
                assert(entries[entries.len() - 1] == kept[j]);
            }
        }
        assert(visible(entries, true) =~= entries);
    }
}

/// Every readable entry is one of the entries.
pub proof fn lemma_readable_within(entries: Seq<SourceView>)
    ensures
        forall|j: int|
            0 <= j < readable(entries).len() ==> entries.contains(#[trigger] readable(entries)[j])
                && readable(entries)[j].extractable(),
    decreases entries.len(),
{
    if entries.len() > 0 {
        let front = entries.drop_last();
        lemma_readable_within(front);
        assert forall|j: int| 0 <= j < readable(entries).len() implies entries.contains(
            #[trigger] readable(entries)[j],
        ) && readable(entries)[j].extractable() by {
            if j < readable(front).len() {
                assert(readable(front)[j] == readable(entries)[j]);
                assert(front.contains(readable(front)[j]));
                let i = choose|i: int| 0 <= i < front.len() && front[i] == readable(front)[j];
                assert(entries[i] == readable(entries)[j]);
            } else {
                assert(entries[entries.len() - 1] == readable(entries)[j]);
            }
        }
    }
}

/// Whatever is collected from a directory without asking for hidden
/// entries, no item in it has a hidden name.
pub proof fn law_no_hidden_items(collected: Collected, entries: Seq<SourceView>, defaults: Defaults)
    requires
        !defaults.all,
        collected_from(collected, visible(entries, false), defaults),
    ensures
        forall|j: int|
            0 <= j < collected.items@.len() ==> !is_hidden(
                (#[trigger] collected.items@[j])@.file_name,
            ),
{
    let listed = visible(entries, false);
    law_hidden_filter(entries);
    lemma_readable_within(listed);
    assert forall|j: int| 0 <= j < collected.items@.len() implies !is_hidden(
        (#[trigger] collected.items@[j])@.file_name,
    ) by {
        let source = readable(listed)[j];
        assert(collected.items@[j]@.extracted_from(source, defaults));
        assert(listed.contains(source));
        let k = choose|k: int| 0 <= k < listed.len() && listed[k] == source;
        assert(!is_hidden(listed[k].file_name));
    }
}

/// One more child is listed after the others, or not at all.
proof fn lemma_visible_push(entries: Seq<SourceView>, entry: SourceView, all: bool)
    ensures
        visible(entries.push(entry), all) == if is_listed(entry, all) {
            visible(entries, all).push(entry)
        } else {
            visible(entries, all)
        },
{
    assert(entries.push(entry).drop_last() =~= entries);
}

/// One more entry joins the readable or the unreadable ones, at the end.
proof fn lemma_readable_push(entries: Seq<SourceView>, entry: SourceView)
    ensures
        readable(entries.push(entry)) == if entry.extractable() {
            readable(entries).push(entry)
        } else {
            readable(entries)
        },
        unreadable(entries.push(entry)) == if !entry.extractable() {
            unreadable(entries).push(entry)
        } else {
            unreadable(entries)
        },
{
    assert(entries.push(entry).drop_last() =~= entries);
}

/// Whether a name starts with a dot.
pub fn hidden_name(name: &str) -> (r: bool)
    ensures
        r == is_hidden(name@),
{
    if name.is_empty() {
        false
    } else {
        name.get_char(0) == '.'
    }
}

/// Adds the item of `entry` to `collected`, or its failure.
fn collect_entry<'a>(
    collected: &mut Collected<'a>,
    entry: &EntrySource,
    defaults: &'a Defaults,
    Ghost(seen): Ghost<Seq<SourceView>>,
)
    requires
        collected_from(*old(collected), seen, *defaults),
    ensures
        collected_from(*final(collected), seen.push(entry@), *defaults),
{
    proof {
        lemma_readable_push(seen, entry@);
    }
    match DirectoryItem::from_source(entry, defaults) {
        Ok(item) => {
            collected.items.push(item);
        },
        Err(failure) => {
            collected.failures.push(failure);
        },
    }
}

/// Collects the items of one listed path: of a directory its immediate
/// children, without the hidden ones unless they are asked for; of
/// anything else the entry itself. Nothing is sorted.
pub fn list_contents<'a>(target: &Target, defaults: &'a Defaults) -> (r: Collected<'a>)
    ensures
        collected_from(r, shown(*target, defaults.all), *defaults),
{
    let mut outputs = Collected { items: Vec::new(), failures: Vec::new() };
    match target {
        Target::Directory(entries) => {
            let mut i: usize = 0;
            while i < entries.len()
                invariant
                    i <= entries.len(),
                    collected_from(
                        outputs,
                        visible(source_views(entries@).take(i as int), defaults.all),
                        *defaults,
                    ),
                decreases entries.len() - i,
            {
                let entry = &entries[i];
                proof {
                    let views = source_views(entries@);
                    assert(views.take(i + 1) =~= views.take(i as int).push(entry@));
                    lemma_visible_push(views.take(i as int), entry@, defaults.all);
                }
                if defaults.all || !hidden_name(entry.file_name.as_str()) {
                    collect_entry(
                        &mut outputs,
                        entry,
                        defaults,
                        Ghost(visible(source_views(entries@).take(i as int), defaults.all)),
                    );
                }
                i = i + 1;
            }
            proof {
                let views = source_views(entries@);
                assert(views.take(entries.len() as int) =~= views);
            }
        },
        Target::File(entry) => {
            proof {
                assert(seq![entry@] =~= Seq::<SourceView>::empty().push(entry@));
            }
            collect_entry(&mut outputs, entry, defaults, Ghost(Seq::empty()));
        },
    }
    outputs
}

} // verus!
