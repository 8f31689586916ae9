//! Column metrics shared by all rows of a listing.

use crate::item::item_views;
use crate::item::DirectoryItem;
use crate::item::ItemView;
use crate::layout::max;
use crate::text::byte_len;
use crate::text::byte_length;
use crate::text::count_digits;
use crate::text::digit_count;
use vstd::prelude::*;

verus! {

/// The quantities of an item that decide a column's width.
#[derive(Debug, Clone, Copy, PartialEq, Eq, Structural)]
pub enum Column {
    /// Bytes in the bare name.
    Name,
    /// Bytes in the size as it is shown.
    Size,
    /// Bytes in the group name.
    Group,
    /// Bytes in the user name.
    User,
    /// The number of hard links itself.
    Links,
}

/// What an item contributes to a column.
pub open spec fn measure(item: ItemView, column: Column) -> nat {
    match column {
        Column::Name => byte_len(item.file_name),
        Column::Size => byte_len(item.size_text()),
        Column::Group => byte_len(item.group),
        Column::User => byte_len(item.user),
        Column::Links => item.nlink as nat,
    }
}

/// The largest measure of a column over all items; zero without items.
pub open spec fn widest(items: Seq<ItemView>, column: Column) -> nat
    decreases items.len(),
{
    if items.len() == 0 {
        0
    } else if measure(items.last(), column) > widest(items.drop_last(), column) {
        measure(items.last(), column)
    } else {
        widest(items.drop_last(), column)
    }
}

/// The widest measure is an upper bound, and some item attains it.
pub proof fn lemma_widest_bounds(items: Seq<ItemView>, column: Column)
    ensures
        forall|i: int|
            0 <= i < items.len() ==> measure(#[trigger] items[i], column) <= widest(items, column),
        items.len() > 0 ==> exists|i: int|
            0 <= i < items.len() && measure(#[trigger] items[i], column) == widest(items, column),
    decreases items.len(),
{
    if items.len() > 0 {
        let front = items.drop_last();
        lemma_widest_bounds(front, column);
        assert forall|i: int| 0 <= i < items.len() implies measure(#[trigger] items[i], column)
            <= widest(items, column) by {
            if i < front.len() {
                assert(front[i] == items[i]);
            }
        }
        if measure(items.last(), column) > widest(front, column) || front.len() == 0 {
            assert(measure(items[items.len() - 1], column) == widest(items, column));
        } else {
            let i = choose|i: int|
                0 <= i < front.len() && measure(#[trigger] front[i], column) == widest(
                    front,
                    column,
                );
            assert(measure(items[i], column) == widest(items, column));
        }
    }
}

/// The widths of the padded columns of the long form.
#[derive(Debug, Clone, Copy, PartialEq, Eq, Structural)]
pub struct ColumnWidths {
    pub size: usize,
    pub group: usize,
    pub user: usize,
    pub inodes: usize,
}

/// Mathematical model of [`ColumnWidths`].
pub struct Widths {
    pub size: nat,
    pub group: nat,
    pub user: nat,
    pub inodes: nat,
}

impl View for ColumnWidths {
    type V = Widths;

    open spec fn view(&self) -> Widths {
        Widths {
            size: self.size as nat,
            group: self.group as nat,
            user: self.user as nat,
            inodes: self.inodes as nat,
        }
    }
}

/// The column widths of a long listing: the longest shown size, group name
/// and user name, and the digits of the largest link count.
pub open spec fn widths_of(items: Seq<ItemView>) -> Widths {
    Widths {
        size: widest(items, Column::Size),
        group: widest(items, Column::Group),
        user: widest(items, Column::User),
        inodes: digit_count(widest(items, Column::Links)),
    }
}

/// The width of a grid cell: the longest bare name and one space.
pub open spec fn cell_width(items: Seq<ItemView>) -> nat {
    widest(items, Column::Name) + 1
}

proof fn lemma_widest_step(items: Seq<DirectoryItem>, i: int, column: Column)
    requires
        0 <= i < items.len(),
    ensures
        widest(item_views(items).take(i + 1), column) == if measure(items[i]@, column) > widest(
            item_views(items).take(i),
            column,
        ) {
            measure(items[i]@, column)
        } else {
            widest(item_views(items).take(i), column)
        },
{
    let views = item_views(items);
    assert(views.take(i + 1).drop_last() =~= views.take(i));
    assert(views.take(i + 1).last() == items[i]@);
}

/// Measures the columns of a long listing in one pass over the items.
pub fn column_widths(items: &Vec<DirectoryItem>) -> (r: ColumnWidths)
    ensures
        r@ == widths_of(item_views(items@)),
{
    let mut largest_file: usize = 0;
    let mut largest_group: usize = 0;
    let mut largest_user: usize = 0;
    let mut inodes: u64 = 0;
    let mut i: usize = 0;
    while i < items.len()
        invariant
            i <= items.len(),
            largest_file == widest(item_views(items@).take(i as int), Column::Size),
            largest_group == widest(item_views(items@).take(i as int), Column::Group),
            largest_user == widest(item_views(items@).take(i as int), Column::User),
            inodes == widest(item_views(items@).take(i as int), Column::Links),
        decreases items.len() - i,
    {
        let val = &items[i];
        proof {
            lemma_widest_step(items@, i as int, Column::Size);
            lemma_widest_step(items@, i as int, Column::Group);
            lemma_widest_step(items@, i as int, Column::User);
            lemma_widest_step(items@, i as int, Column::Links);
        }
        let size = val.size();
        let largest_file_t = byte_length(size.as_str());
        let largest_group_t = byte_length(val.group.as_str());
        let largest_user_t = byte_length(val.user.as_str());
        let inodes_t = val.nlink;
        largest_file = max(largest_file_t, largest_file);
        largest_group = max(largest_group_t, largest_group);
        largest_user = max(largest_user_t, largest_user);
        inodes = max(inodes_t, inodes);
        i = i + 1;
    }
    assert(item_views(items@).take(items.len() as int) =~= item_views(items@));
    ColumnWidths {
        size: largest_file,
        group: largest_group,
        user: largest_user,
        inodes: count_digits(inodes),
    }
}

/// The byte length of the longest bare name; `None` without items.
pub fn longest_name(items: &Vec<DirectoryItem>) -> (r: Option<usize>)
    ensures
        match r {
            Some(longest) => items@.len() > 0 && longest == widest(
                item_views(items@),
                Column::Name,
            ),
            None => items@.len() == 0,
        },
{
    if items.len() == 0 {
        return None;
    }
    let mut longest: usize = 0;
    let mut i: usize = 0;
    while i < items.len()
        invariant
            i <= items.len(),
            longest == widest(item_views(items@).take(i as int), Column::Name),
        decreases items.len() - i,
    {
        proof {
            lemma_widest_step(items@, i as int, Column::Name);
        }
        longest = max(items[i].file_name_length(), longest);
        i = i + 1;
    }
    assert(item_views(items@).take(items.len() as int) =~= item_views(items@));
    Some(longest)
}

} // verus!
