//! The long form: one row of aligned metadata per item.

use crate::colour::ColourTag;
use crate::columns::lemma_widest_bounds;
use crate::columns::measure;
use crate::columns::widest;
use crate::columns::widths_of;
use crate::columns::Column;
use crate::columns::ColumnWidths;
use crate::columns::Widths;
use crate::item::item_views;
use crate::item::DirectoryItem;
use crate::item::ItemView;
use crate::text::decimal;
use crate::text::decimal_string;
use crate::permissions::lemma_permission_text_len;
use crate::text::left_justified;
use crate::text::left_justify;
use crate::text::lemma_byte_len_at_least_len;
use crate::text::lemma_decimal_len;
use crate::text::lemma_digit_count_monotonic;
use crate::text::spaces;
use vstd::prelude::*;
use vstd::string::*;

verus! {

/// The blank between two fields of a row.
pub open spec fn gap() -> Seq<char> {
    seq![' ']
}

/// The end of a line of output.
pub open spec fn line_end() -> Seq<char> {
    seq!['\n']
}

impl ItemView {
    /// The link count, padded to its column.
    pub open spec fn links_field(self, widths: Widths) -> Seq<char> {
        left_justified(decimal(self.nlink as nat), widths.inodes)
    }

    /// The group name, padded to its column.
    pub open spec fn group_field(self, widths: Widths) -> Seq<char> {
        left_justified(self.group, widths.group)
    }

    /// The user name, padded to its column.
    pub open spec fn user_field(self, widths: Widths) -> Seq<char> {
        left_justified(self.user, widths.user)
    }

    /// The shown size, padded to its column.
    pub open spec fn size_field(self, widths: Widths) -> Seq<char> {
        left_justified(self.size_text(), widths.size)
    }

    /// The row of the item in a long listing: permissions, link count,
    /// group, user, size, change time and displayed path, separated by
    /// single blanks, the middle four left-justified in their columns.
    pub open spec fn long_row(self, widths: Widths, timestamp: Seq<char>, path: Seq<char>) -> Seq<
        char,
    > {
        self.permissions() + gap() + self.links_field(widths) + gap() + self.group_field(widths)
            + gap() + self.user_field(widths) + gap() + self.size_field(widths) + gap() + timestamp
            + gap() + path
    }

    /// Whether `row` is a row of the item for some painting of its path.
    /// An item whose change time cannot be rendered has no row.
    pub open spec fn is_long_row(self, widths: Widths, row: Seq<char>) -> bool {
        self.timestamp() is Some && exists|path: Seq<char>|
            #![trigger self.long_row(widths, self.timestamp()->0, path)]
            self.is_file_path(path) && row == self.long_row(widths, self.timestamp()->0, path)
    }

    /// The row of the item when nothing is painted.
    pub open spec fn plain_long_row(self, widths: Widths) -> Seq<char> {
        self.long_row(widths, self.timestamp()->0, self.plain_path())
    }
}

/// An unpainted item with a change time has exactly one row.
pub proof fn lemma_plain_long_row(item: ItemView, widths: Widths, row: Seq<char>)
    requires
        item.colour() == ColourTag::Plain,
        item.timestamp() is Some,
    ensures
        item.is_long_row(widths, row) <==> row == item.plain_long_row(widths),
{
    let ts = item.timestamp()->0;
    if item.is_long_row(widths, row) {
        let path = choose|path: Seq<char>|
            #![trigger item.long_row(widths, ts, path)]
            item.is_file_path(path) && row == item.long_row(widths, ts, path);
        crate::colour::lemma_plain_file_path(item, path);
    }
    if row == item.plain_long_row(widths) {
        crate::colour::lemma_plain_file_path(item, item.plain_path());
        assert(item.is_file_path(item.plain_path()) && row == item.long_row(
            widths,
            ts,
            item.plain_path(),
        ));
    }
}

/// The rows that could be rendered, each ended by a line break, in order.
pub open spec fn joined(rows: Seq<Option<Seq<char>>>) -> Seq<char>
    decreases rows.len(),
{
    if rows.len() == 0 {
        Seq::empty()
    } else {
        joined(rows.drop_last()) + match rows.last() {
            Some(row) => row + line_end(),
            None => Seq::empty(),
        }
    }
}

/// The models of a sequence of optional rows.
pub open spec fn row_views(rows: Seq<Option<String>>) -> Seq<Option<Seq<char>>> {
    Seq::new(
        rows.len(),
        |i: int|
            match rows[i] {
                Some(row) => Some(row@),
                None => None,
            },
    )
}

/// Whether `rows` are the rows of a long listing of `items`: one entry per
/// item, in order, a row where the change time can be rendered and
/// nothing where it cannot.
pub open spec fn are_long_rows(
    items: Seq<ItemView>,
    widths: Widths,
    rows: Seq<Option<Seq<char>>>,
) -> bool {
    &&& rows.len() == items.len()
    &&& forall|i: int|
        0 <= i < items.len() ==> match #[trigger] rows[i] {
            Some(row) => items[i].is_long_row(widths, row),
            None => items[i].timestamp() is None,
        }
}

/// The rows of a long listing of `items` when nothing is painted.
pub open spec fn plain_long_rows(items: Seq<ItemView>, widths: Widths) -> Seq<Option<Seq<char>>> {
    Seq::new(
        items.len(),
        |i: int|
            if items[i].timestamp() is Some {
                Some(items[i].plain_long_row(widths))
            } else {
                None
            },
    )
}

/// Whether no item is painted.
pub open spec fn all_plain(items: Seq<ItemView>) -> bool {
    forall|i: int| 0 <= i < items.len() ==> (#[trigger] items[i]).colour() == ColourTag::Plain
}

/// Unpainted items have exactly one long listing.
pub proof fn lemma_plain_long_rows(
    items: Seq<ItemView>,
    widths: Widths,
    rows: Seq<Option<Seq<char>>>,
)
    requires
        all_plain(items),
    ensures
        are_long_rows(items, widths, rows) <==> rows == plain_long_rows(items, widths),
{
    let plain = plain_long_rows(items, widths);
    if are_long_rows(items, widths, rows) {
        assert forall|i: int| 0 <= i < items.len() implies rows[i] == plain[i] by {
            if items[i].timestamp() is Some {
                lemma_plain_long_row(items[i], widths, rows[i]->0);
            }
        }
        assert(rows =~= plain);
    }
    if rows == plain {
        assert forall|i: int| 0 <= i < items.len() implies match #[trigger] rows[i] {
            Some(row) => items[i].is_long_row(widths, row),
            None => items[i].timestamp() is None,
        } by {
            if items[i].timestamp() is Some {
                lemma_plain_long_row(items[i], widths, rows[i]->0);
            }
        }
    }
}

/// In a long listing every row's link, group, user and size fields are
/// exactly as wide as the listing's columns: the text of the field first,
/// then nothing but spaces.
pub proof fn law_long_columns_aligned(items: Seq<ItemView>, i: int)
    requires
        0 <= i < items.len(),
    ensures
        items[i].links_field(widths_of(items)).len() == widths_of(items).inodes,
        items[i].group_field(widths_of(items)).len() == widths_of(items).group,
        items[i].user_field(widths_of(items)).len() == widths_of(items).user,
        items[i].size_field(widths_of(items)).len() == widths_of(items).size,
        items[i].links_field(widths_of(items)) == decimal(items[i].nlink as nat) + spaces(
            (widths_of(items).inodes - decimal(items[i].nlink as nat).len()) as nat,
        ),
        items[i].group_field(widths_of(items)) == items[i].group + spaces(
            (widths_of(items).group - items[i].group.len()) as nat,
        ),
        items[i].user_field(widths_of(items)) == items[i].user + spaces(
            (widths_of(items).user - items[i].user.len()) as nat,
        ),
        items[i].size_field(widths_of(items)) == items[i].size_text() + spaces(
            (widths_of(items).size - items[i].size_text().len()) as nat,
        ),
{
    let item = items[i];
    let widths = widths_of(items);
    lemma_widest_bounds(items, Column::Links);
    lemma_widest_bounds(items, Column::Group);
    lemma_widest_bounds(items, Column::User);
    lemma_widest_bounds(items, Column::Size);
    assert(measure(item, Column::Links) <= widest(items, Column::Links));
    assert(measure(item, Column::Group) <= widest(items, Column::Group));
    assert(measure(item, Column::User) <= widest(items, Column::User));
    assert(measure(item, Column::Size) <= widest(items, Column::Size));
    lemma_decimal_len(item.nlink as nat);
    lemma_digit_count_monotonic(item.nlink as nat, widest(items, Column::Links));
    lemma_byte_len_at_least_len(item.group);
    lemma_byte_len_at_least_len(item.user);
    lemma_byte_len_at_least_len(item.size_text());
    lemma_fits(decimal(item.nlink as nat), widths.inodes);
    lemma_fits(item.group, widths.group);
    lemma_fits(item.user, widths.user);
    lemma_fits(item.size_text(), widths.size);
}

/// A text that fits its column is padded to the column's width exactly.
proof fn lemma_fits(text: Seq<char>, width: nat)
    requires
        text.len() <= width,
    ensures
        left_justified(text, width).len() == width,
        left_justified(text, width) == text + spaces((width - text.len()) as nat),
{
    assert(left_justified(text, width) =~= text + spaces((width - text.len()) as nat));
}

/// The rows of a long listing line up: in every row the fields start at
/// the same columns, whatever the item.
pub proof fn law_long_rows_aligned(
    items: Seq<ItemView>,
    i: int,
    timestamp: Seq<char>,
    path: Seq<char>,
)
    requires
        0 <= i < items.len(),
    ensures
        ({
            let widths = widths_of(items);
            let row = items[i].long_row(widths, timestamp, path);
            let links_at: int = 11;
            let group_at = links_at + widths.inodes + 1;
            let user_at = group_at + widths.group + 1;
            let size_at = user_at + widths.user + 1;
            let time_at = size_at + widths.size + 1;
            let path_at = time_at + timestamp.len() + 1;
            &&& row.len() == path_at + path.len()
            &&& row.subrange(0, 10) == items[i].permissions()
            &&& row.subrange(links_at, group_at - 1) == items[i].links_field(widths)
            &&& row.subrange(group_at, user_at - 1) == items[i].group_field(widths)
            &&& row.subrange(user_at, size_at - 1) == items[i].user_field(widths)
            &&& row.subrange(size_at, time_at - 1) == items[i].size_field(widths)
            &&& row.subrange(time_at, path_at - 1) == timestamp
            &&& row.subrange(path_at, row.len() as int) == path
        }),
{
    let item = items[i];
    let widths = widths_of(items);
    law_long_columns_aligned(items, i);
    lemma_permission_text_len(item.file_type, item.mode);
    let row = item.long_row(widths, timestamp, path);
    let links_at: int = 11;
    let group_at = links_at + widths.inodes + 1;
    let user_at = group_at + widths.group + 1;
    let size_at = user_at + widths.user + 1;
    let time_at = size_at + widths.size + 1;
    let path_at = time_at + timestamp.len() + 1;
    assert(row.len() == path_at + path.len());
    assert(row.subrange(0, 10) =~= item.permissions());
    assert(row.subrange(links_at, group_at - 1) =~= item.links_field(widths));
    assert(row.subrange(group_at, user_at - 1) =~= item.group_field(widths));
    assert(row.subrange(user_at, size_at - 1) =~= item.user_field(widths));
    assert(row.subrange(size_at, time_at - 1) =~= item.size_field(widths));
    assert(row.subrange(time_at, path_at - 1) =~= timestamp);
    assert(row.subrange(path_at, row.len() as int) =~= path);
}

impl DirectoryItem<'_> {
    /// Builds the row of the item from its rendered change time and its
    /// displayed path.
    pub fn long_row(&self, widths: &ColumnWidths, timestamp: &str, path: &str) -> (r: String)
        ensures
            r@ == self@.long_row(widths@, timestamp@, path@),
    {
        proof {
            reveal_strlit(" ");
            assert(" "@ =~= gap());
        }
        let links = decimal_string(self.nlink as u128);
        let mut out = self.permissions_string();
        out.append(" ");
        out.append(left_justify(links.as_str(), widths.inodes).as_str());
        out.append(" ");
        out.append(left_justify(self.group.as_str(), widths.group).as_str());
        out.append(" ");
        out.append(left_justify(self.user.as_str(), widths.user).as_str());
        out.append(" ");
        out.append(left_justify(self.size().as_str(), widths.size).as_str());
        out.append(" ");
        out.append(timestamp);
        out.append(" ");
        out.append(path);
        out
    }

    /// The row of the item in a long listing with the given column widths;
    /// `None` exactly when its change time cannot be rendered.
    pub fn long_line(&self, widths: &ColumnWidths) -> (r: Option<String>)
        ensures
            match r {
                Some(row) => self@.is_long_row(widths@, row@),
                None => self@.timestamp() is None,
            },
    {
        match self.time() {
            Some(timestamp) => {
                let path = self.file_path();
                let row = self.long_row(widths, timestamp.as_str(), path.as_str());
                assert(self@.is_file_path(path@) && row@ == self@.long_row(
                    widths@,
                    self@.timestamp()->0,
                    path@,
                ));
                Some(row)
            },
            None => None,
        }
    }
}

/// The rows of a long listing of `items`, one entry per item.
pub fn long_rows(items: &Vec<DirectoryItem>, widths: &ColumnWidths) -> (r: Vec<Option<String>>)
    ensures
        are_long_rows(item_views(items@), widths@, row_views(r@)),
{
    let mut rows: Vec<Option<String>> = Vec::new();
    let mut i: usize = 0;
    while i < items.len()
        invariant
            i <= items.len(),
            rows@.len() == i,
            forall|j: int|
                0 <= j < i ==> match #[trigger] rows@[j] {
                    Some(row) => items@[j]@.is_long_row(widths@, row@),
                    None => items@[j]@.timestamp() is None,
                },
        decreases items.len() - i,
    {
        let row = items[i].long_line(widths);
        rows.push(row);
        i = i + 1;
    }
    proof {
        let views = row_views(rows@);
        assert forall|j: int| 0 <= j < items@.len() implies match #[trigger] views[j] {
            Some(row) => item_views(items@)[j].is_long_row(widths@, row),
            None => item_views(items@)[j].timestamp() is None,
        } by {
            let _ = rows@[j];
        }
    }
    rows
}

/// Writes the rendered rows out, one per line.
pub fn join_rows(rows: &Vec<Option<String>>) -> (r: String)
    ensures
        r@ == joined(row_views(rows@)),
{
    let mut out = String::new();
    let mut i: usize = 0;
    proof {
        reveal_strlit("\n");
        assert("\n"@ =~= line_end());
        assert(row_views(rows@).take(0) =~= Seq::empty());
    }
    while i < rows.len()
        invariant
            i <= rows.len(),
            out@ == joined(row_views(rows@).take(i as int)),
            "\n"@ == line_end(),
        decreases rows.len() - i,
    {
        proof {
            let views = row_views(rows@);
            assert(views.take(i + 1).drop_last() =~= views.take(i as int));
            assert(views.take(i + 1).last() == views[i as int]);
        }
        match &rows[i] {
            Some(row) => {
                out.append(row.as_str());
                out.append("\n");
                assert(out@ =~= joined(row_views(rows@).take(i as int)) + (row@ + line_end()));
            },
            None => {
                assert(out@ =~= joined(row_views(rows@).take(i as int)) + Seq::<char>::empty());
            },
        }
        i = i + 1;
    }
    assert(row_views(rows@).take(rows.len() as int) =~= row_views(rows@));
    out
}

} // verus!
