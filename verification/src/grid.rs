//! The short form: bare names packed into rows of equally wide cells.

use crate::colour::lemma_plain_file_path;
use crate::colour::ColourTag;
use crate::columns::lemma_widest_bounds;
use crate::columns::widest;
use crate::columns::Column;
use crate::item::item_views;
use crate::item::DirectoryItem;
use crate::item::ItemView;
use crate::table::all_plain;
use crate::table::line_end;
use crate::text::byte_len;
use crate::text::spaces;
use crate::text::spaces_string;
use vstd::prelude::*;
use vstd::string::*;

verus! {

impl ItemView {
    /// The grid cell of the item: its displayed path, then as many spaces
    /// as the bare name is shorter in bytes than `length`.
    pub open spec fn short_cell(self, path: Seq<char>, length: nat) -> Seq<char> {
        path + spaces((length - byte_len(self.file_name)) as nat)
    }

    /// Whether `cell` is a grid cell of the item for some painting of its
    /// path.
    pub open spec fn is_short_cell(self, length: nat, cell: Seq<char>) -> bool {
        exists|path: Seq<char>|
            #![trigger self.short_cell(path, length)]
            self.is_file_path(path) && cell == self.short_cell(path, length)
    }

    /// The grid cell of the item when nothing is painted.
    pub open spec fn plain_short_cell(self, length: nat) -> Seq<char> {
        self.short_cell(self.plain_path(), length)
    }
}

/// An unpainted item has exactly one grid cell.
pub proof fn lemma_plain_short_cell(item: ItemView, length: nat, cell: Seq<char>)
    requires
        item.colour() == ColourTag::Plain,
    ensures
        item.is_short_cell(length, cell) <==> cell == item.plain_short_cell(length),
{
    if item.is_short_cell(length, cell) {
        let path = choose|path: Seq<char>|
            #![trigger item.short_cell(path, length)]
            item.is_file_path(path) && cell == item.short_cell(path, length);
        lemma_plain_file_path(item, path);
    }
    if cell == item.plain_short_cell(length) {
        lemma_plain_file_path(item, item.plain_path());
        assert(item.is_file_path(item.plain_path()) && cell == item.short_cell(
            item.plain_path(),
            length,
        ));
    }
}

/// The texts of a sequence of strings.
pub open spec fn texts(strings: Seq<String>) -> Seq<Seq<char>> {
    Seq::new(strings.len(), |i: int| strings[i]@)
}

/// Whether `cells` are the grid cells of `items`, one per item, in order.
pub open spec fn are_short_cells(items: Seq<ItemView>, length: nat, cells: Seq<Seq<char>>) -> bool {
    &&& cells.len() == items.len()
    &&& forall|i: int| 0 <= i < items.len() ==> items[i].is_short_cell(length, #[trigger] cells[i])
}

/// The grid cells of `items` when nothing is painted.
pub open spec fn plain_short_cells(items: Seq<ItemView>, length: nat) -> Seq<Seq<char>> {
    Seq::new(items.len(), |i: int| items[i].plain_short_cell(length))
}

/// Unpainted items have exactly one sequence of grid cells.
pub proof fn lemma_plain_short_cells(items: Seq<ItemView>, length: nat, cells: Seq<Seq<char>>)
    requires
        all_plain(items),
    ensures
        are_short_cells(items, length, cells) <==> cells == plain_short_cells(items, length),
{
    let plain = plain_short_cells(items, length);
    if are_short_cells(items, length, cells) {
        assert forall|i: int| 0 <= i < items.len() implies cells[i] == plain[i] by {
            lemma_plain_short_cell(items[i], length, cells[i]);
        }
        assert(cells =~= plain);
    }
    if cells == plain {
        assert forall|i: int| 0 <= i < items.len() implies items[i].is_short_cell(
            length,
            #[trigger] cells[i],
        ) by {
            lemma_plain_short_cell(items[i], length, cells[i]);
        }
    }
}

/// The cells one after another, with a line break after every
/// `per_row`-th cell.
pub open spec fn grid_rows(cells: Seq<Seq<char>>, per_row: nat) -> Seq<char>
    decreases cells.len(),
{
    if cells.len() == 0 {
        Seq::empty()
    } else {
        grid_rows(cells.drop_last(), per_row) + cells.last() + if cells.len() % per_row == 0 {
            line_end()
        } else {
            Seq::empty()
        }
    }
}

/// The grid: the rows of cells, and a closing line break when the last
/// row is not full.
pub open spec fn grid_text(cells: Seq<Seq<char>>, per_row: nat) -> Seq<char> {
    grid_rows(cells, per_row) + if cells.len() % per_row != 0 {
        line_end()
    } else {
        Seq::empty()
    }
}

impl DirectoryItem<'_> {
    /// Pads an already rendered path to a grid cell of `length` columns.
    /// The padding is counted on the bare name, not on the path, which may
    /// hold colour codes.
    pub fn pad_path(&self, path: &str, length: usize) -> (r: String)
        requires
            byte_len(self@.file_name) <= length,
        ensures
            r@ == self@.short_cell(path@, length as nat),
    {
        let mut out = String::from_str(path);
        let pad = spaces_string(length - self.file_name_length());
        out.append(pad.as_str());
        out
    }
}

/// The grid cell of `input`: its displayed path, padded with spaces as far
/// as its bare name is shorter than `length`.
pub fn pad_value(input: &DirectoryItem, length: usize) -> (r: String)
    requires
        byte_len(input@.file_name) <= length,
    ensures
        input@.is_short_cell(length as nat, r@),
        input@.colour() == ColourTag::Plain ==> r@ == input@.plain_short_cell(length as nat),
{
    let path = input.file_path();
    let cell = input.pad_path(path.as_str(), length);
    assert(input@.is_file_path(path@) && cell@ == input@.short_cell(path@, length as nat));
    cell
}

/// The grid cells of `items`, each `length` columns wide.
pub fn short_cells(items: &Vec<DirectoryItem>, length: usize) -> (r: Vec<String>)
    requires
        widest(item_views(items@), Column::Name) <= length,
    ensures
        are_short_cells(item_views(items@), length as nat, texts(r@)),
{
    let mut cells: Vec<String> = Vec::new();
    let mut i: usize = 0;
    proof {
        lemma_widest_bounds(item_views(items@), Column::Name);
    }
    while i < items.len()
        invariant
            i <= items.len(),
            cells@.len() == i,
            forall|j: int|
                0 <= j < items@.len() ==> byte_len((#[trigger] item_views(items@)[j]).file_name)
                    <= length,
            forall|j: int|
                0 <= j < i ==> items@[j]@.is_short_cell(length as nat, (#[trigger] cells@[j])@),
        decreases items.len() - i,
    {
        assert(item_views(items@)[i as int] == items@[i as int]@);
        let cell = pad_value(&items[i], length);
        cells.push(cell);
        i = i + 1;
    }
    proof {
        let views = texts(cells@);
        assert forall|j: int| 0 <= j < items@.len() implies item_views(items@)[j].is_short_cell(
            length as nat,
            #[trigger] views[j],
        ) by {
            let _ = cells@[j];
        }
    }
    cells
}

/// Writes the cells out in rows of `files_per_row`.
pub fn grid(cells: &Vec<String>, files_per_row: usize) -> (r: String)
    requires
        files_per_row >= 1,
    ensures
        r@ == grid_text(texts(cells@), files_per_row as nat),
{
    let mut out = String::new();
    let mut idx: usize = 0;
    proof {
        reveal_strlit("\n");
        assert("\n"@ =~= line_end());
        assert(texts(cells@).take(0) =~= Seq::empty());
    }
    while idx < cells.len()
        invariant
            idx <= cells.len(),
            files_per_row >= 1,
            out@ == grid_rows(texts(cells@).take(idx as int), files_per_row as nat),
            "\n"@ == line_end(),
        decreases cells.len() - idx,
    {
        proof {
            let views = texts(cells@);
            assert(views.take(idx + 1).drop_last() =~= views.take(idx as int));
            assert(views.take(idx + 1).last() == cells@[idx as int]@);
        }
        out.append(cells[idx].as_str());
        idx = idx + 1;
        if idx % files_per_row == 0 {
            out.append("\n");
        }
        assert(out@ =~= grid_rows(texts(cells@).take(idx as int), files_per_row as nat));
    }
    assert(texts(cells@).take(cells.len() as int) =~= texts(cells@));
    if cells.len() % files_per_row != 0 {
        out.append("\n");
    }
    out
}

} // verus!
