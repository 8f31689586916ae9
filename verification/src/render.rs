//! Rendering a collected listing in the short or the long form.

use crate::columns::cell_width;
use crate::columns::column_widths;
use crate::columns::longest_name;
use crate::columns::widest;
use crate::columns::widths_of;
use crate::columns::Column;
use crate::grid::are_short_cells;
use crate::grid::grid;
use crate::grid::grid_text;
use crate::grid::lemma_plain_short_cells;
use crate::grid::plain_short_cells;
use crate::grid::short_cells;
use crate::grid::texts;
use crate::item::item_views;
use crate::item::Defaults;
use crate::item::DirectoryItem;
use crate::item::ItemView;
use crate::layout::calculate_column_width;
use crate::layout::spec_column_width;
use crate::table::all_plain;
use crate::table::are_long_rows;
use crate::table::join_rows;
use crate::table::joined;
use crate::table::lemma_plain_long_rows;
use crate::table::long_rows;
use crate::table::plain_long_rows;
use crate::table::row_views;
use crate::terminal::terminal_dimensions;
use vstd::prelude::*;

verus! {

/// Why no listing could be laid out.
#[derive(Debug, Clone, Copy, PartialEq, Eq, Structural)]
pub enum LayoutError {
    /// A grid was asked for, there is something to show, and the width of
    /// the terminal is not known.
    TerminalUnavailable,
}

/// A rendered listing.
#[derive(Debug, Clone)]
pub struct Listing {
    /// What goes to the standard output.
    pub text: String,
    /// The positions of the items that have no row because their change
    /// time lies outside the calendar, in ascending order.
    pub unrendered: Vec<usize>,
}

/// Mathematical model of a [`Listing`].
pub struct ListingView {
    pub text: Seq<char>,
    pub unrendered: Seq<usize>,
}

impl View for Listing {
    type V = ListingView;

    open spec fn view(&self) -> ListingView {
        ListingView { text: self.text@, unrendered: self.unrendered@ }
    }
}

/// The model of the outcome of a rendering.
pub open spec fn outcome(result: Result<Listing, LayoutError>) -> Result<
    ListingView,
    LayoutError,
> {
    match result {
        Ok(listing) => Ok(listing@),
        Err(e) => Err(e),
    }
}

/// The positions of the items whose change time cannot be rendered, in
/// ascending order.
pub open spec fn untimed(items: Seq<ItemView>) -> Seq<usize>
    decreases items.len(),
{
    if items.len() == 0 {
        Seq::empty()
    } else if items.last().timestamp() is None {
        untimed(items.drop_last()).push((items.len() - 1) as usize)
    } else {
        untimed(items.drop_last())
    }
}

/// Whether `text` is a grid of `items` on a terminal of `terminal_width`
/// columns, for some painting of their names: every cell as wide as the
/// longest bare name and one space, and as many cells per row as the
/// terminal width allows.
pub open spec fn is_short_listing(
    items: Seq<ItemView>,
    terminal_width: nat,
    text: Seq<char>,
) -> bool {
    exists|cells: Seq<Seq<char>>|
        #![trigger are_short_cells(items, cell_width(items), cells)]
        are_short_cells(items, cell_width(items), cells) && text == grid_text(
            cells,
            spec_column_width(terminal_width, cell_width(items)),
        )
}

/// The grid of `items` when nothing is painted.
pub open spec fn plain_short_listing(items: Seq<ItemView>, terminal_width: nat) -> Seq<char> {
    grid_text(
        plain_short_cells(items, cell_width(items)),
        spec_column_width(terminal_width, cell_width(items)),
    )
}

/// Whether `listing` is a long listing of `items`, for some painting of
/// their paths: a line for every item whose change time can be rendered,
/// with the columns as wide as the widest entry, and the positions of the
/// other items.
pub open spec fn is_long_listing(items: Seq<ItemView>, listing: ListingView) -> bool {
    &&& listing.unrendered == untimed(items)
    &&& exists|rows: Seq<Option<Seq<char>>>|
        #![trigger are_long_rows(items, widths_of(items), rows)]
        are_long_rows(items, widths_of(items), rows) && listing.text == joined(rows)
}

/// The long listing of `items` when nothing is painted.
pub open spec fn plain_long_listing(items: Seq<ItemView>) -> ListingView {
    ListingView {
        text: joined(plain_long_rows(items, widths_of(items))),
        unrendered: untimed(items),
    }
}

/// Whether `result` is an outcome of rendering `items` under `defaults`
/// when the terminal reports `dimensions`. The long form needs no
/// terminal; neither does a grid of nothing, which is empty. A grid of
/// something fails exactly when the terminal reports no dimensions.
pub open spec fn is_rendering(
    items: Seq<ItemView>,
    defaults: Defaults,
    dimensions: Option<(usize, usize)>,
    result: Result<ListingView, LayoutError>,
) -> bool {
    if defaults.long_form {
        result matches Ok(listing) && is_long_listing(items, listing)
    } else if items.len() == 0 {
        result == Ok::<ListingView, LayoutError>(
            ListingView { text: Seq::empty(), unrendered: Seq::empty() },
        )
    } else {
        match dimensions {
            Some(size) => result matches Ok(listing) && is_short_listing(
                items,
                size.0 as nat,
                listing.text,
            ) && listing.unrendered == Seq::<usize>::empty(),
            None => result == Err::<ListingView, LayoutError>(LayoutError::TerminalUnavailable),
        }
    }
}

/// The outcome of rendering `items` when nothing is painted.
pub open spec fn plain_rendering(
    items: Seq<ItemView>,
    defaults: Defaults,
    dimensions: Option<(usize, usize)>,
) -> Result<ListingView, LayoutError> {
    if defaults.long_form {
        Ok(plain_long_listing(items))
    } else if items.len() == 0 {
        Ok(ListingView { text: Seq::empty(), unrendered: Seq::empty() })
    } else {
        match dimensions {
            Some(size) => Ok(
                ListingView {
                    text: plain_short_listing(items, size.0 as nat),
                    unrendered: Seq::empty(),
                },
            ),
            None => Err(LayoutError::TerminalUnavailable),
        }
    }
}

/// Unpainted items have exactly one rendering.
pub proof fn lemma_plain_rendering(
    items: Seq<ItemView>,
    defaults: Defaults,
    dimensions: Option<(usize, usize)>,
    result: Result<ListingView, LayoutError>,
)
    requires
        all_plain(items),
    ensures
        is_rendering(items, defaults, dimensions, result) <==> result == plain_rendering(
            items,
            defaults,
            dimensions,
        ),
{
    let plain = plain_rendering(items, defaults, dimensions);
    if defaults.long_form {
        let widths = widths_of(items);
        if is_rendering(items, defaults, dimensions, result) {
            let listing = result->Ok_0;
            let rows = choose|rows: Seq<Option<Seq<char>>>|
                #![trigger are_long_rows(items, widths, rows)]
                are_long_rows(items, widths, rows) && listing.text == joined(rows);
            lemma_plain_long_rows(items, widths, rows);
        }
        if result == plain {
            lemma_plain_long_rows(items, widths, plain_long_rows(items, widths));
            assert(are_long_rows(items, widths, plain_long_rows(items, widths)));
        }
    } else if items.len() > 0 && dimensions is Some {
        let length = cell_width(items);
        let size = dimensions->0;
        if is_rendering(items, defaults, dimensions, result) {
            let listing = result->Ok_0;
            let cells = choose|cells: Seq<Seq<char>>|
                #![trigger are_short_cells(items, length, cells)]
                are_short_cells(items, length, cells) && listing.text == grid_text(
                    cells,
                    spec_column_width(size.0 as nat, length),
                );
            lemma_plain_short_cells(items, length, cells);
            assert(listing.unrendered =~= Seq::<usize>::empty());
        }
        if result == plain {
            lemma_plain_short_cells(items, length, plain_short_cells(items, length));
            assert(are_short_cells(items, length, plain_short_cells(items, length)));
        }
    }
}

/// Rendering the same unpainted items twice under the same configuration
/// and on the same terminal gives the same outcome, character for
/// character.
pub proof fn law_rendering_repeatable(
    items: Seq<ItemView>,
    defaults: Defaults,
    dimensions: Option<(usize, usize)>,
    first: Result<ListingView, LayoutError>,
    second: Result<ListingView, LayoutError>,
)
    requires
        all_plain(items),
        is_rendering(items, defaults, dimensions, first),
        is_rendering(items, defaults, dimensions, second),
    ensures
        first == second,
{
    lemma_plain_rendering(items, defaults, dimensions, first);
    lemma_plain_rendering(items, defaults, dimensions, second);
}

/// Lays `items` out as a grid for a terminal of `terminal_width` columns.
pub fn render_short(items: &Vec<DirectoryItem>, terminal_width: usize) -> (r: String)
    requires
        widest(item_views(items@), Column::Name) < usize::MAX,
    ensures
        is_short_listing(item_views(items@), terminal_width as nat, r@),
        all_plain(item_views(items@)) ==> r@ == plain_short_listing(
            item_views(items@),
            terminal_width as nat,
        ),
{
    let longest_value = match longest_name(items) {
        Some(x) => x + 1,
        None => 1,
    };
    let files_per_row = calculate_column_width(terminal_width, longest_value);
    let cells = short_cells(items, longest_value);
    let text = grid(&cells, files_per_row);
    assert(are_short_cells(item_views(items@), cell_width(item_views(items@)), texts(cells@)));
    proof {
        if all_plain(item_views(items@)) {
            lemma_plain_short_cells(
                item_views(items@),
                cell_width(item_views(items@)),
                texts(cells@),
            );
        }
    }
    text
}

/// The positions of the rows that are missing.
fn missing_rows(rows: &Vec<Option<String>>, Ghost(items): Ghost<Seq<ItemView>>) -> (r: Vec<
    usize,
>)
    requires
        are_long_rows(items, widths_of(items), row_views(rows@)),
    ensures
        r@ == untimed(items),
{
    let mut missing: Vec<usize> = Vec::new();
    let mut i: usize = 0;
    assert(items.take(0) =~= Seq::empty());
    while i < rows.len()
        invariant
            i <= rows.len(),
            are_long_rows(items, widths_of(items), row_views(rows@)),
            missing@ == untimed(items.take(i as int)),
        decreases rows.len() - i,
    {
        proof {
            assert(items.take(i + 1).drop_last() =~= items.take(i as int));
            assert(items.take(i + 1).last() == items[i as int]);
            let _ = row_views(rows@)[i as int];
        }
        if rows[i].is_none() {
            missing.push(i);
        }
        i = i + 1;
    }
    assert(items.take(rows.len() as int) =~= items);
    missing
}

/// Lays `items` out as a table, one line per item.
pub fn render_long(items: &Vec<DirectoryItem>) -> (r: Listing)
    ensures
        is_long_listing(item_views(items@), r@),
        all_plain(item_views(items@)) ==> r@ == plain_long_listing(item_views(items@)),
{
    let widths = column_widths(items);
    let rows = long_rows(items, &widths);
    let text = join_rows(&rows);
    let unrendered = missing_rows(&rows, Ghost(item_views(items@)));
    proof {
        if all_plain(item_views(items@)) {
            lemma_plain_long_rows(item_views(items@), widths@, row_views(rows@));
        }
    }
    Listing { text, unrendered }
}

/// Renders `items` for a terminal of the given `dimensions`, columns
/// first, or for none: as a table in long form, else as a grid.
pub fn render_with(
    items: &Vec<DirectoryItem>,
    defaults: &Defaults,
    dimensions: Option<(usize, usize)>,
) -> (r: Result<Listing, LayoutError>)
    requires
        !defaults.long_form ==> widest(item_views(items@), Column::Name) < usize::MAX,
    ensures
        is_rendering(item_views(items@), *defaults, dimensions, outcome(r)),
        all_plain(item_views(items@)) ==> outcome(r) == plain_rendering(
            item_views(items@),
            *defaults,
            dimensions,
        ),
{
    let result = if defaults.long_form {
        Ok(render_long(items))
    } else if items.len() == 0 {
        Ok(Listing { text: String::new(), unrendered: Vec::new() })
    } else {
        match dimensions {
            Some((width, _)) => Ok(
                Listing { text: render_short(items, width), unrendered: Vec::new() },
            ),
            None => Err(LayoutError::TerminalUnavailable),
        }
    };
    proof {
        if all_plain(item_views(items@)) {
            lemma_plain_rendering(item_views(items@), *defaults, dimensions, outcome(result));
        }
    }
    result
}

/// Renders `items`, asking the terminal for its width where a grid needs
/// it: never in long form, and not for a grid of nothing.
pub fn render(items: &Vec<DirectoryItem>, defaults: &Defaults) -> (r: Result<
    Listing,
    LayoutError,
>)
    requires
        !defaults.long_form ==> widest(item_views(items@), Column::Name) < usize::MAX,
    ensures
        exists|dimensions: Option<(usize, usize)>|
            #![trigger is_rendering(item_views(items@), *defaults, dimensions, outcome(r))]
            is_rendering(item_views(items@), *defaults, dimensions, outcome(r)),
        defaults.long_form || items@.len() == 0 ==> r is Ok && is_rendering(
            item_views(items@),
            *defaults,
            None,
            outcome(r),
        ),
{
    let dimensions = if !defaults.long_form && items.len() > 0 {
        terminal_dimensions()
    } else {
        None
    };
    let result = render_with(items, defaults, dimensions);
    assert(is_rendering(item_views(items@), *defaults, dimensions, outcome(result)));
    result
}

} // verus!
