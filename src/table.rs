//! The listing as a table: a header row and one row of texts per record,
//! drawn by tabled with rounded borders and one color per column.
use vstd::prelude::*;
use tabled::settings::object::Columns;
use tabled::settings::{Color, Style};
use crate::entry::{views, EntryView, FileEntry};
use crate::text::{decimal, push_decimal};

verus! {

/// The table as tabled draws it from these rows (the first is the header),
/// with rounded borders and the columns colored green, cyan, magenta and
/// yellow.
pub uninterp spec fn drawn_table(rows: Seq<Seq<Seq<char>>>) -> Seq<char>;

pub open spec fn header_spec() -> Seq<Seq<char>> {
    seq!["Name"@, "Type"@, "Size"@, "Modified"@]
}

pub open spec fn row_spec(e: EntryView) -> Seq<Seq<char>> {
    seq![e.name, e.e_type.label_spec(), decimal(e.len as nat), e.modified]
}

/// The header followed by one row per record, in order.
pub open spec fn rows_spec(records: Seq<EntryView>) -> Seq<Seq<Seq<char>>> {
    seq![header_spec()] + records.map_values(|e: EntryView| row_spec(e))
}

/// Relies on tabled's `Builder::from`, `Table::with(Style::rounded())`,
/// `Table::modify` with bright foreground colors and `Table::to_string`:
/// the drawn table, which depends on the rows alone.
#[verifier::external_body]
fn draw_table(rows: Vec<Vec<String>>) -> (r: String)
    ensures
        r@ == drawn_table(rows.deep_view()),
{
    let mut table = tabled::builder::Builder::from(rows).build();
    table.with(Style::rounded());
    table.modify(Columns::first(), Color::FG_BRIGHT_GREEN);
    table.modify(Columns::one(1), Color::FG_BRIGHT_CYAN);
    table.modify(Columns::one(2), Color::FG_BRIGHT_MAGENTA);
    table.modify(Columns::one(3), Color::FG_BRIGHT_YELLOW);
    table.to_string()
}

/// The column titles.
pub fn header() -> (r: Vec<String>)
    ensures
        r.deep_view() == header_spec(),
{
    let r = vec![
        String::from_str("Name"),
        String::from_str("Type"),
        String::from_str("Size"),
        String::from_str("Modified"),
    ];
    assert(r.deep_view() =~= header_spec());
    r
}

/// The texts of one record: name, type, size in decimal, modification time.
pub fn row(e: &FileEntry) -> (r: Vec<String>)
    ensures
        r.deep_view() == row_spec(e@),
{
    let mut size = String::new();
    push_decimal(&mut size, e.len);
    let r = vec![e.name.clone(), e.e_type.label(), size, e.modified.clone()];
    assert(r.deep_view() =~= row_spec(e@));
    r
}

/// The header row followed by one row per record, in order.
pub fn table_rows(records: &Vec<FileEntry>) -> (r: Vec<Vec<String>>)
    ensures
        r.deep_view() == rows_spec(views(records@)),
{
    let mut rows: Vec<Vec<String>> = Vec::new();
    rows.push(header());
    let mut i: usize = 0;
    while i < records.len()
        invariant
            i <= records.len(),
            rows.deep_view() == rows_spec(views(records@.take(i as int))),
        decreases records.len() - i,
    {
        proof {
            assert(views(records@.take(i as int)).len() == i);
        }
        let r = row(&records[i]);
        let ghost prev = rows.deep_view();
        let ghost rv = r.deep_view();
        rows.push(r);
        assert(rows.deep_view() =~= prev.push(rv));
        let ghost vs = views(records@.take(i as int));
        assert(views(records@.take(i + 1)) =~= vs.push(records@[i as int]@));
        assert(rows_spec(vs.push(records@[i as int]@)) =~= rows_spec(vs).push(row_spec(records@[i as int]@)));
        assert(rows.deep_view() =~= rows_spec(views(records@.take(i + 1))));
        i = i + 1;
    }
    assert(records@.take(records.len() as int) =~= records@);
    rows
}

/// The listing drawn as a table.
pub fn render(records: &Vec<FileEntry>) -> (r: String)
    ensures
        r@ == drawn_table(rows_spec(views(records@))),
{
    draw_table(table_rows(records))
}

} // verus!
