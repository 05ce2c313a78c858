//! Plain-text tables, laid out by the `prettytable` crate.

use vstd::prelude::*;
use vstd::string::*;

use crate::task::{Task, TaskView};
use crate::text::{lemma_shown, printable, show, shown};

verus! {

/// A table of the `prettytable` crate.
#[verifier::external_type_specification]
#[verifier::external_body]
pub struct ExTable(prettytable::Table);

/// The rows of a table, each row the texts of its cells.
pub uninterp spec fn table_rows(table: prettytable::Table) -> Seq<Seq<Seq<char>>>;

/// Whether a table has the borderless format, one space of padding on each
/// side of a cell.
pub uninterp spec fn table_is_clean(table: prettytable::Table) -> bool;

/// What a borderless table with these rows looks like in print.
pub uninterp spec fn printed_clean(rows: Seq<Seq<Seq<char>>>) -> Seq<char>;

/// `prettytable::Table::new`, then `set_format` with `FORMAT_CLEAN`: a table
/// without rows that prints without borders.
#[verifier::external_body]
fn clean_table() -> (table: prettytable::Table)
    ensures
        table_is_clean(table),
        table_rows(table) == Seq::<Seq<Seq<char>>>::empty(),
{
    let mut table = prettytable::Table::new();
    table.set_format(*prettytable::format::consts::FORMAT_CLEAN);
    table
}

/// `prettytable::Table::add_row` with one left-aligned cell for each text:
/// the row is added below the others and the format stays. A cell keeps its
/// text as it is only where the text is one line; and the crate measures a
/// terminal escape in a way that can fail. So no text may hold a line feed, a
/// carriage return or the escape character.
#[verifier::external_body]
fn add_row(table: &mut prettytable::Table, cells: &Vec<String>)
    requires
        forall|i: int| 0 <= i < cells.len() ==> printable(#[trigger] cells[i]@),
    ensures
        table_is_clean(*final(table)) == table_is_clean(*old(table)),
        table_rows(*final(table)) == table_rows(*old(table)).push(cells.deep_view()),
{
    let cells = cells.iter().map(|text| prettytable::Cell::new(text)).collect();
    table.add_row(prettytable::Row::new(cells));
}

/// `to_string` of a `prettytable::Table`: the text that printing the table
/// gives, which for a borderless table is a function of its rows.
#[verifier::external_body]
fn print(table: &prettytable::Table) -> (text: String)
    requires
        table_is_clean(*table),
    ensures
        text@ == printed_clean(table_rows(*table)),
{
    table.to_string()
}

/// The rows of a listing of tasks: the heading, then name and description of
/// each task, each as it is shown in a cell.
pub open spec fn task_rows(tasks: Seq<TaskView>) -> Seq<Seq<Seq<char>>> {
    seq![seq!["TASK"@, "DESCRIPTION"@]] + tasks.map_values(
        |task: TaskView| seq![shown(task.name), shown(task.description)],
    )
}

fn pair(first: &str, second: &str) -> (cells: Vec<String>)
    ensures
        cells.deep_view() == seq![shown(first@), shown(second@)],
        forall|i: int| 0 <= i < cells.len() ==> printable(#[trigger] cells[i]@),
{
    let mut cells: Vec<String> = Vec::new();
    cells.push(show(first));
    cells.push(show(second));
    assert(cells.deep_view() =~= seq![shown(first@), shown(second@)]);
    cells
}

/// Lays out a listing of tasks: one row for each, under the heading. Every
/// text is made fit for its cell first, so the layout holds whatever the
/// tasks are called.
pub fn task_table(tasks: &Vec<Task>) -> (text: String)
    ensures
        text@ == printed_clean(task_rows(tasks.deep_view())),
{
    let mut table = clean_table();
    proof {
        reveal_strlit("TASK");
        reveal_strlit("DESCRIPTION");
        lemma_shown("TASK"@);
        lemma_shown("DESCRIPTION"@);
    }
    add_row(&mut table, &pair("TASK", "DESCRIPTION"));
    assert(table_rows(table) =~= task_rows(tasks.deep_view().take(0)));
    let mut i: usize = 0;
    while i < tasks.len()
        invariant
            i <= tasks.len(),
            table_is_clean(table),
            table_rows(table) == task_rows(tasks.deep_view().take(i as int)),
        decreases tasks.len() - i,
    {
        let cells = pair(tasks[i].name.as_str(), tasks[i].description.as_str());
        add_row(&mut table, &cells);
        assert(table_rows(table) =~= task_rows(tasks.deep_view().take(i as int + 1)));
        i += 1;
    }
    assert(tasks.deep_view().take(tasks.len() as int) =~= tasks.deep_view());
    print(&table)
}

} // verus!
