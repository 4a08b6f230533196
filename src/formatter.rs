//! Plain-text rendering of collector results.

use vstd::prelude::*;
use crate::dto::{ColumnModel, CommandDTO, CommandResult, Row};
use crate::value::{cell_text, decimal, push_char, push_decimal, push_str};

verus! {

/// The columns of one row, each on its own indented line.
pub open spec fn columns_text(cols: Seq<ColumnModel>) -> Seq<char>
    decreases cols.len(),
{
    if cols.len() == 0 {
        Seq::empty()
    } else {
        columns_text(cols.drop_last()) + seq!['\n', '\t'] + cols.last().0 + seq![' ', ':', ' ']
            + cell_text(cols.last().1)
    }
}

/// The rows of a table, each headed by its position.
pub open spec fn rows_text(rows: Seq<Row>) -> Seq<char>
    decreases rows.len(),
{
    if rows.len() == 0 {
        Seq::empty()
    } else {
        rows_text(rows.drop_last()) + seq!['\n', ' ', '['] + decimal((rows.len() - 1) as nat)
            + seq![']'] + columns_text(rows.last()@)
    }
}

/// A table: its source in a banner, then its rows.
pub open spec fn table_text(t: CommandDTO) -> Seq<char> {
    seq!['=', '=', '['] + t.source@ + seq![']', '=', '='] + rows_text(t.data@)
}

/// Tables one after the other, each preceded by a blank line.
pub open spec fn tables_text(ts: Seq<CommandDTO>) -> Seq<char>
    decreases ts.len(),
{
    if ts.len() == 0 {
        Seq::empty()
    } else {
        tables_text(ts.drop_last()) + seq!['\n', '\n'] + table_text(ts.last())
    }
}

pub open spec fn result_text(r: CommandResult) -> Seq<char> {
    match r {
        CommandResult::Group(ts) => tables_text(ts@),
        CommandResult::Simple(t) => table_text(t),
    }
}

/// Turns a collector result into text.
pub trait Formatter {
    spec fn rendered(result: CommandResult) -> Seq<char>;

    fn parse_result(result: CommandResult) -> (r: String)
        ensures
            r@ == Self::rendered(result),
    ;
}

/// Renders each table as a banner with its source followed by numbered rows
/// of `name : value` lines.
pub struct SimpleFormatter {}

impl Formatter for SimpleFormatter {
    open spec fn rendered(result: CommandResult) -> Seq<char> {
        result_text(result)
    }

    fn parse_result(result: CommandResult) -> (r: String) {
        match result {
            CommandResult::Group(group_result) => format_group_result(group_result),
            CommandResult::Simple(simple_result) => format_command_dto(simple_result),
        }
    }
}

fn push_columns(s: &mut String, row: &Row)
    ensures
        final(s)@ == old(s)@ + columns_text(row@),
{
    let ghost start = s@;
    let mut i: usize = 0;
    while i < row.len()
        invariant
            i <= row@.len(),
            s@ == start + columns_text(row@.take(i as int)),
        decreases row@.len() - i,
    {
        let (col, value) = row.column(i);
        push_char(s, '\n');
        push_char(s, '\t');
        push_str(s, col.as_str());
        push_char(s, ' ');
        push_char(s, ':');
        push_char(s, ' ');
        value.write_to(s);
        proof {
            let p = row@.take(i + 1);
            assert(p.drop_last() =~= row@.take(i as int));
            assert(p.last() == row@[i as int]);
        }
        i = i + 1;
        assert(s@ =~= start + columns_text(row@.take(i as int)));
    }
    assert(row@.take(row@.len() as int) =~= row@);
}

/// Appends the rendering of `table` to `output`.
fn write_table(output: &mut String, table: &CommandDTO)
    ensures
        final(output)@ == old(output)@ + table_text(*table),
{
    let ghost start = output@;
    push_char(output, '=');
    push_char(output, '=');
    push_char(output, '[');
    push_str(output, table.source.as_str());
    push_char(output, ']');
    push_char(output, '=');
    push_char(output, '=');
    let ghost head = output@;
    assert(head =~= start + (seq!['=', '=', '['] + table.source@ + seq![']', '=', '=']));
    let rows = &table.data;
    let mut count: usize = 0;
    while count < rows.len()
        invariant
            count <= rows@.len(),
            rows@ == table.data@,
            output@ == head + rows_text(rows@.take(count as int)),
        decreases rows@.len() - count,
    {
        push_char(output, '\n');
        push_char(output, ' ');
        push_char(output, '[');
        push_decimal(output, count as u64);
        push_char(output, ']');
        push_columns(output, &rows[count]);
        proof {
            let p = rows@.take(count + 1);
            assert(p.drop_last() =~= rows@.take(count as int));
            assert(p.last() == rows@[count as int]);
        }
        count = count + 1;
        assert(output@ =~= head + rows_text(rows@.take(count as int)));
    }
    assert(rows@.take(rows@.len() as int) =~= rows@);
    assert(output@ =~= start + table_text(*table));
}

/// Renders one table.
pub fn format_command_dto(table: CommandDTO) -> (r: String)
    ensures
        r@ == table_text(table),
{
    let mut output = String::new();
    write_table(&mut output, &table);
    assert(output@ =~= table_text(table));
    output
}

/// Renders tables one after the other, each after a blank line.
pub fn format_group_result(tables: Vec<CommandDTO>) -> (r: String)
    ensures
        r@ == tables_text(tables@),
{
    let mut output = String::new();
    let mut i: usize = 0;
    while i < tables.len()
        invariant
            i <= tables@.len(),
            output@ == tables_text(tables@.take(i as int)),
        decreases tables@.len() - i,
    {
        push_char(&mut output, '\n');
        push_char(&mut output, '\n');
        write_table(&mut output, &tables[i]);
        proof {
            let p = tables@.take(i + 1);
            assert(p.drop_last() =~= tables@.take(i as int));
            assert(p.last() == tables@[i as int]);
        }
        i = i + 1;
        assert(output@ =~= tables_text(tables@.take(i as int)));
    }
    assert(tables@.take(tables@.len() as int) =~= tables@);
    output
}

} // verus!
