//! Rows, result tables and the envelope every collector returns.

use vstd::prelude::*;
use crate::value::CellValue;

verus! {

/// A column name with its value, as a row's view holds it.
pub type ColumnModel = (Seq<char>, CellValue);

/// `j` is the first column of `cols` named `name`.
pub open spec fn is_first_named(cols: Seq<ColumnModel>, name: Seq<char>, j: int) -> bool {
    &&& 0 <= j < cols.len()
    &&& cols[j].0 == name
    &&& forall|k: int| 0 <= k < j ==> cols[k].0 != name
}

pub open spec fn has_column(cols: Seq<ColumnModel>, name: Seq<char>) -> bool {
    exists|j: int| 0 <= j < cols.len() && cols[j].0 == name
}

/// The columns after setting `name` to `v`: the first column of that name
/// takes the new value in place, or a new column is added at the end.
pub open spec fn row_insert(cols: Seq<ColumnModel>, name: Seq<char>, v: CellValue) -> Seq<ColumnModel> {
    if has_column(cols, name) {
        let j = choose|j: int| is_first_named(cols, name, j);
        cols.update(j, (name, v))
    } else {
        cols.push((name, v))
    }
}

/// No two columns share a name.
pub open spec fn unique_names(cols: Seq<ColumnModel>) -> bool {
    forall|i: int, j: int| 0 <= i < j < cols.len() ==> cols[i].0 != cols[j].0
}

pub proof fn lemma_first_named_exists(cols: Seq<ColumnModel>, name: Seq<char>)
    requires
        has_column(cols, name),
    ensures
        exists|j: int| is_first_named(cols, name, j),
    decreases cols.len(),
{
    if cols.last().0 == name && !has_column(cols.drop_last(), name) {
        let j = cols.len() - 1;
        assert forall|k: int| 0 <= k < j implies cols[k].0 != name by {
            assert(cols.drop_last()[k] == cols[k]);
        }
        assert(is_first_named(cols, name, j));
    } else {
        let w = choose|w: int| 0 <= w < cols.len() && cols[w].0 == name;
        if w == cols.len() - 1 {
            assert(has_column(cols.drop_last(), name));
        } else {
            assert(cols.drop_last()[w] == cols[w]);
        }
        lemma_first_named_exists(cols.drop_last(), name);
        let j = choose|j: int| is_first_named(cols.drop_last(), name, j);
        assert forall|k: int| 0 <= k <= j implies cols[k] == cols.drop_last()[k] by {}
        assert(is_first_named(cols, name, j));
    }
}

/// One row of a result table: named cells in the order they were set.
#[derive(Clone, Debug, PartialEq, Eq)]
pub struct Row {
    columns: Vec<(String, CellValue)>,
}

impl View for Row {
    type V = Seq<ColumnModel>;

    closed spec fn view(&self) -> Seq<ColumnModel> {
        self.columns@.map_values(|c: (String, CellValue)| (c.0@, c.1))
    }
}

impl Row {
    /// A row without columns.
    pub fn new() -> (r: Row)
        ensures
            r@ == Seq::<ColumnModel>::empty(),
    {
        let r = Row { columns: Vec::new() };
        assert(r@ =~= Seq::<ColumnModel>::empty());
        r
    }

    pub fn len(&self) -> (n: usize)
        ensures
            n == self@.len(),
    {
        self.columns.len()
    }

    /// Sets column `name` to `value`, replacing the value of a column that
    /// already has that name.
    pub fn insert(&mut self, name: String, value: CellValue)
        ensures
            final(self)@ == row_insert(old(self)@, name@, value),
    {
        let ghost cols = self@;
        let mut i: usize = 0;
        while i < self.columns.len()
            invariant
                i <= self.columns.len(),
                self@ == cols,
                cols == old(self)@,
                forall|k: int| 0 <= k < i ==> cols[k].0 != name@,
            decreases self.columns.len() - i,
        {
            assert(cols[i as int] == (self.columns@[i as int].0@, self.columns@[i as int].1));
            if self.columns[i].0 == name {
                assert(is_first_named(cols, name@, i as int));
                assert(has_column(cols, name@));
                self.columns.set(i, (name, value));
                proof {
                    let j = choose|j: int| is_first_named(cols, name@, j);
                    assert(j == i);
                    assert(self@ =~= cols.update(i as int, (name@, value)));
                    assert(self@ == row_insert(cols, name@, value));
                }
                return;
            }
            i = i + 1;
        }
        assert(!has_column(cols, name@));
        self.columns.push((name, value));
        assert(self@ =~= cols.push((name@, value)));
    }

    /// The value of column `name`, if the row has one.
    pub fn get(&self, name: &String) -> (r: Option<&CellValue>)
        ensures
            r matches Some(v) ==> exists|j: int| is_first_named(self@, name@, j) && self@[j].1 == *v,
            r is None ==> !has_column(self@, name@),
    {
        let mut i: usize = 0;
        while i < self.columns.len()
            invariant
                i <= self.columns.len(),
                forall|k: int| 0 <= k < i ==> self@[k].0 != name@,
            decreases self.columns.len() - i,
        {
            assert(self@[i as int] == (self.columns@[i as int].0@, self.columns@[i as int].1));
            if self.columns[i].0 == *name {
                assert(is_first_named(self@, name@, i as int));
                return Some(&self.columns[i].1);
            }
            i = i + 1;
        }
        None
    }

    /// The name and value of the column at `index`.
    pub fn column(&self, index: usize) -> (r: (&String, &CellValue))
        requires
            index < self@.len(),
        ensures
            r.0@ == self@[index as int].0,
            *r.1 == self@[index as int].1,
    {
        let c = &self.columns[index];
        (&c.0, &c.1)
    }
}

/// Setting a column keeps the column names of a row distinct.
pub proof fn lemma_insert_keeps_names_unique(cols: Seq<ColumnModel>, name: Seq<char>, v: CellValue)
    requires
        unique_names(cols),
    ensures
        unique_names(row_insert(cols, name, v)),
{
    if has_column(cols, name) {
        lemma_first_named_exists(cols, name);
    }
}

/// A table of results: where it came from, and its rows in production order.
#[derive(Clone, Debug, PartialEq, Eq)]
pub struct CommandDTO {
    pub source: String,
    pub data: Vec<Row>,
}

/// What a collector returns: one table, or the flattened tables of a group.
#[derive(Clone, Debug, PartialEq, Eq)]
pub enum CommandResult {
    Simple(CommandDTO),
    Group(Vec<CommandDTO>),
}

/// Configuration a collector owns.
#[derive(Clone, Copy, Debug, PartialEq, Eq)]
pub struct CommandData {
    pub support_remote: bool,
}

/// Why a collector, a lookup or a decode failed.
#[derive(Clone, Debug, PartialEq, Eq)]
pub enum ErrorKind {
    /// A key, value or registration that was asked for does not exist.
    NotFound,
    /// The query backend reported a failure, with its status code.
    Backend(i32),
    /// A fetched raw value does not have the expected shape.
    Decode,
    /// A group names a member that no registration has.
    MissingCommand(String),
}

/// The tables a result contributes to a group: itself for a single table,
/// its whole sequence for a group.
pub open spec fn tables_of(r: CommandResult) -> Seq<CommandDTO> {
    match r {
        CommandResult::Simple(t) => seq![t],
        CommandResult::Group(ts) => ts@,
    }
}

impl CommandResult {
    /// Moves the tables of this result, in order, onto the end of `out`.
    pub fn append_to(self, out: &mut Vec<CommandDTO>)
        ensures
            final(out)@ == old(out)@ + tables_of(self),
    {
        match self {
            CommandResult::Simple(t) => {
                out.push(t);
                assert(final(out)@ =~= old(out)@ + tables_of(self));
            },
            CommandResult::Group(ts) => {
                let mut ts = ts;
                out.append(&mut ts);
            },
        }
    }
}

} // verus!
