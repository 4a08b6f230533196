//! An adapter that turns a forward-only record source, fetched one record and
//! one field at a time, into a sequence of rows.
//!
//! The adapter only decides; its caller performs each fetch it asks for and
//! hands back the outcome, until it yields an item or ends.

use vstd::prelude::*;
use crate::dto::{row_insert, ColumnModel, ErrorKind, Row};
use crate::value::CellValue;

verus! {

/// What the caller has to report to the adapter.
pub enum CursorEvent {
    /// The next item is wanted.
    Next,
    /// Outcome of fetching one record: `Ok(true)` when a record came,
    /// `Ok(false)` at the end of the stream.
    Record(Result<bool, ErrorKind>),
    /// Outcome of fetching the requested field of the current record.
    Field(Result<CellValue, ErrorKind>),
}

/// What the adapter asks its caller to do.
pub enum CursorAction {
    /// Fetch the next record, then report `CursorEvent::Record`.
    FetchRecord,
    /// Fetch the field at this position of the field list from the current
    /// record, then report `CursorEvent::Field`.
    FetchField(usize),
    /// The next item of the sequence.
    Yield(Result<Row, ErrorKind>),
    /// The sequence has ended; every later step ends it again.
    End,
}

/// Where the adapter stands.
#[derive(Clone, Copy, Debug, PartialEq, Eq, Structural)]
pub enum CursorPhase {
    Idle,
    AwaitRecord,
    AwaitField(usize),
    Exhausted,
}

/// The columns of a record whose fields `names` came back as `vals`, in order.
pub open spec fn record_row(names: Seq<Seq<char>>, vals: Seq<CellValue>) -> Seq<ColumnModel>
    decreases vals.len(),
{
    if vals.len() == 0 {
        Seq::empty()
    } else {
        row_insert(record_row(names, vals.drop_last()), names[vals.len() - 1], vals.last())
    }
}

/// A sequence of rows over a record source, with the fields to read from
/// each record. It cannot be restarted: once it has ended, a new one is needed.
pub struct WbemIterator {
    fields: Vec<String>,
    phase: CursorPhase,
    row: Row,
    values: Ghost<Seq<CellValue>>,
    records: Ghost<nat>,
    items: Ghost<nat>,
}

impl WbemIterator {
    pub closed spec fn field_names(&self) -> Seq<Seq<char>> {
        self.fields@.map_values(|s: String| s@)
    }

    pub closed spec fn phase(&self) -> CursorPhase {
        self.phase
    }

    /// The field values of the current record fetched so far.
    pub closed spec fn values(&self) -> Seq<CellValue> {
        self.values@
    }

    /// How many records the source has handed over.
    pub closed spec fn records(&self) -> nat {
        self.records@
    }

    /// How many items were yielded for records.
    pub closed spec fn items(&self) -> nat {
        self.items@
    }

    pub closed spec fn wf(&self) -> bool {
        &&& self.row@ == record_row(self.field_names(), self.values@)
        &&& match self.phase {
            CursorPhase::AwaitField(k) => {
                &&& k < self.fields@.len()
                &&& k == self.values@.len()
                &&& self.items@ + 1 == self.records@
            },
            _ => self.items@ == self.records@,
        }
    }

    /// Items are never handed out twice: at any point the adapter has yielded
    /// one item for each record it has finished, and at most one record is
    /// being read.
    pub proof fn lemma_items_follow_records(&self)
        requires
            self.wf(),
        ensures
            self.items() <= self.records() <= self.items() + 1,
            self.records() == self.items() + 1 <==> self.phase() is AwaitField,
    {
    }

    /// An adapter that will read `fields` from each record, in that order.
    pub fn from(fields: Vec<String>) -> (r: WbemIterator)
        ensures
            r.wf(),
            r.field_names() == fields@.map_values(|s: String| s@),
            r.phase() == CursorPhase::Idle,
            r.records() == 0,
            r.items() == 0,
    {
        let r = WbemIterator {
            fields,
            phase: CursorPhase::Idle,
            row: Row::new(),
            values: Ghost(Seq::empty()),
            records: Ghost(0),
            items: Ghost(0),
        };
        r
    }

    /// The name of the field at `index`.
    pub fn field(&self, index: usize) -> (r: &String)
        requires
            index < self.field_names().len(),
        ensures
            r@ == self.field_names()[index as int],
    {
        &self.fields[index]
    }

    pub fn field_count(&self) -> (n: usize)
        ensures
            n == self.field_names().len(),
    {
        self.fields.len()
    }

    /// Takes in one event and says what comes next. A failed record fetch
    /// yields its error once and ends the sequence; a failed field fetch
    /// makes that record's item an error and leaves later records readable.
    pub fn step(&mut self, event: CursorEvent) -> (r: CursorAction)
        requires
            old(self).wf(),
        ensures
            final(self).wf(),
            final(self).field_names() == old(self).field_names(),
            final(self).records() <= old(self).records() + 1,
            final(self).items() <= old(self).items() + 1,
            match old(self).phase() {
                CursorPhase::Exhausted => (r is End) && (*final(self) == *old(self)),
                CursorPhase::Idle => {
                    &&& r is FetchRecord
                    &&& final(self).phase() == CursorPhase::AwaitRecord
                    &&& final(self).records() == old(self).records()
                    &&& final(self).items() == old(self).items()
                },
                CursorPhase::AwaitRecord => match event {
                    CursorEvent::Record(Err(e)) => {
                        &&& r == CursorAction::Yield(Err(e))
                        &&& final(self).phase() == CursorPhase::Exhausted
                        &&& final(self).records() == old(self).records()
                        &&& final(self).items() == old(self).items()
                    },
                    CursorEvent::Record(Ok(false)) => {
                        &&& r is End
                        &&& final(self).phase() == CursorPhase::Exhausted
                        &&& final(self).records() == old(self).records()
                        &&& final(self).items() == old(self).items()
                    },
                    CursorEvent::Record(Ok(true)) => {
                        &&& final(self).records() == old(self).records() + 1
                        &&& final(self).values() == Seq::<CellValue>::empty()
                        &&& if old(self).field_names().len() == 0 {
                            &&& r matches CursorAction::Yield(Ok(row)) && row@ == Seq::<ColumnModel>::empty()
                            &&& final(self).phase() == CursorPhase::Idle
                            &&& final(self).items() == old(self).items() + 1
                        } else {
                            &&& r == CursorAction::FetchField(0)
                            &&& final(self).phase() == CursorPhase::AwaitField(0)
                            &&& final(self).items() == old(self).items()
                        }
                    },
                    _ => (r is FetchRecord) && (*final(self) == *old(self)),
                },
                CursorPhase::AwaitField(k) => match event {
                    CursorEvent::Field(Err(e)) => {
                        &&& r == CursorAction::Yield(Err(e))
                        &&& final(self).phase() == CursorPhase::Idle
                        &&& final(self).records() == old(self).records()
                        &&& final(self).items() == old(self).items() + 1
                    },
                    CursorEvent::Field(Ok(v)) => {
                        &&& final(self).records() == old(self).records()
                        &&& if k + 1 < old(self).field_names().len() {
                            &&& final(self).values() == old(self).values().push(v)
                            &&& r == CursorAction::FetchField((k + 1) as usize)
                            &&& final(self).phase() == CursorPhase::AwaitField((k + 1) as usize)
                            &&& final(self).items() == old(self).items()
                        } else {
                            &&& r matches CursorAction::Yield(Ok(row))
                                && row@ == record_row(old(self).field_names(), old(self).values().push(v))
                            &&& final(self).phase() == CursorPhase::Idle
                            &&& final(self).values() == Seq::<CellValue>::empty()
                            &&& final(self).items() == old(self).items() + 1
                        }
                    },
                    _ => r == CursorAction::FetchField(k) && *final(self) == *old(self),
                },
            },
    {
        match self.phase {
            CursorPhase::Exhausted => CursorAction::End,
            CursorPhase::Idle => {
                self.phase = CursorPhase::AwaitRecord;
                CursorAction::FetchRecord
            },
            CursorPhase::AwaitRecord => match event {
                CursorEvent::Record(Err(e)) => {
                    self.phase = CursorPhase::Exhausted;
                    CursorAction::Yield(Err(e))
                },
                CursorEvent::Record(Ok(false)) => {
                    self.phase = CursorPhase::Exhausted;
                    CursorAction::End
                },
                CursorEvent::Record(Ok(true)) => {
                    self.records = Ghost(self.records@ + 1);
                    self.values = Ghost(Seq::empty());
                    self.row = Row::new();
                    if self.fields.len() == 0 {
                        self.items = Ghost(self.items@ + 1);
                        self.phase = CursorPhase::Idle;
                        let row = Row::new();
                        CursorAction::Yield(Ok(row))
                    } else {
                        self.phase = CursorPhase::AwaitField(0);
                        CursorAction::FetchField(0)
                    }
                },
                _ => CursorAction::FetchRecord,
            },
            CursorPhase::AwaitField(k) => match event {
                CursorEvent::Field(Err(e)) => {
                    self.items = Ghost(self.items@ + 1);
                    self.phase = CursorPhase::Idle;
                    self.values = Ghost(Seq::empty());
                    self.row = Row::new();
                    CursorAction::Yield(Err(e))
                },
                CursorEvent::Field(Ok(v)) => {
                    assert(k < self.fields.len());
                    let ghost vals = self.values@.push(v);
                    let name = self.fields[k].clone();
                    self.row.insert(name, v);
                    self.values = Ghost(vals);
                    proof {
                        assert(vals.drop_last() =~= old(self).values@);
                        assert(self.field_names()[k as int] == self.fields@[k as int]@);
                    }
                    if k < self.fields.len() - 1 {
                        self.phase = CursorPhase::AwaitField(k + 1);
                        CursorAction::FetchField(k + 1)
                    } else {
                        self.items = Ghost(self.items@ + 1);
                        self.phase = CursorPhase::Idle;
                        self.values = Ghost(Seq::empty());
                        let mut row = Row::new();
                        core::mem::swap(&mut row, &mut self.row);
                        CursorAction::Yield(Ok(row))
                    }
                },
                _ => CursorAction::FetchField(k),
            },
        }
    }
}

} // verus!
