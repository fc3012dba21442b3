//! A table of coded, named records, each with an optional parent: banks are
//! records without a parent, agencies are records whose parent is their
//! bank. Every operation is scoped by the parent it names, so an agency is
//! reached only through its own bank.
use vstd::prelude::*;

verus! {

/// A stored record.
pub struct Record {
    pub id: i32,
    pub parent: Option<i32>,
    pub code: String,
    pub name: String,
    pub created_at: i64,
    pub updated_at: i64,
}

/// The mathematical value of a record.
pub struct RecordView {
    pub id: int,
    pub parent: Option<i32>,
    pub code: Seq<char>,
    pub name: Seq<char>,
    pub created_at: int,
    pub updated_at: int,
}

impl View for Record {
    type V = RecordView;

    open spec fn view(&self) -> RecordView {
        RecordView {
            id: self.id as int,
            parent: self.parent,
            code: self.code@,
            name: self.name@,
            created_at: self.created_at as int,
            updated_at: self.updated_at as int,
        }
    }
}

impl Record {
    /// A field-by-field copy.
    pub fn copy(&self) -> (r: Record)
        ensures
            r@ == self@,
    {
        Record {
            id: self.id,
            parent: self.parent,
            code: self.code.clone(),
            name: self.name.clone(),
            created_at: self.created_at,
            updated_at: self.updated_at,
        }
    }
}

/// What can go wrong in a record operation.
#[derive(Clone, Copy, Debug, PartialEq, Eq, Structural)]
pub enum RecordError {
    /// No record has the identifier under the given parent.
    NotFound,
    /// The table cannot take the write (no identifier is left).
    StoreUnavailable,
}

impl RecordError {
    /// The HTTP status that answers the error.
    pub fn status_code(&self) -> (r: u16)
        ensures
            r == (if *self is NotFound { 404u16 } else { 500u16 }),
    {
        match *self {
            RecordError::NotFound => 404,
            RecordError::StoreUnavailable => 500,
        }
    }
}

/// The mathematical value of a table.
pub struct TableView {
    pub rows: Seq<RecordView>,
    pub next_id: int,
}

/// Identifiers are unique and below `next_id`.
pub open spec fn table_wf(t: TableView) -> bool {
    &&& 1 <= t.next_id <= i32::MAX
    &&& forall|i: int, j: int|
        0 <= i < t.rows.len() && 0 <= j < t.rows.len() && i != j ==> t.rows[i].id != t.rows[j].id
    &&& forall|i: int| 0 <= i < t.rows.len() ==> 1 <= #[trigger] t.rows[i].id < t.next_id
}

/// Whether the record `id` exists under `parent`.
pub open spec fn has_record(rows: Seq<RecordView>, id: int, parent: Option<i32>) -> bool {
    exists|i: int| 0 <= i < rows.len() && rows[i].id == id && rows[i].parent == parent
}

/// The position of the record `id` under `parent`.
pub open spec fn record_index(rows: Seq<RecordView>, id: int, parent: Option<i32>) -> int
    recommends
        has_record(rows, id, parent),
{
    choose|i: int| 0 <= i < rows.len() && rows[i].id == id && rows[i].parent == parent
}

/// The records under `parent`, in insertion order.
pub open spec fn list_spec(rows: Seq<RecordView>, parent: Option<i32>) -> Seq<RecordView> {
    rows.filter(|r: RecordView| r.parent == parent)
}

/// Adding a record under `parent` at time `now`.
pub open spec fn create_spec(
    t: TableView,
    parent: Option<i32>,
    code: Seq<char>,
    name: Seq<char>,
    now: int,
) -> (TableView, Result<RecordView, RecordError>) {
    if t.next_id >= i32::MAX {
        (t, Err(RecordError::StoreUnavailable))
    } else {
        let r = RecordView { id: t.next_id, parent, code, name, created_at: now, updated_at: now };
        (TableView { rows: t.rows.push(r), next_id: t.next_id + 1 }, Ok(r))
    }
}

/// Replacing the parent, code and name of the record `id` under `parent`.
pub open spec fn update_spec(
    t: TableView,
    id: int,
    parent: Option<i32>,
    new_parent: Option<i32>,
    code: Seq<char>,
    name: Seq<char>,
    now: int,
) -> (TableView, Result<RecordView, RecordError>) {
    if !has_record(t.rows, id, parent) {
        (t, Err(RecordError::NotFound))
    } else {
        let i = record_index(t.rows, id, parent);
        let r = RecordView { parent: new_parent, code, name, updated_at: now, ..t.rows[i] };
        (TableView { rows: t.rows.update(i, r), next_id: t.next_id }, Ok(r))
    }
}

/// Removing the record `id` under `parent`; the count removed is one.
pub open spec fn delete_spec(t: TableView, id: int, parent: Option<i32>) -> (TableView, Result<
    usize,
    RecordError,
>) {
    if !has_record(t.rows, id, parent) {
        (t, Err(RecordError::NotFound))
    } else {
        (
            TableView {
                rows: t.rows.remove(record_index(t.rows, id, parent)),
                next_id: t.next_id,
            },
            Ok(1usize),
        )
    }
}

/// The value of an operation's result.
pub open spec fn record_result(r: Result<Record, RecordError>) -> Result<RecordView, RecordError> {
    match r {
        Ok(x) => Ok(x@),
        Err(e) => Err(e),
    }
}

/// Records held in memory.
pub struct RecordTable {
    rows: Vec<Record>,
    next_id: i32,
}

impl View for RecordTable {
    type V = TableView;

    closed spec fn view(&self) -> TableView {
        TableView { rows: self.rows@.map_values(|r: Record| r@), next_id: self.next_id as int }
    }
}

impl RecordTable {
    /// Whether the table keeps its invariant.
    pub open spec fn wf(&self) -> bool {
        table_wf(self@)
    }

    /// An empty table.
    pub fn new() -> (r: RecordTable)
        ensures
            r.wf(),
            r@.rows.len() == 0,
            r@.next_id == 1,
    {
        let r = RecordTable { rows: Vec::new(), next_id: 1 };
        assert(r@.rows =~= Seq::<RecordView>::empty());
        r
    }

    /// The position of the record `id` under `parent`.
    fn position(&self, id: i32, parent: Option<i32>) -> (r: Option<usize>)
        requires
            self.wf(),
        ensures
            match r {
                Some(i) => i < self@.rows.len() && has_record(self@.rows, id as int, parent) && i
                    == record_index(self@.rows, id as int, parent),
                None => !has_record(self@.rows, id as int, parent),
            },
    {
        let mut i: usize = 0;
        while i < self.rows.len()
            invariant
                self.wf(),
                i <= self.rows.len(),
                forall|k: int|
                    0 <= k < i ==> !(self@.rows[k].id == id && self@.rows[k].parent == parent),
            decreases self.rows.len() - i,
        {
            if self.rows[i].id == id && self.rows[i].parent == parent {
                proof {
                    assert(self@.rows[i as int] == self.rows@[i as int]@);
                    assert(has_record(self@.rows, id as int, parent));
                    let j = record_index(self@.rows, id as int, parent);
                    assert(0 <= j < self@.rows.len() && self@.rows[j].id == id);
                }
                return Some(i);
            }
            i = i + 1;
        }
        None
    }

    /// The records under `parent`, in insertion order.
    pub fn list(&self, parent: Option<i32>) -> (r: Vec<Record>)
        ensures
            r@.map_values(|x: Record| x@) == list_spec(self@.rows, parent),
    {
        let mut out: Vec<Record> = Vec::new();
        let mut i: usize = 0;
        while i < self.rows.len()
            invariant
                i <= self.rows.len(),
                out@.map_values(|x: Record| x@) == list_spec(self@.rows.take(i as int), parent),
            decreases self.rows.len() - i,
        {
            let ghost prefix = self@.rows.take(i as int);
            proof {
                assert(self@.rows.take(i + 1).drop_last() =~= prefix);
                assert(self@.rows.take(i + 1).last() == self@.rows[i as int]);
                reveal(Seq::filter);
            }
            if self.rows[i].parent == parent {
                let ghost before = out@;
                out.push(self.rows[i].copy());
                proof {
                    assert(out@.map_values(|x: Record| x@) =~= before.map_values(|x: Record| x@).push(
                        self@.rows[i as int],
                    ));
                }
            }
            i = i + 1;
        }
        assert(self@.rows.take(self.rows.len() as int) =~= self@.rows);
        out
    }

    /// The record `id` under `parent`.
    pub fn get(&self, id: i32, parent: Option<i32>) -> (r: Result<Record, RecordError>)
        requires
            self.wf(),
        ensures
            match r {
                Ok(x) => has_record(self@.rows, id as int, parent) && x@ == self@.rows[record_index(
                    self@.rows,
                    id as int,
                    parent,
                )],
                Err(e) => e is NotFound && !has_record(self@.rows, id as int, parent),
            },
    {
        match self.position(id, parent) {
            Some(i) => Ok(self.rows[i].copy()),
            None => Err(RecordError::NotFound),
        }
    }

    /// Adds a record under `parent`, stamped with `now`.
    pub fn create(&mut self, parent: Option<i32>, code: String, name: String, now: i64) -> (r: Result<
        Record,
        RecordError,
    >)
        requires
            old(self).wf(),
        ensures
            final(self).wf(),
            (final(self)@, record_result(r)) == create_spec(old(self)@, parent, code@, name@, now as int),
    {
        if self.next_id == i32::MAX {
            return Err(RecordError::StoreUnavailable);
        }
        let rec = Record { id: self.next_id, parent, code, name, created_at: now, updated_at: now };
        let r = rec.copy();
        let ghost before = self@;
        self.rows.push(rec);
        self.next_id = self.next_id + 1;
        assert(self@.rows =~= before.rows.push(r@));
        Ok(r)
    }

    /// Replaces the parent, code and name of the record `id` under `parent`,
    /// stamped with `now`.
    pub fn update(
        &mut self,
        id: i32,
        parent: Option<i32>,
        new_parent: Option<i32>,
        code: String,
        name: String,
        now: i64,
    ) -> (r: Result<Record, RecordError>)
        requires
            old(self).wf(),
        ensures
            final(self).wf(),
            (final(self)@, record_result(r)) == update_spec(
                old(self)@,
                id as int,
                parent,
                new_parent,
                code@,
                name@,
                now as int,
            ),
    {
        match self.position(id, parent) {
            None => Err(RecordError::NotFound),
            Some(i) => {
                let ghost before = self@;
                let cur = &self.rows[i];
                let rec = Record {
                    id: cur.id,
                    parent: new_parent,
                    code,
                    name,
                    created_at: cur.created_at,
                    updated_at: now,
                };
                let r = rec.copy();
                self.rows.set(i, rec);
                assert(self@.rows =~= before.rows.update(i as int, r@));
                Ok(r)
            },
        }
    }

    /// Removes the record `id` under `parent`, giving the count removed.
    pub fn delete(&mut self, id: i32, parent: Option<i32>) -> (r: Result<usize, RecordError>)
        requires
            old(self).wf(),
        ensures
            final(self).wf(),
            (final(self)@, r) == delete_spec(old(self)@, id as int, parent),
    {
        match self.position(id, parent) {
            None => Err(RecordError::NotFound),
            Some(i) => {
                let ghost before = self@;
                self.rows.remove(i);
                assert(self@.rows =~= before.rows.remove(i as int));
                Ok(1)
            },
        }
    }
}

} // verus!
