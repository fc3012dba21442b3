//! Banks and their agencies, kept in record tables: banks as records without
//! a parent, agencies as records whose parent is their bank.
use crate::hashing::now_timestamp;
use crate::models::{Agencies, Agency, Bank, Banks};
use crate::records::{
    create_spec, delete_spec, has_record, list_spec, record_index, update_spec,
    Record, RecordError, RecordTable, RecordView,
};
use crate::store::AccountStore;
use vstd::prelude::*;

verus! {

impl View for Banks {
    type V = RecordView;

    open spec fn view(&self) -> RecordView {
        RecordView {
            id: self.id as int,
            parent: None,
            code: self.code@,
            name: self.name@,
            created_at: self.created_at as int,
            updated_at: self.updated_at as int,
        }
    }
}

impl View for Agencies {
    type V = RecordView;

    open spec fn view(&self) -> RecordView {
        RecordView {
            id: self.id as int,
            parent: Some(self.bank_id),
            code: self.code@,
            name: self.name@,
            created_at: self.created_at as int,
            updated_at: self.updated_at as int,
        }
    }
}

/// The value of a bank operation's result.
pub open spec fn bank_result(r: Result<Banks, RecordError>) -> Result<RecordView, RecordError> {
    match r {
        Ok(b) => Ok(b@),
        Err(e) => Err(e),
    }
}

/// The value of an agency operation's result.
pub open spec fn agency_result(r: Result<Agencies, RecordError>) -> Result<RecordView, RecordError> {
    match r {
        Ok(a) => Ok(a@),
        Err(e) => Err(e),
    }
}

/// The bank that a parentless record holds.
fn bank_from(r: Record) -> (b: Banks)
    requires
        r.parent is None,
    ensures
        b@ == r@,
{
    Banks { id: r.id, code: r.code, name: r.name, created_at: r.created_at, updated_at: r.updated_at }
}

/// The agency that a record with a parent holds.
fn agency_from(r: Record) -> (a: Agencies)
    requires
        r.parent is Some,
    ensures
        a@ == r@,
{
    let bank_id = match r.parent {
        Some(b) => b,
        None => 0,
    };
    Agencies {
        id: r.id,
        code: r.code,
        name: r.name,
        bank_id,
        created_at: r.created_at,
        updated_at: r.updated_at,
    }
}

impl Banks {
    /// All banks, in insertion order.
    pub fn get_banks(table: &RecordTable) -> (r: Result<Vec<Banks>, RecordError>)
        ensures
            r matches Ok(v) && v@.map_values(|b: Banks| b@) == list_spec(table@.rows, None),
    {
        let records = table.list(None);
        let ghost listed = list_spec(table@.rows, None);
        let mut out: Vec<Banks> = Vec::new();
        let mut i: usize = 0;
        let n = records.len();
        proof {
            assert(records@.map_values(|x: Record| x@) == listed);
        }
        while i < n
            invariant
                n == records@.len(),
                records@.map_values(|x: Record| x@) == listed,
                listed == list_spec(table@.rows, None),
                i <= n,
                out@.len() == i,
                forall|k: int| 0 <= k < i ==> #[trigger] out@[k]@ == listed[k],
            decreases n - i,
        {
            let rec = records[i].copy();
            proof {
                assert(rec@ == listed[i as int]);
                table@.rows.lemma_filter_pred(|r: RecordView| r.parent == None::<i32>, i as int);
            }
            out.push(bank_from(rec));
            i = i + 1;
        }
        assert(out@.map_values(|b: Banks| b@) =~= listed);
        Ok(out)
    }

    /// The bank `id`.
    pub fn get_bank(table: &RecordTable, id: i32) -> (r: Result<Banks, RecordError>)
        requires
            table.wf(),
        ensures
            match r {
                Ok(b) => has_record(table@.rows, id as int, None) && b@ == table@.rows[record_index(
                    table@.rows,
                    id as int,
                    None,
                )],
                Err(e) => e is NotFound && !has_record(table@.rows, id as int, None),
            },
    {
        let rec = table.get(id, None)?;
        proof {
            let j = record_index(table@.rows, id as int, None);
            assert(table@.rows[j].parent == None::<i32>);
        }
        Ok(bank_from(rec))
    }

    /// Adds a bank, stamped with the current time.
    pub fn create_bank(table: &mut RecordTable, bank: Bank) -> (r: Result<Banks, RecordError>)
        requires
            old(table).wf(),
        ensures
            final(table).wf(),
            exists|now: int|
                (final(table)@, bank_result(r)) == create_spec(
                    old(table)@,
                    None,
                    bank.code@,
                    bank.name@,
                    now,
                ),
    {
        let now = now_timestamp();
        let rec = table.create(None, bank.code, bank.name, now)?;
        Ok(bank_from(rec))
    }

    /// Replaces the code and name of the bank `id`, stamped with the current
    /// time.
    pub fn update_bank(table: &mut RecordTable, id: i32, bank: Bank) -> (r: Result<Banks, RecordError>)
        requires
            old(table).wf(),
        ensures
            final(table).wf(),
            exists|now: int|
                (final(table)@, bank_result(r)) == update_spec(
                    old(table)@,
                    id as int,
                    None,
                    None,
                    bank.code@,
                    bank.name@,
                    now,
                ),
    {
        let now = now_timestamp();
        let rec = table.update(id, None, None, bank.code, bank.name, now)?;
        Ok(bank_from(rec))
    }

    /// Removes the bank `id`, giving the count removed.
    pub fn delete_bank(table: &mut RecordTable, id: i32) -> (r: Result<Option<usize>, RecordError>)
        requires
            old(table).wf(),
        ensures
            final(table).wf(),
            final(table)@ == delete_spec(old(table)@, id as int, None).0,
            match delete_spec(old(table)@, id as int, None).1 {
                Ok(n) => r == Ok::<Option<usize>, RecordError>(Some(n)),
                Err(e) => r == Err::<Option<usize>, RecordError>(e),
            },
    {
        let n = table.delete(id, None)?;
        Ok(Some(n))
    }
}

impl Agencies {
    /// The agencies of the bank `bank_id`, in insertion order.
    pub fn get_agencies(table: &RecordTable, bank_id: i32) -> (r: Result<Vec<Agencies>, RecordError>)
        ensures
            r matches Ok(v) && v@.map_values(|a: Agencies| a@) == list_spec(table@.rows, Some(bank_id)),
    {
        let records = table.list(Some(bank_id));
        let ghost listed = list_spec(table@.rows, Some(bank_id));
        let mut out: Vec<Agencies> = Vec::new();
        let mut i: usize = 0;
        let n = records.len();
        proof {
            assert(records@.map_values(|x: Record| x@) == listed);
        }
        while i < n
            invariant
                n == records@.len(),
                records@.map_values(|x: Record| x@) == listed,
                listed == list_spec(table@.rows, Some(bank_id)),
                i <= n,
                out@.len() == i,
                forall|k: int| 0 <= k < i ==> #[trigger] out@[k]@ == listed[k],
            decreases n - i,
        {
            let rec = records[i].copy();
            proof {
                assert(rec@ == listed[i as int]);
                table@.rows.lemma_filter_pred(|r: RecordView| r.parent == Some(bank_id), i as int);
            }
            out.push(agency_from(rec));
            i = i + 1;
        }
        assert(out@.map_values(|a: Agencies| a@) =~= listed);
        Ok(out)
    }

    /// The agency `id` of the bank `bank_id`, as a list of one, or an empty
    /// list where the bank has no such agency.
    pub fn get_agency(table: &RecordTable, bank_id: i32, id: i32) -> (r: Result<Vec<Agencies>, RecordError>)
        requires
            table.wf(),
        ensures
            r matches Ok(v) && if has_record(table@.rows, id as int, Some(bank_id)) {
                v@.map_values(|a: Agencies| a@) == seq![
                    table@.rows[record_index(table@.rows, id as int, Some(bank_id))],
                ]
            } else {
                v@.len() == 0
            },
    {
        let mut out: Vec<Agencies> = Vec::new();
        match table.get(id, Some(bank_id)) {
            Ok(rec) => {
                proof {
                    let j = record_index(table@.rows, id as int, Some(bank_id));
                    assert(table@.rows[j].parent == Some(bank_id));
                }
                out.push(agency_from(rec));
                assert(out@.map_values(|a: Agencies| a@) =~= seq![
                    table@.rows[record_index(table@.rows, id as int, Some(bank_id))],
                ]);
            },
            Err(_) => {},
        }
        Ok(out)
    }

    /// Adds an agency to the bank `agency.bank_id`, stamped with the current
    /// time.
    pub fn create_agency(table: &mut RecordTable, agency: Agency) -> (r: Result<Agencies, RecordError>)
        requires
            old(table).wf(),
        ensures
            final(table).wf(),
            exists|now: int|
                (final(table)@, agency_result(r)) == create_spec(
                    old(table)@,
                    Some(agency.bank_id),
                    agency.code@,
                    agency.name@,
                    now,
                ),
    {
        let now = now_timestamp();
        let rec = table.create(Some(agency.bank_id), agency.code, agency.name, now)?;
        Ok(agency_from(rec))
    }

    /// Replaces the fields of the agency `id` of the bank `bank_id` by those
    /// of `agency`, its bank included, stamped with the current time.
    pub fn update_agency(table: &mut RecordTable, bank_id: i32, id: i32, agency: Agency) -> (r: Result<
        Agencies,
        RecordError,
    >)
        requires
            old(table).wf(),
        ensures
            final(table).wf(),
            exists|now: int|
                (final(table)@, agency_result(r)) == update_spec(
                    old(table)@,
                    id as int,
                    Some(bank_id),
                    Some(agency.bank_id),
                    agency.code@,
                    agency.name@,
                    now,
                ),
            r matches Ok(a) ==> a.id == id && a.bank_id == agency.bank_id && a.code@ == agency.code@
                && a.name@ == agency.name@,
    {
        let now = now_timestamp();
        let rec = table.update(id, Some(bank_id), Some(agency.bank_id), agency.code, agency.name, now)?;
        Ok(agency_from(rec))
    }

    /// Removes the agency `id` of the bank `bank_id`, giving the count
    /// removed.
    pub fn delete_agency(table: &mut RecordTable, bank_id: i32, id: i32) -> (r: Result<
        Option<usize>,
        RecordError,
    >)
        requires
            old(table).wf(),
        ensures
            final(table).wf(),
            final(table)@ == delete_spec(old(table)@, id as int, Some(bank_id)).0,
            match delete_spec(old(table)@, id as int, Some(bank_id)).1 {
                Ok(n) => r == Ok::<Option<usize>, RecordError>(Some(n)),
                Err(e) => r == Err::<Option<usize>, RecordError>(e),
            },
    {
        let n = table.delete(id, Some(bank_id))?;
        Ok(Some(n))
    }
}

/// Everything the service stores: banks, agencies and accounts.
pub struct Database {
    pub banks: RecordTable,
    pub agencies: RecordTable,
    pub users: AccountStore,
}

impl Database {
    /// Whether every table keeps its invariant.
    pub open spec fn wf(&self) -> bool {
        self.banks.wf() && self.agencies.wf() && self.users.wf()
    }

    /// An empty database.
    pub fn new() -> (r: Database)
        ensures
            r.wf(),
            r.banks@.rows.len() == 0,
            r.agencies@.rows.len() == 0,
            r.users@.accounts.len() == 0,
    {
        Database { banks: RecordTable::new(), agencies: RecordTable::new(), users: AccountStore::new() }
    }

    /// All banks, in insertion order.
    pub fn get_banks(&self) -> (r: Vec<Banks>)
        ensures
            r@.map_values(|b: Banks| b@) == list_spec(self.banks@.rows, None),
    {
        match Banks::get_banks(&self.banks) {
            Ok(v) => v,
            Err(_) => Vec::new(),
        }
    }

    /// The bank `id`, if there is one.
    pub fn get_bank(&self, id: i32) -> (r: Option<Banks>)
        requires
            self.wf(),
        ensures
            match r {
                Some(b) => has_record(self.banks@.rows, id as int, None) && b@
                    == self.banks@.rows[record_index(self.banks@.rows, id as int, None)],
                None => !has_record(self.banks@.rows, id as int, None),
            },
    {
        Banks::get_bank(&self.banks, id).ok()
    }

    /// Adds a bank, stamped with the current time.
    pub fn create_bank(&mut self, bank: Bank) -> (r: Result<Banks, RecordError>)
        requires
            old(self).wf(),
        ensures
            final(self).wf(),
            final(self).agencies == old(self).agencies,
            final(self).users == old(self).users,
            exists|now: int|
                (final(self).banks@, bank_result(r)) == create_spec(
                    old(self).banks@,
                    None,
                    bank.code@,
                    bank.name@,
                    now,
                ),
    {
        Banks::create_bank(&mut self.banks, bank)
    }

    /// Replaces the code and name of the bank `id`, stamped with the current
    /// time.
    pub fn update_bank(&mut self, id: i32, bank: Bank) -> (r: Result<Banks, RecordError>)
        requires
            old(self).wf(),
        ensures
            final(self).wf(),
            final(self).agencies == old(self).agencies,
            final(self).users == old(self).users,
            exists|now: int|
                (final(self).banks@, bank_result(r)) == update_spec(
                    old(self).banks@,
                    id as int,
                    None,
                    None,
                    bank.code@,
                    bank.name@,
                    now,
                ),
    {
        Banks::update_bank(&mut self.banks, id, bank)
    }

    /// Removes the bank `id`, giving the count removed: one where the bank
    /// exists, none where it does not.
    pub fn delete_bank(&mut self, id: i32) -> (r: Result<usize, RecordError>)
        requires
            old(self).wf(),
        ensures
            final(self).wf(),
            final(self).agencies == old(self).agencies,
            final(self).users == old(self).users,
            final(self).banks@ == delete_spec(old(self).banks@, id as int, None).0,
            r == Ok::<usize, RecordError>(
                if has_record(old(self).banks@.rows, id as int, None) {
                    1usize
                } else {
                    0usize
                },
            ),
    {
        match self.banks.delete(id, None) {
            Ok(n) => Ok(n),
            Err(_) => Ok(0),
        }
    }
}

} // verus!
