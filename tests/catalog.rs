use bank_api::catalog::Database;
use bank_api::models::{Agencies, Agency, Bank, Banks};
use bank_api::records::{RecordError, RecordTable};

fn bank(code: &str, name: &str) -> Bank {
    Bank { code: code.to_string(), name: name.to_string() }
}

fn agency(code: &str, name: &str, bank_id: i32) -> Agency {
    Agency { code: code.to_string(), name: name.to_string(), bank_id }
}

#[test]
fn banks_are_created_listed_and_found() {
    let mut table = RecordTable::new();
    let a = Banks::create_bank(&mut table, bank("001", "First")).unwrap();
    let b = Banks::create_bank(&mut table, bank("002", "Second")).unwrap();
    assert_eq!((a.id, b.id), (1, 2));
    assert_eq!(a.created_at, a.updated_at);
    let all = Banks::get_banks(&table).unwrap();
    assert_eq!(all.len(), 2);
    assert_eq!(all[0].code, "001");
    assert_eq!(all[1].name, "Second");
    assert_eq!(Banks::get_bank(&table, 2).unwrap().code, "002");
    assert_eq!(Banks::get_bank(&table, 3).err(), Some(RecordError::NotFound));
}

#[test]
fn bank_update_and_delete() {
    let mut table = RecordTable::new();
    let a = Banks::create_bank(&mut table, bank("001", "First")).unwrap();
    let u = Banks::update_bank(&mut table, a.id, bank("009", "Renamed")).unwrap();
    assert_eq!(u.id, a.id);
    assert_eq!(u.code, "009");
    assert_eq!(u.created_at, a.created_at);
    assert_eq!(Banks::update_bank(&mut table, 42, bank("x", "y")).err(), Some(RecordError::NotFound));
    assert_eq!(Banks::delete_bank(&mut table, a.id), Ok(Some(1)));
    assert_eq!(Banks::delete_bank(&mut table, a.id), Err(RecordError::NotFound));
    assert_eq!(Banks::get_banks(&table).unwrap().len(), 0);
}

#[test]
fn agencies_are_scoped_by_bank() {
    let mut table = RecordTable::new();
    let a1 = Agencies::create_agency(&mut table, agency("0001", "Centro", 1)).unwrap();
    let a2 = Agencies::create_agency(&mut table, agency("0002", "Norte", 2)).unwrap();
    let a3 = Agencies::create_agency(&mut table, agency("0003", "Sul", 1)).unwrap();
    let of_one = Agencies::get_agencies(&table, 1).unwrap();
    assert_eq!(of_one.len(), 2);
    assert_eq!(of_one[0].id, a1.id);
    assert_eq!(of_one[1].id, a3.id);
    assert_eq!(of_one[1].bank_id, 1);
    assert_eq!(Agencies::get_agencies(&table, 3).unwrap().len(), 0);
    assert_eq!(Agencies::get_agency(&table, 2, a2.id).unwrap().len(), 1);
    assert_eq!(Agencies::get_agency(&table, 1, a2.id).unwrap().len(), 0);
}

#[test]
fn agency_update_and_delete_need_the_right_bank() {
    let mut table = RecordTable::new();
    let a = Agencies::create_agency(&mut table, agency("0001", "Centro", 1)).unwrap();
    assert_eq!(
        Agencies::update_agency(&mut table, 2, a.id, agency("0009", "X", 2)).err(),
        Some(RecordError::NotFound)
    );
    let u = Agencies::update_agency(&mut table, 1, a.id, agency("0009", "Renamed", 1)).unwrap();
    assert_eq!(u.name, "Renamed");
    assert_eq!(u.bank_id, 1);
    assert_eq!(Agencies::delete_agency(&mut table, 2, a.id), Err(RecordError::NotFound));
    assert_eq!(Agencies::delete_agency(&mut table, 1, a.id), Ok(Some(1)));
    assert_eq!(Agencies::get_agencies(&table, 1).unwrap().len(), 0);
}

#[test]
fn record_error_status_codes() {
    assert_eq!(RecordError::NotFound.status_code(), 404);
    assert_eq!(RecordError::StoreUnavailable.status_code(), 500);
}

#[test]
fn new_database_is_empty() {
    let db = Database::new();
    assert_eq!(Banks::get_banks(&db.banks).unwrap().len(), 0);
    assert_eq!(Agencies::get_agencies(&db.agencies, 1).unwrap().len(), 0);
    assert_eq!(db.users.len(), 0);
}

#[test]
fn database_bank_methods() {
    let mut db = Database::new();
    let a = db.create_bank(bank("001", "First")).unwrap();
    assert_eq!(db.get_banks().len(), 1);
    assert_eq!(db.get_bank(a.id).unwrap().name, "First");
    assert!(db.get_bank(a.id + 1).is_none());
    let u = db.update_bank(a.id, bank("001", "Renamed")).unwrap();
    assert_eq!(u.name, "Renamed");
    assert_eq!(db.update_bank(99, bank("x", "y")).err(), Some(RecordError::NotFound));
    assert_eq!(db.delete_bank(a.id), Ok(1));
    assert_eq!(db.delete_bank(a.id), Ok(0));
    assert!(db.get_banks().is_empty());
}

#[test]
fn agency_update_takes_the_bank_of_the_body() {
    let mut table = RecordTable::new();
    let a = Agencies::create_agency(&mut table, agency("0001", "Centro", 1)).unwrap();
    let moved = Agencies::update_agency(&mut table, 1, a.id, agency("0001", "Centro", 2)).unwrap();
    assert_eq!(moved.id, a.id);
    assert_eq!(moved.bank_id, 2);
    assert_eq!(moved.created_at, a.created_at);
    assert_eq!(Agencies::get_agencies(&table, 1).unwrap().len(), 0);
    let of_two = Agencies::get_agencies(&table, 2).unwrap();
    assert_eq!(of_two.len(), 1);
    assert_eq!(of_two[0].id, a.id);
}
