//! The employee operations, driven against a small in-memory store.

use workforce::key::DocumentKey;
use workforce::protocol::{Outcome, RepoError, Reply, Request, Step};
use workforce::schema::{
    CreateEmployee, DeleteEmployee, Employee, Rank, Status, Store, UpdateEmployee,
};
use workforce::session::MongoDB;

struct Shelf {
    employees: Vec<Employee>,
    stores: Vec<Store>,
    ranks: Vec<Rank>,
    issued: u8,
    log: Vec<Request>,
}

fn key(n: u8) -> DocumentKey {
    DocumentKey::from_bytes([n; 12])
}

fn text(n: u8) -> String {
    format!("{:02x}", n).repeat(12)
}

impl Shelf {
    fn new() -> Shelf {
        Shelf { employees: vec![], stores: vec![], ranks: vec![], issued: 0xe0, log: vec![] }
    }

    fn with_store(mut self, n: u8) -> Shelf {
        self.stores.push(Store {
            id: Some(key(n)),
            name: format!("store {}", n),
            location_id: String::new(),
        });
        self
    }

    fn with_rank(mut self, n: u8) -> Shelf {
        self.ranks.push(Rank {
            id: Some(key(n)),
            name: format!("rank {}", n),
            description: String::new(),
        });
        self
    }

    fn with_employee(mut self, employee: Employee) -> Shelf {
        self.employees.push(employee);
        self
    }

    fn writes(&self) -> usize {
        self.log
            .iter()
            .filter(|r| {
                matches!(
                    r,
                    Request::InsertEmployee(_)
                        | Request::UpdateEmployee(_, _)
                        | Request::DeleteEmployee(_)
                )
            })
            .count()
    }

    fn perform(&mut self, request: Request) -> Reply {
        self.log.push(request.clone());
        match request {
            Request::FindEmployee(k) => {
                Reply::Employee(self.employees.iter().find(|e| e.id == Some(k)).cloned())
            }
            Request::FindStore(k) => {
                Reply::Store(self.stores.iter().find(|s| s.id == Some(k)).cloned())
            }
            Request::FindRank(k) => {
                Reply::Rank(self.ranks.iter().find(|r| r.id == Some(k)).cloned())
            }
            Request::ListEmployees => Reply::Employees(self.employees.clone()),
            Request::InsertEmployee(mut doc) => {
                self.issued += 1;
                doc.id = Some(key(self.issued));
                self.employees.push(doc);
                Reply::Inserted(key(self.issued))
            }
            Request::UpdateEmployee(k, fields) => {
                for e in self.employees.iter_mut().filter(|e| e.id == Some(k)) {
                    e.first_name = fields.first_name.clone();
                    e.last_name = fields.last_name.clone();
                    e.status = Some(fields.status);
                    e.stores = Some(fields.stores.clone());
                    e.rank_id = Some(fields.rank_id.clone());
                }
                Reply::Updated
            }
            Request::DeleteEmployee(k) => {
                let before = self.employees.len();
                self.employees.retain(|e| e.id != Some(k));
                Reply::Deleted((before - self.employees.len()) as u64)
            }
            _ => Reply::Failed,
        }
    }
}

fn drive(shelf: &mut Shelf, db: &mut MongoDB, mut step: Step) -> Result<Outcome, RepoError> {
    loop {
        match step {
            Step::Ask(request) => {
                let reply = shelf.perform(request);
                step = db.resume(reply);
            }
            Step::Done(result) => return result,
        }
    }
}

fn create(shelf: &mut Shelf, entry: CreateEmployee) -> Result<Outcome, RepoError> {
    let mut db = MongoDB::init();
    let step = db.create_employee(entry);
    let result = drive(shelf, &mut db, step);
    assert!(db.is_idle());
    result
}

fn update(shelf: &mut Shelf, entry: UpdateEmployee) -> Result<Outcome, RepoError> {
    let mut db = MongoDB::init();
    let step = db.update_employee(entry);
    let result = drive(shelf, &mut db, step);
    assert!(db.is_idle());
    result
}

fn delete(shelf: &mut Shelf, id: String) -> Result<Outcome, RepoError> {
    let mut db = MongoDB::init();
    let step = db.delete_employee(DeleteEmployee { id });
    drive(shelf, &mut db, step)
}

fn stored(n: u8, rank: u8) -> Employee {
    Employee {
        id: Some(key(n)),
        first_name: "Maria".to_string(),
        last_name: "Ionescu".to_string(),
        status: Some(Status::Vacation),
        stores: Some(vec![text(0x51), text(0x52)]),
        rank_id: Some(text(rank)),
    }
}

fn only(id: String) -> UpdateEmployee {
    UpdateEmployee { id, first_name: None, last_name: None, status: None, stores: None, rank_id: None }
}

#[test]
fn create_keeps_the_stores_that_exist_and_the_rank_that_exists() {
    let mut shelf = Shelf::new().with_store(0x51).with_rank(0x71);
    let result = create(
        &mut shelf,
        CreateEmployee {
            first_name: "Ana".to_string(),
            last_name: "Popescu".to_string(),
            status: None,
            stores: Some(vec![text(0x51), text(0x52)]),
            rank_id: text(0x71),
        },
    );
    let expected = Employee {
        id: Some(key(0xe1)),
        first_name: "Ana".to_string(),
        last_name: "Popescu".to_string(),
        status: Some(Status::Unset),
        stores: Some(vec![text(0x51)]),
        rank_id: Some(text(0x71)),
    };
    assert_eq!(result, Ok(Outcome::Employee(expected.clone())));
    assert_eq!(shelf.employees, vec![expected]);
    assert_eq!(shelf.writes(), 1);
}

#[test]
fn create_looks_the_stores_up_before_the_rank() {
    let mut shelf = Shelf::new().with_store(0x51).with_rank(0x71);
    let _ = create(
        &mut shelf,
        CreateEmployee {
            first_name: "Ana".to_string(),
            last_name: "Popescu".to_string(),
            status: Some(Status::Working),
            stores: Some(vec![text(0x51), "S2".to_string(), text(0x52)]),
            rank_id: text(0x71),
        },
    );
    assert_eq!(shelf.log.len(), 4);
    assert_eq!(shelf.log[0], Request::FindStore(key(0x51)));
    assert_eq!(shelf.log[1], Request::FindStore(key(0x52)));
    assert_eq!(shelf.log[2], Request::FindRank(key(0x71)));
    assert!(matches!(shelf.log[3], Request::InsertEmployee(_)));
}

#[test]
fn create_with_a_rank_that_does_not_exist_stores_the_empty_reference() {
    let mut shelf = Shelf::new().with_rank(0x71);
    let result = create(
        &mut shelf,
        CreateEmployee {
            first_name: "Ana".to_string(),
            last_name: "Popescu".to_string(),
            status: Some(Status::Illness),
            stores: None,
            rank_id: text(0x72),
        },
    );
    match result {
        Ok(Outcome::Employee(e)) => {
            assert_eq!(e.rank_id, Some(String::new()));
            assert_eq!(e.stores, Some(vec![]));
            assert_eq!(e.status, Some(Status::Illness));
        }
        other => panic!("unexpected {:?}", other),
    }
    assert_eq!(shelf.employees[0].rank_id, Some(String::new()));
}

#[test]
fn create_with_a_rank_that_is_no_key_asks_nothing_about_it() {
    let mut shelf = Shelf::new().with_rank(0x71);
    let result = create(
        &mut shelf,
        CreateEmployee {
            first_name: "Ana".to_string(),
            last_name: "Popescu".to_string(),
            status: None,
            stores: Some(vec![]),
            rank_id: "R1".to_string(),
        },
    );
    assert!(matches!(result, Ok(Outcome::Employee(_))));
    assert_eq!(shelf.log.len(), 1);
    assert_eq!(shelf.employees[0].rank_id, Some(String::new()));
}

#[test]
fn create_keeps_order_and_duplicates_of_the_stores() {
    let mut shelf = Shelf::new().with_store(0x51).with_store(0x53);
    let result = create(
        &mut shelf,
        CreateEmployee {
            first_name: "Ana".to_string(),
            last_name: "Popescu".to_string(),
            status: None,
            stores: Some(vec![
                text(0x53),
                text(0x52),
                text(0x51),
                "not a key".to_string(),
                text(0x53),
                text(0x51).to_uppercase(),
            ]),
            rank_id: String::new(),
        },
    );
    match result {
        Ok(Outcome::Employee(e)) => assert_eq!(e.stores, Some(vec![text(0x53), text(0x51), text(0x53), text(0x51).to_uppercase()])),
        other => panic!("unexpected {:?}", other),
    }
}

#[test]
fn create_fails_when_the_insert_fails() {
    let mut db = MongoDB::init();
    let step = db.create_employee(CreateEmployee {
        first_name: "Ana".to_string(),
        last_name: "Popescu".to_string(),
        status: None,
        stores: None,
        rank_id: String::new(),
    });
    assert!(matches!(step, Step::Ask(Request::InsertEmployee(_))));
    assert_eq!(db.resume(Reply::Failed), Step::Done(Err(RepoError::PersistenceFailure)));
    assert!(db.is_idle());
}

#[test]
fn update_with_a_rank_that_does_not_exist_keeps_the_rank() {
    let mut shelf = Shelf::new().with_rank(0x71).with_employee(stored(0x11, 0x71));
    let entry = UpdateEmployee { rank_id: Some(text(0x7b)), ..only(text(0x11)) };
    let result = update(&mut shelf, entry);
    match result {
        Ok(Outcome::Employee(e)) => assert_eq!(e.rank_id, Some(text(0x71))),
        other => panic!("unexpected {:?}", other),
    }
    assert_eq!(shelf.employees[0].rank_id, Some(text(0x71)));
}

#[test]
fn update_with_a_rank_that_is_no_key_keeps_the_rank() {
    let mut shelf = Shelf::new().with_rank(0x71).with_employee(stored(0x11, 0x71));
    let entry = UpdateEmployee { rank_id: Some("Rbad".to_string()), ..only(text(0x11)) };
    let result = update(&mut shelf, entry);
    assert!(matches!(result, Ok(Outcome::Employee(_))));
    assert_eq!(shelf.employees[0].rank_id, Some(text(0x71)));
}

#[test]
fn update_with_a_rank_that_exists_takes_it_as_given() {
    let mut shelf =
        Shelf::new().with_rank(0x71).with_rank(0x7a).with_employee(stored(0x11, 0x71));
    let entry = UpdateEmployee { rank_id: Some(text(0x7a).to_uppercase()), ..only(text(0x11)) };
    let result = update(&mut shelf, entry);
    assert!(matches!(result, Ok(Outcome::Employee(_))));
    assert_eq!(shelf.employees[0].rank_id, Some(text(0x7a).to_uppercase()));
}

#[test]
fn update_with_only_a_first_name_clears_status_and_stores() {
    let mut shelf = Shelf::new().with_store(0x51).with_employee(stored(0x11, 0x71));
    let entry = UpdateEmployee { first_name: Some("Elena".to_string()), ..only(text(0x11)) };
    let result = update(&mut shelf, entry);
    let expected = Employee {
        id: Some(key(0x11)),
        first_name: "Elena".to_string(),
        last_name: "Ionescu".to_string(),
        status: Some(Status::Unset),
        stores: Some(vec![]),
        rank_id: Some(text(0x71)),
    };
    assert_eq!(result, Ok(Outcome::Employee(expected.clone())));
    assert_eq!(shelf.employees, vec![expected]);
    assert_eq!(
        shelf.log,
        vec![
            Request::FindEmployee(key(0x11)),
            Request::UpdateEmployee(
                key(0x11),
                workforce::schema::EmployeeFields {
                    first_name: "Elena".to_string(),
                    last_name: "Ionescu".to_string(),
                    status: Status::Unset,
                    stores: vec![],
                    rank_id: text(0x71),
                }
            ),
            Request::FindEmployee(key(0x11)),
        ]
    );
}

#[test]
fn update_filters_the_stores_it_is_given() {
    let mut shelf = Shelf::new().with_store(0x52).with_employee(stored(0x11, 0x71));
    let entry = UpdateEmployee {
        last_name: Some("Radu".to_string()),
        status: Some(Status::EmergencyService),
        stores: Some(vec![text(0x51), text(0x52), "x".to_string(), text(0x52)]),
        ..only(text(0x11))
    };
    let result = update(&mut shelf, entry);
    match result {
        Ok(Outcome::Employee(e)) => {
            assert_eq!(e.first_name, "Maria");
            assert_eq!(e.last_name, "Radu");
            assert_eq!(e.status, Some(Status::EmergencyService));
            assert_eq!(e.stores, Some(vec![text(0x52), text(0x52)]));
        }
        other => panic!("unexpected {:?}", other),
    }
}

#[test]
fn update_of_an_employee_without_a_rank_falls_back_to_the_empty_reference() {
    let mut held = stored(0x11, 0x71);
    held.rank_id = None;
    let mut shelf = Shelf::new().with_employee(held);
    let entry = UpdateEmployee { rank_id: Some(text(0x7b)), ..only(text(0x11)) };
    let _ = update(&mut shelf, entry);
    assert_eq!(shelf.employees[0].rank_id, Some(String::new()));
}

#[test]
fn update_of_a_missing_employee_is_not_found_and_writes_nothing() {
    let mut shelf = Shelf::new().with_rank(0x71).with_employee(stored(0x11, 0x71));
    let entry = UpdateEmployee {
        first_name: Some("Elena".to_string()),
        rank_id: Some(text(0x71)),
        stores: Some(vec![text(0x51)]),
        ..only(text(0x12))
    };
    assert_eq!(update(&mut shelf, entry), Err(RepoError::NotFound));
    assert_eq!(shelf.writes(), 0);
    assert_eq!(shelf.log, vec![Request::FindEmployee(key(0x12))]);
    assert_eq!(shelf.employees, vec![stored(0x11, 0x71)]);
}

#[test]
fn update_under_an_identifier_that_is_no_key_is_refused() {
    let mut shelf = Shelf::new().with_employee(stored(0x11, 0x71));
    assert_eq!(update(&mut shelf, only("11".to_string())), Err(RepoError::InvalidIdentifier));
    assert!(shelf.log.is_empty());
}

#[test]
fn update_fails_when_the_write_fails() {
    let mut db = MongoDB::init();
    let step = db.update_employee(only(text(0x11)));
    assert_eq!(step, Step::Ask(Request::FindEmployee(key(0x11))));
    let step = db.resume(Reply::Employee(Some(stored(0x11, 0x71))));
    assert!(matches!(step, Step::Ask(Request::UpdateEmployee(_, _))));
    assert_eq!(db.resume(Reply::Failed), Step::Done(Err(RepoError::PersistenceFailure)));
}

#[test]
fn update_fails_when_the_fetch_fails() {
    let mut db = MongoDB::init();
    let _ = db.update_employee(only(text(0x11)));
    assert_eq!(db.resume(Reply::Failed), Step::Done(Err(RepoError::PersistenceFailure)));
    assert!(db.is_idle());
}

#[test]
fn update_hands_back_what_the_store_holds_afterwards() {
    let mut db = MongoDB::init();
    let _ = db.update_employee(only(text(0x11)));
    let _ = db.resume(Reply::Employee(Some(stored(0x11, 0x71))));
    assert_eq!(db.resume(Reply::Updated), Step::Ask(Request::FindEmployee(key(0x11))));
    let other = stored(0x11, 0x7f);
    assert_eq!(
        db.resume(Reply::Employee(Some(other.clone()))),
        Step::Done(Ok(Outcome::Employee(other)))
    );
}

#[test]
fn update_whose_employee_vanished_before_the_last_fetch_is_not_found() {
    let mut db = MongoDB::init();
    let _ = db.update_employee(only(text(0x11)));
    let _ = db.resume(Reply::Employee(Some(stored(0x11, 0x71))));
    let _ = db.resume(Reply::Updated);
    assert_eq!(db.resume(Reply::Employee(None)), Step::Done(Err(RepoError::NotFound)));
}

#[test]
fn delete_of_a_missing_employee_is_not_found() {
    let mut shelf = Shelf::new().with_employee(stored(0x11, 0x71));
    assert_eq!(delete(&mut shelf, text(0x12)), Err(RepoError::NotFound));
    assert_eq!(shelf.employees.len(), 1);
}

#[test]
fn delete_removes_the_employee_and_hands_back_a_blank_one() {
    let mut shelf = Shelf::new().with_employee(stored(0x11, 0x71));
    let blank = Employee {
        id: None,
        first_name: String::new(),
        last_name: String::new(),
        status: None,
        stores: None,
        rank_id: None,
    };
    assert_eq!(delete(&mut shelf, text(0x11)), Ok(Outcome::Employee(blank)));
    assert!(shelf.employees.is_empty());
}

#[test]
fn delete_under_an_identifier_that_is_no_key_is_refused() {
    let mut shelf = Shelf::new();
    assert_eq!(delete(&mut shelf, "zz".repeat(12)), Err(RepoError::InvalidIdentifier));
    assert!(shelf.log.is_empty());
}

#[test]
fn delete_fails_when_the_store_fails() {
    let mut db = MongoDB::init();
    let step = db.delete_employee(DeleteEmployee { id: text(0x11) });
    assert_eq!(step, Step::Ask(Request::DeleteEmployee(key(0x11))));
    assert_eq!(db.resume(Reply::Failed), Step::Done(Err(RepoError::PersistenceFailure)));
}

#[test]
fn a_reply_to_an_idle_session_is_a_failure() {
    let mut db = MongoDB::init();
    assert!(db.is_idle());
    assert_eq!(db.resume(Reply::Updated), Step::Done(Err(RepoError::PersistenceFailure)));
    assert!(db.is_idle());
}

#[test]
fn starting_an_operation_abandons_the_one_that_waits() {
    let mut db = MongoDB::init();
    let _ = db.update_employee(only(text(0x11)));
    assert!(!db.is_idle());
    let step = db.get_all_employees();
    assert_eq!(step, Step::Ask(Request::ListEmployees));
    let all = vec![stored(0x11, 0x71), stored(0x12, 0x71)];
    assert_eq!(
        db.resume(Reply::Employees(all.clone())),
        Step::Done(Ok(Outcome::Employees(all)))
    );
}
