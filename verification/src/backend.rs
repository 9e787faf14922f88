//! A model of the document store, and what an operation comes to when
//! every request of it is answered as the model answers.

use crate::key::{is_key_text, key_bytes};
use crate::protocol::{OutcomeModel, RepoError, ReplyModel, RequestModel};
use crate::schema::{
    CreateEmployeeModel, EmployeeFieldsModel, EmployeeModel, LocationModel, RankModel,
    StoreModel, UpdateEmployeeModel,
};
use crate::transition::{
    blank_employee, effective_status, effective_text, lemma_next_makes_progress, next,
    no_reference, ProgressModel,
};
use vstd::prelude::*;

verus! {

/// The document store as the operations see it: what each collection holds
/// under which key, and the writes that were carried out, oldest first.
pub struct Backend {
    pub employees: Map<Seq<u8>, EmployeeModel>,
    pub stores: Map<Seq<u8>, StoreModel>,
    pub locations: Map<Seq<u8>, LocationModel>,
    pub ranks: Map<Seq<u8>, RankModel>,
    pub writes: Seq<RequestModel>,
}

/// The document under `key`, if there is one.
pub open spec fn lookup<D>(held: Map<Seq<u8>, D>, key: Seq<u8>) -> Option<D> {
    if held.dom().contains(key) {
        Some(held[key])
    } else {
        None
    }
}

/// The documents of a collection, one for each key, in some order.
pub open spec fn listing<D>(held: Map<Seq<u8>, D>) -> Seq<D> {
    held.dom().to_seq().map_values(|key: Seq<u8>| held[key])
}

/// Whether `reference` is the text of a key under which `held` has a
/// document.
pub open spec fn resolves<D>(held: Map<Seq<u8>, D>, reference: Seq<char>) -> bool {
    is_key_text(reference) && held.dom().contains(key_bytes(reference))
}

/// The employee `held` after its five fields were replaced by `fields`.
pub open spec fn with_fields(held: EmployeeModel, fields: EmployeeFieldsModel) -> EmployeeModel {
    EmployeeModel {
        id: held.id,
        first_name: fields.first_name,
        last_name: fields.last_name,
        status: Some(fields.status),
        stores: Some(fields.stores),
        rank_id: Some(fields.rank_id),
    }
}

/// Whether `request` asks the store to change what it holds.
pub open spec fn is_write(request: RequestModel) -> bool {
    match request {
        RequestModel::InsertEmployee(_) => true,
        RequestModel::InsertStore(_) => true,
        RequestModel::InsertLocation(_) => true,
        RequestModel::InsertRank(_) => true,
        RequestModel::UpdateEmployee(_, _) => true,
        RequestModel::DeleteEmployee(_) => true,
        _ => false,
    }
}

impl Backend {
    /// Whether `reference` names a store that exists.
    pub open spec fn resolves_store(self, reference: Seq<char>) -> bool {
        resolves(self.stores, reference)
    }

    /// Whether `reference` names a rank that exists.
    pub open spec fn resolves_rank(self, reference: Seq<char>) -> bool {
        resolves(self.ranks, reference)
    }

    /// [`Backend::resolves_store`] as a predicate.
    pub open spec fn store_resolver(self) -> spec_fn(Seq<char>) -> bool {
        |reference: Seq<char>| self.resolves_store(reference)
    }

    /// What the store answers to `request`; `fresh` is the key that it
    /// would assign to a new document.
    pub open spec fn answer(self, request: RequestModel, fresh: Seq<u8>) -> ReplyModel {
        match request {
            RequestModel::FindEmployee(key) => ReplyModel::Employee(lookup(self.employees, key)),
            RequestModel::FindStore(key) => ReplyModel::Store(lookup(self.stores, key)),
            RequestModel::FindLocation(key) => ReplyModel::Location(lookup(self.locations, key)),
            RequestModel::FindRank(key) => ReplyModel::Rank(lookup(self.ranks, key)),
            RequestModel::ListEmployees => ReplyModel::Employees(listing(self.employees)),
            RequestModel::ListStores => ReplyModel::Stores(listing(self.stores)),
            RequestModel::ListLocations => ReplyModel::Locations(listing(self.locations)),
            RequestModel::ListRanks => ReplyModel::Ranks(listing(self.ranks)),
            RequestModel::InsertEmployee(_) => ReplyModel::Inserted(fresh),
            RequestModel::InsertStore(_) => ReplyModel::Inserted(fresh),
            RequestModel::InsertLocation(_) => ReplyModel::Inserted(fresh),
            RequestModel::InsertRank(_) => ReplyModel::Inserted(fresh),
            RequestModel::UpdateEmployee(_, _) => ReplyModel::Updated,
            RequestModel::DeleteEmployee(key) => ReplyModel::Deleted(
                if self.employees.dom().contains(key) {
                    1
                } else {
                    0
                },
            ),
        }
    }

    /// What the store holds once it has carried `request` out.
    pub open spec fn apply(self, request: RequestModel, fresh: Seq<u8>) -> Backend {
        let writes = self.writes.push(request);
        match request {
            RequestModel::InsertEmployee(doc) => Backend {
                employees: self.employees.insert(fresh, EmployeeModel { id: Some(fresh), ..doc }),
                writes,
                ..self
            },
            RequestModel::InsertStore(doc) => Backend {
                stores: self.stores.insert(fresh, StoreModel { id: Some(fresh), ..doc }),
                writes,
                ..self
            },
            RequestModel::InsertLocation(doc) => Backend {
                locations: self.locations.insert(fresh, LocationModel { id: Some(fresh), ..doc }),
                writes,
                ..self
            },
            RequestModel::InsertRank(doc) => Backend {
                ranks: self.ranks.insert(fresh, RankModel { id: Some(fresh), ..doc }),
                writes,
                ..self
            },
            RequestModel::UpdateEmployee(key, fields) => Backend {
                employees: if self.employees.dom().contains(key) {
                    self.employees.insert(key, with_fields(self.employees[key], fields))
                } else {
                    self.employees
                },
                writes,
                ..self
            },
            RequestModel::DeleteEmployee(key) => Backend {
                employees: self.employees.remove(key),
                writes,
                ..self
            },
            _ => self,
        }
    }
}

/// How an operation ended: what the store holds, and the result.
pub struct Ended {
    pub backend: Backend,
    pub result: Result<OutcomeModel, RepoError>,
}

/// What `progress` comes to when the store answers every request as
/// `backend` does: the operation runs to its end.
pub open spec fn run(progress: ProgressModel, backend: Backend, fresh: Seq<u8>) -> Ended
    decreases progress.steps_left(),
{
    match progress {
        ProgressModel::Finish(result) => Ended { backend, result },
        ProgressModel::Continue(pending) => match pending.outstanding() {
            None => Ended { backend, result: Err(RepoError::PersistenceFailure) },
            Some(request) => {
                proof {
                    lemma_next_makes_progress(pending, backend.answer(request, fresh));
                }
                run(
                    next(pending, backend.answer(request, fresh)),
                    backend.apply(request, fresh),
                    fresh,
                )
            },
        },
    }
}

impl Backend {
    /// The rank reference as it is stored for a new employee: the candidate
    /// where it names a rank that exists, else the empty text.
    pub open spec fn sanitized_rank(self, candidate: Seq<char>) -> Seq<char> {
        if self.resolves_rank(candidate) {
            candidate
        } else {
            no_reference()
        }
    }

    /// The store references as they are stored: those of `candidates` that
    /// name a store that exists, in their order, as often as they occur.
    pub open spec fn sanitized_stores(self, candidates: Seq<Seq<char>>) -> Seq<Seq<char>> {
        candidates.filter(self.store_resolver())
    }

    /// The document that a creation with `entry` inserts.
    pub open spec fn created_employee(self, entry: CreateEmployeeModel) -> EmployeeModel {
        EmployeeModel {
            id: None,
            first_name: entry.first_name,
            last_name: entry.last_name,
            status: Some(effective_status(entry.status)),
            stores: Some(
                self.sanitized_stores(
                    match entry.stores {
                        Some(stores) => stores,
                        None => Seq::empty(),
                    },
                ),
            ),
            rank_id: Some(self.sanitized_rank(entry.rank_id)),
        }
    }

    /// What the creation of an employee comes to: one insert, and the
    /// inserted document under the key that the store assigned.
    pub open spec fn create_employee(self, entry: CreateEmployeeModel, fresh: Seq<u8>) -> Ended {
        let doc = self.created_employee(entry);
        Ended {
            backend: self.apply(RequestModel::InsertEmployee(doc), fresh),
            result: Ok(OutcomeModel::Employee(EmployeeModel { id: Some(fresh), ..doc })),
        }
    }

    /// The fields that an update with `entry` writes over `current`.
    ///
    /// Names are overridden or kept. The status is the override, else
    /// `Unset`. The stores are the overrides that exist, else none. The rank
    /// is the override where it names a rank that exists, else the rank held
    /// so far.
    pub open spec fn merged_fields(
        self,
        entry: UpdateEmployeeModel,
        current: EmployeeModel,
    ) -> EmployeeFieldsModel {
        EmployeeFieldsModel {
            first_name: effective_text(entry.first_name, current.first_name),
            last_name: effective_text(entry.last_name, current.last_name),
            status: effective_status(entry.status),
            stores: match entry.stores {
                Some(candidates) => self.sanitized_stores(candidates),
                None => Seq::empty(),
            },
            rank_id: match entry.rank_id {
                Some(candidate) if self.resolves_rank(candidate) => candidate,
                _ => effective_text(current.rank_id, no_reference()),
            },
        }
    }

    /// What the update of an employee comes to: a refusal without any
    /// write where the target is no key or names no employee, else one write
    /// and the employee as the store holds it afterwards.
    pub open spec fn update_employee(self, entry: UpdateEmployeeModel, fresh: Seq<u8>) -> Ended {
        let key = key_bytes(entry.id);
        if !is_key_text(entry.id) {
            Ended { backend: self, result: Err(RepoError::InvalidIdentifier) }
        } else if !self.employees.dom().contains(key) {
            Ended { backend: self, result: Err(RepoError::NotFound) }
        } else {
            let fields = self.merged_fields(entry, self.employees[key]);
            let backend = self.apply(RequestModel::UpdateEmployee(key, fields), fresh);
            Ended { backend, result: Ok(OutcomeModel::Employee(backend.employees[key])) }
        }
    }

    /// What the deletion of an employee comes to: a refusal where the
    /// target is no key; else the store is asked to delete, and the result is
    /// a blank employee where there was one to delete, `NotFound` where
    /// there was none.
    pub open spec fn delete_employee(self, id: Seq<char>, fresh: Seq<u8>) -> Ended {
        let key = key_bytes(id);
        if !is_key_text(id) {
            Ended { backend: self, result: Err(RepoError::InvalidIdentifier) }
        } else {
            Ended {
                backend: self.apply(RequestModel::DeleteEmployee(key), fresh),
                result: if self.employees.dom().contains(key) {
                    Ok(OutcomeModel::Employee(blank_employee()))
                } else {
                    Err(RepoError::NotFound)
                },
            }
        }
    }
}

} // verus!
