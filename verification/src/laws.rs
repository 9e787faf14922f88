//! What holds of every operation, whatever the store holds.
//!
//! The laws speak of `run`: an operation carried through against a store
//! that answers every request as a `Backend` does, where `fresh` is the key
//! that the store assigns to a new document. What an operation does with a
//! request that fails is said by the last two laws.

use crate::backend::{listing, lookup, run, Backend, Ended};
use crate::key::{is_key_text, key_bytes};
use crate::protocol::{OutcomeModel, RepoError, ReplyModel, RequestModel};
use crate::schema::{
    CreateEmployeeModel, LocationModel, RankModel, Status, StoreModel, UpdateEmployeeModel,
};
use crate::transition::{
    begin_create_employee, begin_create_location, begin_create_rank, begin_create_store,
    begin_delete_employee, begin_get_employee, begin_get_location, begin_get_rank,
    begin_get_store, begin_update_employee, begin_validate_location, begin_validate_rank,
    begin_validate_store_vec, check_rank, check_stores, effective_status, effective_text, next,
    no_reference, rank_checked, stores_checked, AfterRankModel, AfterStoresModel, DraftModel,
    PendingModel, ProgressModel,
};
use vstd::prelude::*;

verus! {

/// A waiting operation goes on with the store's answer to its request.
pub proof fn lemma_run_step(pending: PendingModel, backend: Backend, fresh: Seq<u8>)
    requires
        pending != PendingModel::Idle,
    ensures
        run(ProgressModel::Continue(pending), backend, fresh) == run(
            next(pending, backend.answer(pending.outstanding().unwrap(), fresh)),
            backend.apply(pending.outstanding().unwrap(), fresh),
            fresh,
        ),
{
}

/// The check of a rank reference comes to whether the store holds the rank.
pub proof fn lemma_run_check_rank(
    candidate: Seq<char>,
    after: AfterRankModel,
    backend: Backend,
    fresh: Seq<u8>,
)
    ensures
        run(check_rank(candidate, after), backend, fresh) == run(
            rank_checked(backend.resolves_rank(candidate), candidate, after),
            backend,
            fresh,
        ),
{
    if is_key_text(candidate) {
        lemma_run_step(
            PendingModel::CheckRank { key: key_bytes(candidate), candidate, after },
            backend,
            fresh,
        );
    }
}

/// The check of a list of store references comes to the references that
/// the store holds a store for.
pub proof fn lemma_run_check_stores(
    candidates: Seq<Seq<char>>,
    kept: Seq<Seq<char>>,
    after: AfterStoresModel,
    backend: Backend,
    fresh: Seq<u8>,
)
    ensures
        run(check_stores(candidates, kept, after), backend, fresh) == run(
            stores_checked(kept + backend.sanitized_stores(candidates), after),
            backend,
            fresh,
        ),
    decreases candidates.len(),
{
    let resolver = backend.store_resolver();
    if candidates.len() == 0 {
        assert(candidates.filter(resolver) =~= Seq::<Seq<char>>::empty()) by {
            reveal(Seq::filter);
        }
    } else {
        let first = candidates[0];
        let rest = candidates.skip(1);
        assert(candidates =~= seq![first] + rest);
        rest.lemma_filter_prepend(first, resolver);
        if is_key_text(first) {
            let pending = PendingModel::CheckStores {
                key: key_bytes(first),
                current: first,
                remaining: rest,
                kept,
                after_all: after,
            };
            lemma_run_step(pending, backend, fresh);
            let found = backend.stores.dom().contains(key_bytes(first));
            let kept_now = if found {
                kept.push(first)
            } else {
                kept
            };
            lemma_run_check_stores(rest, kept_now, after, backend, fresh);
            assert(kept_now + backend.sanitized_stores(rest) =~= kept + backend.sanitized_stores(
                candidates,
            ));
        } else {
            lemma_run_check_stores(rest, kept, after, backend, fresh);
        }
    }
}

/// Checking a rank reference never fails and changes nothing: it yields the
/// reference where the store holds the rank, else the empty text.
pub proof fn validate_rank_runs(rank_id: Seq<char>, backend: Backend, fresh: Seq<u8>)
    ensures
        run(begin_validate_rank(rank_id), backend, fresh) == (Ended {
            backend,
            result: Ok(OutcomeModel::RankId(backend.sanitized_rank(rank_id))),
        }),
{
    lemma_run_check_rank(rank_id, AfterRankModel::Return, backend, fresh);
}

/// Checking a list of store references never fails and changes nothing: it
/// yields the references for which the store holds a store, in their order,
/// as often as they occur.
pub proof fn validate_store_vec_runs(
    store_vec: Seq<Seq<char>>,
    backend: Backend,
    fresh: Seq<u8>,
)
    ensures
        run(begin_validate_store_vec(store_vec), backend, fresh) == (Ended {
            backend,
            result: Ok(OutcomeModel::StoreIds(backend.sanitized_stores(store_vec))),
        }),
{
    lemma_run_check_stores(store_vec, Seq::empty(), AfterStoresModel::Return, backend, fresh);
}

/// The creation of an employee, run against a store, is one insert of the
/// sanitized document.
pub proof fn create_employee_runs(entry: CreateEmployeeModel, backend: Backend, fresh: Seq<u8>)
    ensures
        run(begin_create_employee(entry), backend, fresh) == backend.create_employee(
            entry,
            fresh,
        ),
{
    let draft = DraftModel {
        first_name: entry.first_name,
        last_name: entry.last_name,
        status: effective_status(entry.status),
    };
    let candidates = match entry.stores {
        Some(stores) => stores,
        None => Seq::empty(),
    };
    let after = AfterStoresModel::Create { draft, candidate: entry.rank_id };
    lemma_run_check_stores(candidates, Seq::empty(), after, backend, fresh);
    let kept = backend.sanitized_stores(candidates);
    lemma_run_check_rank(entry.rank_id, AfterRankModel::Create { draft, kept }, backend, fresh);
    let doc = backend.created_employee(entry);
    lemma_run_step(PendingModel::InsertEmployee(doc), backend, fresh);
}

/// The update of an employee, run against a store, is a refusal without
/// any write, or one write of the merged fields.
pub proof fn update_employee_runs(entry: UpdateEmployeeModel, backend: Backend, fresh: Seq<u8>)
    ensures
        run(begin_update_employee(entry), backend, fresh) == backend.update_employee(
            entry,
            fresh,
        ),
{
    let key = key_bytes(entry.id);
    if is_key_text(entry.id) {
        lemma_run_step(PendingModel::UpdateFetch { key, entry }, backend, fresh);
        if backend.employees.dom().contains(key) {
            let current = backend.employees[key];
            let draft = DraftModel {
                first_name: effective_text(entry.first_name, current.first_name),
                last_name: effective_text(entry.last_name, current.last_name),
                status: effective_status(entry.status),
            };
            let fallback = effective_text(current.rank_id, no_reference());
            let after_rank = AfterRankModel::Update {
                key,
                draft,
                fallback,
                candidates: entry.stores,
            };
            match entry.rank_id {
                Some(candidate) => {
                    lemma_run_check_rank(candidate, after_rank, backend, fresh);
                },
                None => {},
            }
            let fields = backend.merged_fields(entry, current);
            let after_stores = AfterStoresModel::Update { key, draft, rank_id: fields.rank_id };
            match entry.stores {
                Some(candidates) => {
                    lemma_run_check_stores(candidates, Seq::empty(), after_stores, backend, fresh);
                },
                None => {},
            }
            let write = PendingModel::UpdateWrite { key, fields };
            lemma_run_step(write, backend, fresh);
            let written = backend.apply(RequestModel::UpdateEmployee(key, fields), fresh);
            lemma_run_step(PendingModel::UpdateRefetch(key), written, fresh);
        }
    }
}

/// The deletion of an employee, run against a store, is a refusal, or one
/// delete that is `NotFound` where there was nothing to delete.
pub proof fn delete_employee_runs(id: Seq<char>, backend: Backend, fresh: Seq<u8>)
    ensures
        run(begin_delete_employee(id), backend, fresh) == backend.delete_employee(id, fresh),
{
    if is_key_text(id) {
        lemma_run_step(PendingModel::Delete(key_bytes(id)), backend, fresh);
    }
}

/// Checking a location reference never fails and changes nothing: it
/// yields the location where the reference is the text of a key under which
/// the store holds one, else nothing.
pub proof fn validate_location_runs(location_id: Seq<char>, backend: Backend, fresh: Seq<u8>)
    ensures
        run(begin_validate_location(location_id), backend, fresh) == (Ended {
            backend,
            result: Ok(
                OutcomeModel::LocationOption(
                    if is_key_text(location_id) {
                        lookup(backend.locations, key_bytes(location_id))
                    } else {
                        None
                    },
                ),
            ),
        }),
{
    if is_key_text(location_id) {
        lemma_run_step(PendingModel::CheckLocation(key_bytes(location_id)), backend, fresh);
    }
}

/// The lookup of an employee changes nothing. It is refused where the
/// identifier is no key, and `NotFound` where the store holds no employee
/// under the key.
pub proof fn get_single_employee_runs(id: Seq<char>, backend: Backend, fresh: Seq<u8>)
    ensures
        run(begin_get_employee(id), backend, fresh) == (Ended {
            backend,
            result: if !is_key_text(id) {
                Err(RepoError::InvalidIdentifier)
            } else if backend.employees.dom().contains(key_bytes(id)) {
                Ok(OutcomeModel::Employee(backend.employees[key_bytes(id)]))
            } else {
                Err(RepoError::NotFound)
            },
        }),
{
    if is_key_text(id) {
        lemma_run_step(PendingModel::FetchEmployee(key_bytes(id)), backend, fresh);
    }
}

/// The lookup of a store changes nothing. It is refused where the
/// identifier is no key; else it yields the store under the key, if any.
pub proof fn get_single_store_runs(id: Seq<char>, backend: Backend, fresh: Seq<u8>)
    ensures
        run(begin_get_store(id), backend, fresh) == (Ended {
            backend,
            result: if is_key_text(id) {
                Ok(OutcomeModel::StoreOption(lookup(backend.stores, key_bytes(id))))
            } else {
                Err(RepoError::InvalidIdentifier)
            },
        }),
{
    if is_key_text(id) {
        lemma_run_step(PendingModel::FetchStore(key_bytes(id)), backend, fresh);
    }
}

/// The lookup of a location changes nothing. It is refused where the
/// identifier is no key; else it yields the location under the key, if any.
pub proof fn get_single_location_runs(id: Seq<char>, backend: Backend, fresh: Seq<u8>)
    ensures
        run(begin_get_location(id), backend, fresh) == (Ended {
            backend,
            result: if is_key_text(id) {
                Ok(OutcomeModel::LocationOption(lookup(backend.locations, key_bytes(id))))
            } else {
                Err(RepoError::InvalidIdentifier)
            },
        }),
{
    if is_key_text(id) {
        lemma_run_step(PendingModel::FetchLocation(key_bytes(id)), backend, fresh);
    }
}

/// The lookup of a rank changes nothing. It is refused where the
/// identifier is no key; else it yields the rank under the key, if any.
pub proof fn get_single_rank_runs(id: Seq<char>, backend: Backend, fresh: Seq<u8>)
    ensures
        run(begin_get_rank(id), backend, fresh) == (Ended {
            backend,
            result: if is_key_text(id) {
                Ok(OutcomeModel::RankOption(lookup(backend.ranks, key_bytes(id))))
            } else {
                Err(RepoError::InvalidIdentifier)
            },
        }),
{
    if is_key_text(id) {
        lemma_run_step(PendingModel::FetchRank(key_bytes(id)), backend, fresh);
    }
}

/// A listing changes nothing and yields the documents of its collection,
/// one for each key.
pub proof fn get_all_runs(backend: Backend, fresh: Seq<u8>)
    ensures
        run(ProgressModel::Continue(PendingModel::ListEmployees), backend, fresh) == (Ended {
            backend,
            result: Ok(OutcomeModel::Employees(listing(backend.employees))),
        }),
        run(ProgressModel::Continue(PendingModel::ListStores), backend, fresh) == (Ended {
            backend,
            result: Ok(OutcomeModel::Stores(listing(backend.stores))),
        }),
        run(ProgressModel::Continue(PendingModel::ListLocations), backend, fresh) == (Ended {
            backend,
            result: Ok(OutcomeModel::Locations(listing(backend.locations))),
        }),
        run(ProgressModel::Continue(PendingModel::ListRanks), backend, fresh) == (Ended {
            backend,
            result: Ok(OutcomeModel::Ranks(listing(backend.ranks))),
        }),
{
    lemma_run_step(PendingModel::ListEmployees, backend, fresh);
    lemma_run_step(PendingModel::ListStores, backend, fresh);
    lemma_run_step(PendingModel::ListLocations, backend, fresh);
    lemma_run_step(PendingModel::ListRanks, backend, fresh);
}

/// The creation of a store is one insert. Whatever location reference was
/// given, and whether or not it names a location, the store is inserted
/// with an empty location reference.
pub proof fn create_store_runs(
    name: Seq<char>,
    location_id: Seq<char>,
    backend: Backend,
    fresh: Seq<u8>,
)
    ensures
        ({
            let doc = StoreModel { id: None, name, location_id: no_reference() };
            run(begin_create_store(name, location_id), backend, fresh) == (Ended {
                backend: backend.apply(RequestModel::InsertStore(doc), fresh),
                result: Ok(OutcomeModel::Store(StoreModel { id: Some(fresh), ..doc })),
            })
        }),
{
    let doc = StoreModel { id: None, name, location_id: no_reference() };
    if is_key_text(location_id) {
        lemma_run_step(
            PendingModel::StoreLocation { key: key_bytes(location_id), doc },
            backend,
            fresh,
        );
    }
    lemma_run_step(PendingModel::InsertStore(doc), backend, fresh);
}

/// The creation of a location is one insert of the location as given.
pub proof fn create_location_runs(
    country: Seq<char>,
    state: Seq<char>,
    backend: Backend,
    fresh: Seq<u8>,
)
    ensures
        ({
            let doc = LocationModel { id: None, country, state };
            run(begin_create_location(country, state), backend, fresh) == (Ended {
                backend: backend.apply(RequestModel::InsertLocation(doc), fresh),
                result: Ok(OutcomeModel::Location(LocationModel { id: Some(fresh), ..doc })),
            })
        }),
{
    let doc = LocationModel { id: None, country, state };
    lemma_run_step(PendingModel::InsertLocation(doc), backend, fresh);
}

/// The creation of a rank is one insert of the rank as given.
pub proof fn create_rank_runs(
    name: Seq<char>,
    description: Seq<char>,
    backend: Backend,
    fresh: Seq<u8>,
)
    ensures
        ({
            let doc = RankModel { id: None, name, description };
            run(begin_create_rank(name, description), backend, fresh) == (Ended {
                backend: backend.apply(RequestModel::InsertRank(doc), fresh),
                result: Ok(OutcomeModel::Rank(RankModel { id: Some(fresh), ..doc })),
            })
        }),
{
    let doc = RankModel { id: None, name, description };
    lemma_run_step(PendingModel::InsertRank(doc), backend, fresh);
}

/// Every reference that a check of store references keeps names a store
/// that exists, and the check keeps no more references than it was given.
pub proof fn sanitized_stores_resolve(candidates: Seq<Seq<char>>, backend: Backend)
    ensures
        backend.sanitized_stores(candidates).len() <= candidates.len(),
        forall|i: int|
            0 <= i < backend.sanitized_stores(candidates).len() ==> backend.resolves_store(
                #[trigger] backend.sanitized_stores(candidates)[i],
            ),
{
    let resolver = backend.store_resolver();
    candidates.lemma_filter_len(resolver);
    assert forall|i: int| 0 <= i < backend.sanitized_stores(candidates).len() implies 
        backend.resolves_store(#[trigger] backend.sanitized_stores(candidates)[i]) by {
        candidates.lemma_filter_pred(resolver, i);
    }
}

/// A created employee refers to a rank that exists or to none, and to
/// stores that exist.
pub proof fn created_references_resolve(entry: CreateEmployeeModel, backend: Backend)
    ensures
        ({
            let doc = backend.created_employee(entry);
            &&& doc.rank_id matches Some(rank_id)
            &&& backend.resolves_rank(rank_id) || rank_id == no_reference()
            &&& doc.stores matches Some(stores)
            &&& forall|i: int| 0 <= i < stores.len() ==> backend.resolves_store(#[trigger] stores[i])
        }),
{
    let given = match entry.stores {
        Some(stores) => stores,
        None => Seq::empty(),
    };
    sanitized_stores_resolve(given, backend);
}

/// An update never changes the key under which the employee is held, nor
/// any other employee.
pub proof fn update_touches_one_employee(
    entry: UpdateEmployeeModel,
    backend: Backend,
    fresh: Seq<u8>,
)
    ensures
        ({
            let ended = run(begin_update_employee(entry), backend, fresh);
            &&& ended.backend.employees.dom() == backend.employees.dom()
            &&& forall|key: Seq<u8>| #[trigger]
                backend.employees.dom().contains(key) ==> {
                    &&& ended.backend.employees[key].id == backend.employees[key].id
                    &&& key != key_bytes(entry.id) ==> ended.backend.employees[key]
                        == backend.employees[key]
                }
            &&& ended.backend.stores == backend.stores
            &&& ended.backend.locations == backend.locations
            &&& ended.backend.ranks == backend.ranks
        }),
{
    update_employee_runs(entry, backend, fresh);
}

/// An employee that is created with a rank reference that names no rank is
/// stored, and handed back, with the empty reference.
pub proof fn create_with_unresolved_rank_stores_no_rank(
    entry: CreateEmployeeModel,
    backend: Backend,
    fresh: Seq<u8>,
)
    requires
        !backend.resolves_rank(entry.rank_id),
    ensures
        ({
            let ended = run(begin_create_employee(entry), backend, fresh);
            &&& ended.backend.employees.dom().contains(fresh)
            &&& ended.backend.employees[fresh].rank_id == Some(no_reference())
            &&& ended.result matches Ok(OutcomeModel::Employee(created))
            &&& created.rank_id == Some(no_reference())
        }),
{
    create_employee_runs(entry, backend, fresh);
}

/// The stores of a created employee are exactly those of the given
/// references that name a store, in the given order, each as often as it was
/// given; and the creation writes once.
pub proof fn create_stores_the_stores_that_resolve(
    entry: CreateEmployeeModel,
    backend: Backend,
    fresh: Seq<u8>,
)
    ensures
        ({
            let ended = run(begin_create_employee(entry), backend, fresh);
            let given = match entry.stores {
                Some(stores) => stores,
                None => Seq::empty(),
            };
            &&& ended.backend.employees.dom().contains(fresh)
            &&& ended.backend.employees[fresh].stores == Some(
                given.filter(backend.store_resolver()),
            )
            &&& ended.backend.writes.len() == backend.writes.len() + 1
        }),
{
    create_employee_runs(entry, backend, fresh);
}

/// An update without a status leaves the employee with the status `Unset`,
/// whatever it was before.
pub proof fn update_without_status_resets_it(
    entry: UpdateEmployeeModel,
    backend: Backend,
    fresh: Seq<u8>,
)
    requires
        is_key_text(entry.id),
        backend.employees.dom().contains(key_bytes(entry.id)),
        entry.status is None,
    ensures
        ({
            let ended = run(begin_update_employee(entry), backend, fresh);
            &&& ended.backend.employees.dom().contains(key_bytes(entry.id))
            &&& ended.backend.employees[key_bytes(entry.id)].status == Some(Status::Unset)
        }),
{
    update_employee_runs(entry, backend, fresh);
}

/// An update without stores leaves the employee without stores, whatever
/// it had before.
pub proof fn update_without_stores_clears_them(
    entry: UpdateEmployeeModel,
    backend: Backend,
    fresh: Seq<u8>,
)
    requires
        is_key_text(entry.id),
        backend.employees.dom().contains(key_bytes(entry.id)),
        entry.stores is None,
    ensures
        ({
            let ended = run(begin_update_employee(entry), backend, fresh);
            &&& ended.backend.employees.dom().contains(key_bytes(entry.id))
            &&& ended.backend.employees[key_bytes(entry.id)].stores == Some(
                Seq::<Seq<char>>::empty(),
            )
        }),
{
    update_employee_runs(entry, backend, fresh);
}

/// An update with a rank reference that names no rank leaves the employee
/// with the rank it had: the reference it held, or the empty one where it
/// held none.
pub proof fn update_with_unresolved_rank_keeps_the_rank(
    entry: UpdateEmployeeModel,
    backend: Backend,
    fresh: Seq<u8>,
)
    requires
        is_key_text(entry.id),
        backend.employees.dom().contains(key_bytes(entry.id)),
        entry.rank_id matches Some(candidate) && !backend.resolves_rank(candidate),
    ensures
        ({
            let before = backend.employees[key_bytes(entry.id)];
            let ended = run(begin_update_employee(entry), backend, fresh);
            let after = ended.backend.employees[key_bytes(entry.id)];
            &&& ended.backend.employees.dom().contains(key_bytes(entry.id))
            &&& before.rank_id is Some ==> after.rank_id == before.rank_id
            &&& before.rank_id is None ==> after.rank_id == Some(no_reference())
        }),
{
    update_employee_runs(entry, backend, fresh);
}

/// An update of an employee that the store does not hold is `NotFound`,
/// and nothing is written.
pub proof fn update_of_missing_employee_writes_nothing(
    entry: UpdateEmployeeModel,
    backend: Backend,
    fresh: Seq<u8>,
)
    requires
        is_key_text(entry.id),
        !backend.employees.dom().contains(key_bytes(entry.id)),
    ensures
        run(begin_update_employee(entry), backend, fresh) == (Ended {
            backend,
            result: Err(RepoError::NotFound),
        }),
{
    update_employee_runs(entry, backend, fresh);
}

/// A deletion of an employee that the store does not hold is `NotFound`,
/// and the employees are as they were.
pub proof fn delete_of_missing_employee_is_not_found(
    id: Seq<char>,
    backend: Backend,
    fresh: Seq<u8>,
)
    requires
        is_key_text(id),
        !backend.employees.dom().contains(key_bytes(id)),
    ensures
        run(begin_delete_employee(id), backend, fresh).result == Err::<
            OutcomeModel,
            RepoError,
        >(RepoError::NotFound),
        run(begin_delete_employee(id), backend, fresh).backend.employees == backend.employees,
{
    delete_employee_runs(id, backend, fresh);
}

/// Whether the outstanding request of `pending` looks a reference up,
/// rather than the operation's target.
pub open spec fn checks_a_reference(pending: PendingModel) -> bool {
    match pending {
        PendingModel::CheckRank { .. } => true,
        PendingModel::CheckStores { .. } => true,
        PendingModel::CheckLocation(_) => true,
        PendingModel::StoreLocation { .. } => true,
        _ => false,
    }
}

/// A failed lookup of a reference is recovered from: the operation goes on
/// as if the store had answered that it holds no such document.
pub proof fn failed_reference_lookup_is_recovered(pending: PendingModel)
    requires
        checks_a_reference(pending),
    ensures
        pending is CheckRank ==> next(pending, ReplyModel::Failed) == next(
            pending,
            ReplyModel::Rank(None),
        ),
        pending is CheckStores ==> next(pending, ReplyModel::Failed) == next(
            pending,
            ReplyModel::Store(None),
        ),
        pending is CheckLocation || pending is StoreLocation ==> next(pending, ReplyModel::Failed)
            == next(pending, ReplyModel::Location(None)),
{
}

/// Any other failed request ends the operation with `PersistenceFailure`.
pub proof fn failed_request_is_fatal(pending: PendingModel)
    requires
        !checks_a_reference(pending),
    ensures
        next(pending, ReplyModel::Failed) == ProgressModel::Finish(
            Err(RepoError::PersistenceFailure),
        ),
{
}

} // verus!
