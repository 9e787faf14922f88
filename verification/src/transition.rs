//! The operations as a transition system over values: in which state an
//! operation waits, which request is outstanding in it, and where each reply
//! leads. The session computes exactly these functions.

use crate::key::{is_key_text, key_bytes};
use crate::protocol::{OutcomeModel, RepoError, ReplyModel, RequestModel, StepModel};
use crate::schema::{
    CreateEmployeeModel, EmployeeFieldsModel, EmployeeModel, LocationModel, RankModel, Status,
    StoreModel, UpdateEmployeeModel,
};
use vstd::prelude::*;

verus! {

/// The empty text: the reference that stands for "no valid rank".
pub open spec fn no_reference() -> Seq<char> {
    Seq::<char>::empty()
}

/// What of `candidates` comes at and after position `from`.
pub open spec fn remaining_from<T>(candidates: Seq<T>, from: int) -> Seq<T> {
    if 0 <= from <= candidates.len() {
        candidates.skip(from)
    } else {
        Seq::empty()
    }
}

/// The fields of an employee that need no lookup to be settled.
pub struct DraftModel {
    pub first_name: Seq<char>,
    pub last_name: Seq<char>,
    pub status: Status,
}

/// What follows once a rank reference has been checked.
pub enum AfterRankModel {
    /// Hand the sanitized reference back.
    Return,
    /// Insert the new employee, whose stores are checked already.
    Create { draft: DraftModel, kept: Seq<Seq<char>> },
    /// Go on with the stores of the update; `fallback` is the rank that the
    /// employee had before.
    Update {
        key: Seq<u8>,
        draft: DraftModel,
        fallback: Seq<char>,
        candidates: Option<Seq<Seq<char>>>,
    },
}

/// What follows once a list of store references has been checked.
pub enum AfterStoresModel {
    /// Hand the sanitized list back.
    Return,
    /// Check the rank of the new employee and insert it.
    Create { draft: DraftModel, candidate: Seq<char> },
    /// Write the update; `rank_id` is settled already.
    Update { key: Seq<u8>, draft: DraftModel, rank_id: Seq<char> },
}

/// The state of a session: idle, or waiting for the reply to one request.
pub enum PendingModel {
    Idle,
    FetchEmployee(Seq<u8>),
    FetchStore(Seq<u8>),
    FetchLocation(Seq<u8>),
    FetchRank(Seq<u8>),
    ListEmployees,
    ListStores,
    ListLocations,
    ListRanks,
    InsertEmployee(EmployeeModel),
    InsertStore(StoreModel),
    InsertLocation(LocationModel),
    InsertRank(RankModel),
    /// A store creation looks its location up before it inserts `doc`.
    StoreLocation { key: Seq<u8>, doc: StoreModel },
    CheckLocation(Seq<u8>),
    CheckRank { key: Seq<u8>, candidate: Seq<char>, after: AfterRankModel },
    /// `current` is being looked up under `key`; `remaining` come after it,
    /// `kept` were found before it.
    CheckStores {
        key: Seq<u8>,
        current: Seq<char>,
        remaining: Seq<Seq<char>>,
        kept: Seq<Seq<char>>,
        after_all: AfterStoresModel,
    },
    UpdateFetch { key: Seq<u8>, entry: UpdateEmployeeModel },
    UpdateWrite { key: Seq<u8>, fields: EmployeeFieldsModel },
    UpdateRefetch(Seq<u8>),
    Delete(Seq<u8>),
}

/// Where a transition leads: into a waiting state, or to the result.
pub enum ProgressModel {
    Continue(PendingModel),
    Finish(Result<OutcomeModel, RepoError>),
}

impl PendingModel {
    /// The request whose reply the state waits for.
    pub open spec fn outstanding(self) -> Option<RequestModel> {
        match self {
            PendingModel::Idle => None,
            PendingModel::FetchEmployee(key) => Some(RequestModel::FindEmployee(key)),
            PendingModel::FetchStore(key) => Some(RequestModel::FindStore(key)),
            PendingModel::FetchLocation(key) => Some(RequestModel::FindLocation(key)),
            PendingModel::FetchRank(key) => Some(RequestModel::FindRank(key)),
            PendingModel::ListEmployees => Some(RequestModel::ListEmployees),
            PendingModel::ListStores => Some(RequestModel::ListStores),
            PendingModel::ListLocations => Some(RequestModel::ListLocations),
            PendingModel::ListRanks => Some(RequestModel::ListRanks),
            PendingModel::InsertEmployee(doc) => Some(RequestModel::InsertEmployee(doc)),
            PendingModel::InsertStore(doc) => Some(RequestModel::InsertStore(doc)),
            PendingModel::InsertLocation(doc) => Some(RequestModel::InsertLocation(doc)),
            PendingModel::InsertRank(doc) => Some(RequestModel::InsertRank(doc)),
            PendingModel::StoreLocation { key, .. } => Some(RequestModel::FindLocation(key)),
            PendingModel::CheckLocation(key) => Some(RequestModel::FindLocation(key)),
            PendingModel::CheckRank { key, .. } => Some(RequestModel::FindRank(key)),
            PendingModel::CheckStores { key, .. } => Some(RequestModel::FindStore(key)),
            PendingModel::UpdateFetch { key, .. } => Some(RequestModel::FindEmployee(key)),
            PendingModel::UpdateWrite { key, fields } => Some(
                RequestModel::UpdateEmployee(key, fields),
            ),
            PendingModel::UpdateRefetch(key) => Some(RequestModel::FindEmployee(key)),
            PendingModel::Delete(key) => Some(RequestModel::DeleteEmployee(key)),
        }
    }

    /// A bound on the number of requests that are still to come, the
    /// outstanding one included.
    pub open spec fn steps_left(self) -> nat {
        match self {
            PendingModel::Idle => 0,
            PendingModel::StoreLocation { .. } => 2,
            PendingModel::CheckRank { after, .. } => 1 + after.steps_left(),
            PendingModel::CheckStores { remaining, after_all, .. } => 1 + remaining.len()
                + after_all.steps_left(),
            PendingModel::UpdateFetch { entry, .. } => 4 + match entry.stores {
                Some(stores) => stores.len(),
                None => 0,
            },
            PendingModel::UpdateWrite { .. } => 2,
            _ => 1,
        }
    }
}

impl AfterRankModel {
    /// A bound on the number of requests that follow the rank check.
    pub open spec fn steps_left(self) -> nat {
        match self {
            AfterRankModel::Return => 0,
            AfterRankModel::Create { .. } => 1,
            AfterRankModel::Update { candidates, .. } => 2 + match candidates {
                Some(candidates) => candidates.len(),
                None => 0,
            },
        }
    }
}

impl AfterStoresModel {
    /// A bound on the number of requests that follow the store checks.
    pub open spec fn steps_left(self) -> nat {
        match self {
            AfterStoresModel::Return => 0,
            AfterStoresModel::Create { .. } => 2,
            AfterStoresModel::Update { .. } => 2,
        }
    }
}

impl ProgressModel {
    /// The state that the session is left in.
    pub open spec fn pending(self) -> PendingModel {
        match self {
            ProgressModel::Continue(pending) => pending,
            ProgressModel::Finish(_) => PendingModel::Idle,
        }
    }

    /// What the session tells its caller.
    pub open spec fn step(self) -> StepModel {
        match self {
            ProgressModel::Continue(pending) => match pending.outstanding() {
                Some(request) => StepModel::Ask(request),
                None => StepModel::Done(Err(RepoError::PersistenceFailure)),
            },
            ProgressModel::Finish(result) => StepModel::Done(result),
        }
    }

    /// A bound on the number of requests that are still to come.
    pub open spec fn steps_left(self) -> nat {
        self.pending().steps_left()
    }
}

/// The result that stands for a deleted employee: a document without key,
/// names, status, stores or rank.
pub open spec fn blank_employee() -> EmployeeModel {
    EmployeeModel {
        id: None,
        first_name: Seq::empty(),
        last_name: Seq::empty(),
        status: None,
        stores: None,
        rank_id: None,
    }
}

/// The document of a new employee.
pub open spec fn new_employee(
    draft: DraftModel,
    stores: Seq<Seq<char>>,
    rank_id: Seq<char>,
) -> EmployeeModel {
    EmployeeModel {
        id: None,
        first_name: draft.first_name,
        last_name: draft.last_name,
        status: Some(draft.status),
        stores: Some(stores),
        rank_id: Some(rank_id),
    }
}

/// The fields that an update writes.
pub open spec fn updated_fields(
    draft: DraftModel,
    stores: Seq<Seq<char>>,
    rank_id: Seq<char>,
) -> EmployeeFieldsModel {
    EmployeeFieldsModel {
        first_name: draft.first_name,
        last_name: draft.last_name,
        status: draft.status,
        stores,
        rank_id,
    }
}

/// A lookup under the key that `id` stands for, or the refusal of an `id`
/// that stands for none.
pub open spec fn begin_lookup(
    id: Seq<char>,
    waiting: spec_fn(Seq<u8>) -> PendingModel,
) -> ProgressModel {
    if is_key_text(id) {
        ProgressModel::Continue(waiting(key_bytes(id)))
    } else {
        ProgressModel::Finish(Err(RepoError::InvalidIdentifier))
    }
}

/// The lookup of one employee.
pub open spec fn begin_get_employee(id: Seq<char>) -> ProgressModel {
    begin_lookup(id, |key: Seq<u8>| PendingModel::FetchEmployee(key))
}

/// The lookup of one store.
pub open spec fn begin_get_store(id: Seq<char>) -> ProgressModel {
    begin_lookup(id, |key: Seq<u8>| PendingModel::FetchStore(key))
}

/// The lookup of one location.
pub open spec fn begin_get_location(id: Seq<char>) -> ProgressModel {
    begin_lookup(id, |key: Seq<u8>| PendingModel::FetchLocation(key))
}

/// The lookup of one rank.
pub open spec fn begin_get_rank(id: Seq<char>) -> ProgressModel {
    begin_lookup(id, |key: Seq<u8>| PendingModel::FetchRank(key))
}

/// The deletion of one employee.
pub open spec fn begin_delete_employee(id: Seq<char>) -> ProgressModel {
    begin_lookup(id, |key: Seq<u8>| PendingModel::Delete(key))
}

/// The update of one employee starts by fetching it.
pub open spec fn begin_update_employee(entry: UpdateEmployeeModel) -> ProgressModel {
    begin_lookup(entry.id, |key: Seq<u8>| PendingModel::UpdateFetch { key, entry })
}

/// The creation of a location.
pub open spec fn begin_create_location(country: Seq<char>, state: Seq<char>) -> ProgressModel {
    ProgressModel::Continue(
        PendingModel::InsertLocation(LocationModel { id: None, country, state }),
    )
}

/// The creation of a rank.
pub open spec fn begin_create_rank(name: Seq<char>, description: Seq<char>) -> ProgressModel {
    ProgressModel::Continue(PendingModel::InsertRank(RankModel { id: None, name, description }))
}

/// The creation of a store. The location reference is looked up where it
/// is the text of a key, but the document that is inserted never records it:
/// its location reference is empty.
pub open spec fn begin_create_store(name: Seq<char>, location_id: Seq<char>) -> ProgressModel {
    let doc = StoreModel { id: None, name, location_id: no_reference() };
    if is_key_text(location_id) {
        ProgressModel::Continue(PendingModel::StoreLocation { key: key_bytes(location_id), doc })
    } else {
        ProgressModel::Continue(PendingModel::InsertStore(doc))
    }
}

/// The check of a location reference. One that is not the text of a key
/// resolves to nothing, without a lookup.
pub open spec fn begin_validate_location(location_id: Seq<char>) -> ProgressModel {
    if is_key_text(location_id) {
        ProgressModel::Continue(PendingModel::CheckLocation(key_bytes(location_id)))
    } else {
        ProgressModel::Finish(Ok(OutcomeModel::LocationOption(None)))
    }
}

/// The reference that is stored for a rank candidate that has been
/// checked: the candidate where it resolved, else the empty text.
pub open spec fn sanitized(resolved: bool, candidate: Seq<char>) -> Seq<char> {
    if resolved {
        candidate
    } else {
        no_reference()
    }
}

/// The insert of a new employee.
pub open spec fn insert_created(
    draft: DraftModel,
    kept: Seq<Seq<char>>,
    rank_id: Seq<char>,
) -> ProgressModel {
    ProgressModel::Continue(PendingModel::InsertEmployee(new_employee(draft, kept, rank_id)))
}

/// The check of the rank of a new employee, of whose stores `kept`
/// resolved. It comes to the same as `check_rank` before the insert.
pub open spec fn check_created_rank(
    draft: DraftModel,
    kept: Seq<Seq<char>>,
    candidate: Seq<char>,
) -> ProgressModel {
    if is_key_text(candidate) {
        ProgressModel::Continue(
            PendingModel::CheckRank {
                key: key_bytes(candidate),
                candidate,
                after: AfterRankModel::Create { draft, kept },
            },
        )
    } else {
        insert_created(draft, kept, no_reference())
    }
}

/// What follows the check of a list of stores of which `kept` resolved.
pub open spec fn stores_checked(kept: Seq<Seq<char>>, after: AfterStoresModel) -> ProgressModel {
    match after {
        AfterStoresModel::Return => ProgressModel::Finish(Ok(OutcomeModel::StoreIds(kept))),
        AfterStoresModel::Create { draft, candidate } => check_created_rank(
            draft,
            kept,
            candidate,
        ),
        AfterStoresModel::Update { key, draft, rank_id } => ProgressModel::Continue(
            PendingModel::UpdateWrite { key, fields: updated_fields(draft, kept, rank_id) },
        ),
    }
}

/// The check of the store references `candidates`, in order, after `kept`
/// were found. Those that are not the text of a key are passed over without
/// a lookup.
pub open spec fn check_stores(
    candidates: Seq<Seq<char>>,
    kept: Seq<Seq<char>>,
    after: AfterStoresModel,
) -> ProgressModel
    decreases candidates.len(),
{
    if candidates.len() == 0 {
        stores_checked(kept, after)
    } else if is_key_text(candidates[0]) {
        ProgressModel::Continue(
            PendingModel::CheckStores {
                key: key_bytes(candidates[0]),
                current: candidates[0],
                remaining: candidates.skip(1),
                kept,
                after_all: after,
            },
        )
    } else {
        check_stores(candidates.skip(1), kept, after)
    }
}

/// What follows the check of `candidate`, which resolved or did not.
pub open spec fn rank_checked(
    resolved: bool,
    candidate: Seq<char>,
    after: AfterRankModel,
) -> ProgressModel {
    match after {
        AfterRankModel::Return => ProgressModel::Finish(
            Ok(OutcomeModel::RankId(sanitized(resolved, candidate))),
        ),
        AfterRankModel::Create { draft, kept } => insert_created(
            draft,
            kept,
            sanitized(resolved, candidate),
        ),
        AfterRankModel::Update { key, draft, fallback, candidates } => {
            let rank_id = if resolved {
                candidate
            } else {
                fallback
            };
            match candidates {
                Some(candidates) => check_stores(
                    candidates,
                    Seq::empty(),
                    AfterStoresModel::Update { key, draft, rank_id },
                ),
                None => stores_checked(
                    Seq::empty(),
                    AfterStoresModel::Update { key, draft, rank_id },
                ),
            }
        },
    }
}

/// The check of a rank reference. One that is not the text of a key is
/// unresolved without a lookup.
pub open spec fn check_rank(candidate: Seq<char>, after: AfterRankModel) -> ProgressModel {
    if is_key_text(candidate) {
        ProgressModel::Continue(
            PendingModel::CheckRank { key: key_bytes(candidate), candidate, after },
        )
    } else {
        rank_checked(false, candidate, after)
    }
}

/// The check of a rank reference on its own.
pub open spec fn begin_validate_rank(rank_id: Seq<char>) -> ProgressModel {
    check_rank(rank_id, AfterRankModel::Return)
}

/// The check of a list of store references on its own.
pub open spec fn begin_validate_store_vec(store_vec: Seq<Seq<char>>) -> ProgressModel {
    check_stores(store_vec, Seq::empty(), AfterStoresModel::Return)
}

/// The status of a new or updated employee: the one given, else `Unset`.
pub open spec fn effective_status(given: Option<Status>) -> Status {
    match given {
        Some(status) => status,
        None => Status::Unset,
    }
}

/// The text given, else the one held so far.
pub open spec fn effective_text(given: Option<Seq<char>>, held: Seq<char>) -> Seq<char> {
    match given {
        Some(text) => text,
        None => held,
    }
}

/// The creation of an employee: the stores are checked before the rank. A missing list of stores is an empty one.
pub open spec fn begin_create_employee(entry: CreateEmployeeModel) -> ProgressModel {
    let draft = DraftModel {
        first_name: entry.first_name,
        last_name: entry.last_name,
        status: effective_status(entry.status),
    };
    let candidates = match entry.stores {
        Some(stores) => stores,
        None => Seq::empty(),
    };
    check_stores(
        candidates,
        Seq::empty(),
        AfterStoresModel::Create { draft, candidate: entry.rank_id },
    )
}

/// How an update goes on once the employee `current` has been fetched.
/// Names are overridden or kept; the status is the override, else `Unset`;
/// the rank held so far (the empty text where the document holds none) is
/// what an override that does not resolve falls back to.
pub open spec fn update_fetched(
    key: Seq<u8>,
    entry: UpdateEmployeeModel,
    current: EmployeeModel,
) -> ProgressModel {
    let draft = DraftModel {
        first_name: effective_text(entry.first_name, current.first_name),
        last_name: effective_text(entry.last_name, current.last_name),
        status: effective_status(entry.status),
    };
    let fallback = effective_text(current.rank_id, no_reference());
    let after = AfterRankModel::Update { key, draft, fallback, candidates: entry.stores };
    match entry.rank_id {
        Some(candidate) => check_rank(candidate, after),
        None => rank_checked(false, fallback, after),
    }
}

/// What the reply to a fetch of the operation's target becomes.
pub open spec fn target_fetched(reply: ReplyModel) -> ProgressModel {
    match reply {
        ReplyModel::Employee(Some(doc)) => ProgressModel::Finish(Ok(OutcomeModel::Employee(doc))),
        ReplyModel::Employee(None) => ProgressModel::Finish(Err(RepoError::NotFound)),
        _ => ProgressModel::Finish(Err(RepoError::PersistenceFailure)),
    }
}

/// Where `reply` leads from `pending`.
///
/// A reply that does not answer the outstanding request counts as a failed
/// one. A failed lookup of a reference leaves the reference unresolved; any
/// other failed request ends the operation with `PersistenceFailure`.
pub open spec fn next(pending: PendingModel, reply: ReplyModel) -> ProgressModel {
    let failure = ProgressModel::Finish(Err(RepoError::PersistenceFailure));
    match pending {
        PendingModel::Idle => failure,
        PendingModel::FetchEmployee(_) => target_fetched(reply),
        PendingModel::FetchStore(_) => match reply {
            ReplyModel::Store(found) => ProgressModel::Finish(Ok(OutcomeModel::StoreOption(found))),
            _ => failure,
        },
        PendingModel::FetchLocation(_) => match reply {
            ReplyModel::Location(found) => ProgressModel::Finish(
                Ok(OutcomeModel::LocationOption(found)),
            ),
            _ => failure,
        },
        PendingModel::FetchRank(_) => match reply {
            ReplyModel::Rank(found) => ProgressModel::Finish(Ok(OutcomeModel::RankOption(found))),
            _ => failure,
        },
        PendingModel::ListEmployees => match reply {
            ReplyModel::Employees(all) => ProgressModel::Finish(Ok(OutcomeModel::Employees(all))),
            _ => failure,
        },
        PendingModel::ListStores => match reply {
            ReplyModel::Stores(all) => ProgressModel::Finish(Ok(OutcomeModel::Stores(all))),
            _ => failure,
        },
        PendingModel::ListLocations => match reply {
            ReplyModel::Locations(all) => ProgressModel::Finish(Ok(OutcomeModel::Locations(all))),
            _ => failure,
        },
        PendingModel::ListRanks => match reply {
            ReplyModel::Ranks(all) => ProgressModel::Finish(Ok(OutcomeModel::Ranks(all))),
            _ => failure,
        },
        PendingModel::InsertEmployee(doc) => match reply {
            ReplyModel::Inserted(key) => ProgressModel::Finish(
                Ok(OutcomeModel::Employee(EmployeeModel { id: Some(key), ..doc })),
            ),
            _ => failure,
        },
        PendingModel::InsertStore(doc) => match reply {
            ReplyModel::Inserted(key) => ProgressModel::Finish(
                Ok(OutcomeModel::Store(StoreModel { id: Some(key), ..doc })),
            ),
            _ => failure,
        },
        PendingModel::InsertLocation(doc) => match reply {
            ReplyModel::Inserted(key) => ProgressModel::Finish(
                Ok(OutcomeModel::Location(LocationModel { id: Some(key), ..doc })),
            ),
            _ => failure,
        },
        PendingModel::InsertRank(doc) => match reply {
            ReplyModel::Inserted(key) => ProgressModel::Finish(
                Ok(OutcomeModel::Rank(RankModel { id: Some(key), ..doc })),
            ),
            _ => failure,
        },
        PendingModel::StoreLocation { doc, .. } => ProgressModel::Continue(
            PendingModel::InsertStore(doc),
        ),
        PendingModel::CheckLocation(_) => match reply {
            ReplyModel::Location(found) => ProgressModel::Finish(
                Ok(OutcomeModel::LocationOption(found)),
            ),
            _ => ProgressModel::Finish(Ok(OutcomeModel::LocationOption(None))),
        },
        PendingModel::CheckRank { candidate, after, .. } => rank_checked(
            reply matches ReplyModel::Rank(Some(_)),
            candidate,
            after,
        ),
        PendingModel::CheckStores { current, remaining, kept, after_all, .. } => check_stores(
            remaining,
            if reply matches ReplyModel::Store(Some(_)) {
                kept.push(current)
            } else {
                kept
            },
            after_all,
        ),
        PendingModel::UpdateFetch { key, entry } => match reply {
            ReplyModel::Employee(Some(current)) => update_fetched(key, entry, current),
            ReplyModel::Employee(None) => ProgressModel::Finish(Err(RepoError::NotFound)),
            _ => failure,
        },
        PendingModel::UpdateWrite { key, .. } => match reply {
            ReplyModel::Updated => ProgressModel::Continue(PendingModel::UpdateRefetch(key)),
            _ => failure,
        },
        PendingModel::UpdateRefetch(_) => target_fetched(reply),
        PendingModel::Delete(_) => match reply {
            ReplyModel::Deleted(count) => if count == 0 {
                ProgressModel::Finish(Err(RepoError::NotFound))
            } else {
                ProgressModel::Finish(Ok(OutcomeModel::Employee(blank_employee())))
            },
            _ => failure,
        },
    }
}

/// A rank check asks at most once, and what follows it keeps to its bound.
pub proof fn lemma_rank_bounded(candidate: Seq<char>, resolved: bool, after: AfterRankModel)
    ensures
        check_rank(candidate, after).steps_left() <= 1 + after.steps_left(),
        rank_checked(resolved, candidate, after).steps_left() <= after.steps_left(),
{
    match after {
        AfterRankModel::Update { key, draft, fallback, candidates: Some(listed) } => {
            lemma_stores_bounded(
                listed,
                Seq::empty(),
                AfterStoresModel::Update { key, draft, rank_id: candidate },
            );
            lemma_stores_bounded(
                listed,
                Seq::empty(),
                AfterStoresModel::Update { key, draft, rank_id: fallback },
            );
        },
        _ => {},
    }
}

/// The store checks ask at most once for each candidate.
pub proof fn lemma_stores_bounded(
    candidates: Seq<Seq<char>>,
    kept: Seq<Seq<char>>,
    after: AfterStoresModel,
)
    ensures
        check_stores(candidates, kept, after).steps_left() <= candidates.len()
            + after.steps_left(),
        stores_checked(kept, after).steps_left() <= after.steps_left(),
    decreases candidates.len(),
{
    if candidates.len() > 0 && !is_key_text(candidates[0]) {
        lemma_stores_bounded(candidates.skip(1), kept, after);
    }
}

/// Every reply brings an operation closer to its end.
pub proof fn lemma_next_makes_progress(pending: PendingModel, reply: ReplyModel)
    requires
        pending != PendingModel::Idle,
    ensures
        next(pending, reply).steps_left() < pending.steps_left(),
{
    match pending {
        PendingModel::CheckRank { candidate, after, .. } => {
            lemma_rank_bounded(candidate, reply matches ReplyModel::Rank(Some(_)), after);
        },
        PendingModel::CheckStores { current, remaining, kept, after_all, .. } => {
            lemma_stores_bounded(remaining, kept, after_all);
            lemma_stores_bounded(remaining, kept.push(current), after_all);
        },
        PendingModel::UpdateFetch { key, entry } => {
            match reply {
                ReplyModel::Employee(Some(current)) => {
                    lemma_update_fetched_bounded(key, entry, current);
                },
                _ => {},
            }
        },
        _ => {},
    }
}

/// An update that has fetched its employee asks at most once for the rank,
/// once for each store, and twice to write and to fetch again.
pub proof fn lemma_update_fetched_bounded(
    key: Seq<u8>,
    entry: UpdateEmployeeModel,
    current: EmployeeModel,
)
    ensures
        update_fetched(key, entry, current).steps_left() <= 3 + match entry.stores {
            Some(stores) => stores.len(),
            None => 0,
        },
{
    let draft = DraftModel {
        first_name: effective_text(entry.first_name, current.first_name),
        last_name: effective_text(entry.last_name, current.last_name),
        status: effective_status(entry.status),
    };
    let fallback = effective_text(current.rank_id, no_reference());
    let after = AfterRankModel::Update { key, draft, fallback, candidates: entry.stores };
    match entry.rank_id {
        Some(candidate) => {
            lemma_rank_bounded(candidate, false, after);
        },
        None => {
            lemma_rank_bounded(fallback, false, after);
        },
    }
}

} // verus!
