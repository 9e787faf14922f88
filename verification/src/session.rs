//! The session: the executable form of the transition system.

use crate::key::DocumentKey;
use crate::protocol::{Outcome, RepoError, Reply, Request, Step};
use crate::schema::{
    CreateEmployee, CreateLocation, CreateRank, CreateStore, DeleteEmployee, Employee,
    EmployeeFields, Location, Rank, Status, Store, UpdateEmployee,
};
use crate::transition::{
    begin_create_employee, begin_create_location, begin_create_rank, begin_create_store,
    begin_delete_employee, begin_get_employee, begin_get_location, begin_get_rank,
    begin_get_store, begin_update_employee, begin_validate_location, begin_validate_rank,
    begin_validate_store_vec, next, remaining_from, update_fetched, AfterRankModel,
    AfterStoresModel, DraftModel, PendingModel, ProgressModel,
};
use vstd::prelude::*;

verus! {

struct Draft {
    first_name: String,
    last_name: String,
    status: Status,
}

impl DeepView for Draft {
    type V = DraftModel;

    closed spec fn deep_view(&self) -> DraftModel {
        DraftModel {
            first_name: self.first_name@,
            last_name: self.last_name@,
            status: self.status,
        }
    }
}

enum AfterRank {
    Return,
    Create { draft: Draft, kept: Vec<String> },
    Update { key: DocumentKey, draft: Draft, fallback: String, candidates: Option<Vec<String>> },
}

impl DeepView for AfterRank {
    type V = AfterRankModel;

    closed spec fn deep_view(&self) -> AfterRankModel {
        match self {
            AfterRank::Return => AfterRankModel::Return,
            AfterRank::Create { draft, kept } => AfterRankModel::Create {
                draft: draft.deep_view(),
                kept: kept.deep_view(),
            },
            AfterRank::Update { key, draft, fallback, candidates } => AfterRankModel::Update {
                key: key@,
                draft: draft.deep_view(),
                fallback: fallback@,
                candidates: candidates.deep_view(),
            },
        }
    }
}

enum AfterStores {
    Return,
    Create { draft: Draft, candidate: String },
    Update { key: DocumentKey, draft: Draft, rank_id: String },
}

impl DeepView for AfterStores {
    type V = AfterStoresModel;

    closed spec fn deep_view(&self) -> AfterStoresModel {
        match self {
            AfterStores::Return => AfterStoresModel::Return,
            AfterStores::Create { draft, candidate } => AfterStoresModel::Create {
                draft: draft.deep_view(),
                candidate: candidate@,
            },
            AfterStores::Update { key, draft, rank_id } => AfterStoresModel::Update {
                key: key@,
                draft: draft.deep_view(),
                rank_id: rank_id@,
            },
        }
    }
}

enum Pending {
    Idle,
    FetchEmployee(DocumentKey),
    FetchStore(DocumentKey),
    FetchLocation(DocumentKey),
    FetchRank(DocumentKey),
    ListEmployees,
    ListStores,
    ListLocations,
    ListRanks,
    InsertEmployee(Employee),
    InsertStore(Store),
    InsertLocation(Location),
    InsertRank(Rank),
    StoreLocation { key: DocumentKey, doc: Store },
    CheckLocation(DocumentKey),
    CheckRank { key: DocumentKey, candidate: String, after: AfterRank },
    /// The candidates before position `position` are dealt with, `current`
    /// among them.
    CheckStores {
        key: DocumentKey,
        current: String,
        candidates: Vec<String>,
        position: usize,
        kept: Vec<String>,
        after_all: AfterStores,
    },
    UpdateFetch { key: DocumentKey, entry: UpdateEmployee },
    UpdateWrite { key: DocumentKey, fields: EmployeeFields },
    UpdateRefetch(DocumentKey),
    Delete(DocumentKey),
}

impl DeepView for Pending {
    type V = PendingModel;

    closed spec fn deep_view(&self) -> PendingModel {
        match self {
            Pending::Idle => PendingModel::Idle,
            Pending::FetchEmployee(key) => PendingModel::FetchEmployee(key@),
            Pending::FetchStore(key) => PendingModel::FetchStore(key@),
            Pending::FetchLocation(key) => PendingModel::FetchLocation(key@),
            Pending::FetchRank(key) => PendingModel::FetchRank(key@),
            Pending::ListEmployees => PendingModel::ListEmployees,
            Pending::ListStores => PendingModel::ListStores,
            Pending::ListLocations => PendingModel::ListLocations,
            Pending::ListRanks => PendingModel::ListRanks,
            Pending::InsertEmployee(doc) => PendingModel::InsertEmployee(doc.deep_view()),
            Pending::InsertStore(doc) => PendingModel::InsertStore(doc.deep_view()),
            Pending::InsertLocation(doc) => PendingModel::InsertLocation(doc.deep_view()),
            Pending::InsertRank(doc) => PendingModel::InsertRank(doc.deep_view()),
            Pending::StoreLocation { key, doc } => PendingModel::StoreLocation {
                key: key@,
                doc: doc.deep_view(),
            },
            Pending::CheckLocation(key) => PendingModel::CheckLocation(key@),
            Pending::CheckRank { key, candidate, after } => PendingModel::CheckRank {
                key: key@,
                candidate: candidate@,
                after: after.deep_view(),
            },
            Pending::CheckStores {
                key,
                current,
                candidates,
                position,
                kept,
                after_all,
            } => PendingModel::CheckStores {
                key: key@,
                current: current@,
                remaining: remaining_from(candidates.deep_view(), *position as int),
                kept: kept.deep_view(),
                after_all: after_all.deep_view(),
            },
            Pending::UpdateFetch { key, entry } => PendingModel::UpdateFetch {
                key: key@,
                entry: entry.deep_view(),
            },
            Pending::UpdateWrite { key, fields } => PendingModel::UpdateWrite {
                key: key@,
                fields: fields.deep_view(),
            },
            Pending::UpdateRefetch(key) => PendingModel::UpdateRefetch(key@),
            Pending::Delete(key) => PendingModel::Delete(key@),
        }
    }
}

enum Progress {
    Continue(Pending),
    Finish(Result<Outcome, RepoError>),
}

impl DeepView for Progress {
    type V = ProgressModel;

    closed spec fn deep_view(&self) -> ProgressModel {
        match self {
            Progress::Continue(pending) => ProgressModel::Continue(pending.deep_view()),
            Progress::Finish(result) => ProgressModel::Finish(
                crate::protocol::result_model(*result),
            ),
        }
    }
}

impl Pending {
    /// The request whose reply the state waits for.
    fn request(&self) -> (request: Option<Request>)
        ensures
            request.deep_view() == self.deep_view().outstanding(),
    {
        match self {
            Pending::Idle => None,
            Pending::FetchEmployee(key) => Some(Request::FindEmployee(*key)),
            Pending::FetchStore(key) => Some(Request::FindStore(*key)),
            Pending::FetchLocation(key) => Some(Request::FindLocation(*key)),
            Pending::FetchRank(key) => Some(Request::FindRank(*key)),
            Pending::ListEmployees => Some(Request::ListEmployees),
            Pending::ListStores => Some(Request::ListStores),
            Pending::ListLocations => Some(Request::ListLocations),
            Pending::ListRanks => Some(Request::ListRanks),
            Pending::InsertEmployee(doc) => Some(Request::InsertEmployee(doc.clone())),
            Pending::InsertStore(doc) => Some(Request::InsertStore(doc.clone())),
            Pending::InsertLocation(doc) => Some(Request::InsertLocation(doc.clone())),
            Pending::InsertRank(doc) => Some(Request::InsertRank(doc.clone())),
            Pending::StoreLocation { key, .. } => Some(Request::FindLocation(*key)),
            Pending::CheckLocation(key) => Some(Request::FindLocation(*key)),
            Pending::CheckRank { key, .. } => Some(Request::FindRank(*key)),
            Pending::CheckStores { key, .. } => Some(Request::FindStore(*key)),
            Pending::UpdateFetch { key, .. } => Some(Request::FindEmployee(*key)),
            Pending::UpdateWrite { key, fields } => Some(
                Request::UpdateEmployee(*key, fields.clone()),
            ),
            Pending::UpdateRefetch(key) => Some(Request::FindEmployee(*key)),
            Pending::Delete(key) => Some(Request::DeleteEmployee(*key)),
        }
    }
}

/// The insert of a new employee.
fn insert_created(draft: Draft, kept: Vec<String>, rank_id: String) -> (progress: Progress)
    ensures
        progress.deep_view() == crate::transition::insert_created(
            draft.deep_view(),
            kept.deep_view(),
            rank_id@,
        ),
{
    Progress::Continue(
        Pending::InsertEmployee(
            Employee {
                id: None,
                first_name: draft.first_name,
                last_name: draft.last_name,
                status: Some(draft.status),
                stores: Some(kept),
                rank_id: Some(rank_id),
            },
        ),
    )
}

/// Checks a rank reference, with a lookup where it is the text of a key.
fn check_rank(candidate: String, after: AfterRank) -> (progress: Progress)
    ensures
        progress.deep_view() == crate::transition::check_rank(candidate@, after.deep_view()),
{
    match DocumentKey::parse_str(candidate.as_str()) {
        Some(key) => Progress::Continue(Pending::CheckRank { key, candidate, after }),
        None => rank_checked(false, candidate, after),
    }
}

/// Goes on after the check of a rank reference.
fn rank_checked(resolved: bool, candidate: String, after: AfterRank) -> (progress: Progress)
    ensures
        progress.deep_view() == crate::transition::rank_checked(
            resolved,
            candidate@,
            after.deep_view(),
        ),
{
    match after {
        AfterRank::Return => {
            let rank_id = if resolved {
                candidate
            } else {
                String::new()
            };
            Progress::Finish(Ok(Outcome::RankId(rank_id)))
        },
        AfterRank::Create { draft, kept } => {
            let rank_id = if resolved {
                candidate
            } else {
                String::new()
            };
            insert_created(draft, kept, rank_id)
        },
        AfterRank::Update { key, draft, fallback, candidates } => {
            let rank_id = if resolved {
                candidate
            } else {
                fallback
            };
            let kept: Vec<String> = Vec::new();
            assert(kept.deep_view() =~= Seq::<Seq<char>>::empty());
            let after_all = AfterStores::Update { key, draft, rank_id };
            match candidates {
                Some(candidates) => {
                    assert(remaining_from(candidates.deep_view(), 0) =~= candidates.deep_view());
                    check_stores(candidates, 0, kept, after_all)
                },
                None => stores_checked(kept, after_all),
            }
        },
    }
}

/// Checks the store references of `candidates` from position `from` on,
/// up to the first that needs a lookup.
fn check_stores(
    candidates: Vec<String>,
    from: usize,
    kept: Vec<String>,
    after: AfterStores,
) -> (progress: Progress)
    ensures
        progress.deep_view() == crate::transition::check_stores(
            remaining_from(candidates.deep_view(), from as int),
            kept.deep_view(),
            after.deep_view(),
        ),
{
    let ghost goal = crate::transition::check_stores(
        remaining_from(candidates.deep_view(), from as int),
        kept.deep_view(),
        after.deep_view(),
    );
    let mut position: usize = from;
    while position < candidates.len()
        invariant
            from <= position,
            goal == crate::transition::check_stores(
                remaining_from(candidates.deep_view(), from as int),
                kept.deep_view(),
                after.deep_view(),
            ),
            goal == crate::transition::check_stores(
                remaining_from(candidates.deep_view(), position as int),
                kept.deep_view(),
                after.deep_view(),
            ),
        decreases candidates.len() - position,
    {
        let ghost here = remaining_from(candidates.deep_view(), position as int);
        assert(here.skip(1) =~= remaining_from(candidates.deep_view(), position + 1));
        match DocumentKey::parse_str(candidates[position].as_str()) {
            Some(key) => {
                let current = candidates[position].clone();
                return Progress::Continue(
                    Pending::CheckStores {
                        key,
                        current,
                        candidates,
                        position: position + 1,
                        kept,
                        after_all: after,
                    },
                );
            },
            None => {
                position += 1;
            },
        }
    }
    stores_checked(kept, after)
}

/// Goes on after the check of a list of store references.
fn stores_checked(kept: Vec<String>, after: AfterStores) -> (progress: Progress)
    ensures
        progress.deep_view() == crate::transition::stores_checked(
            kept.deep_view(),
            after.deep_view(),
        ),
{
    match after {
        AfterStores::Return => Progress::Finish(Ok(Outcome::StoreIds(kept))),
        AfterStores::Create { draft, candidate } => {
            match DocumentKey::parse_str(candidate.as_str()) {
                Some(key) => Progress::Continue(
                    Pending::CheckRank { key, candidate, after: AfterRank::Create { draft, kept } },
                ),
                None => insert_created(draft, kept, String::new()),
            }
        },
        AfterStores::Update { key, draft, rank_id } => Progress::Continue(
            Pending::UpdateWrite {
                key,
                fields: EmployeeFields {
                    first_name: draft.first_name,
                    last_name: draft.last_name,
                    status: draft.status,
                    stores: kept,
                    rank_id,
                },
            },
        ),
    }
}

/// The status given, else `Unset`.
fn status_or_unset(given: Option<Status>) -> (status: Status)
    ensures
        status == crate::transition::effective_status(given),
{
    match given {
        Some(status) => status,
        None => Status::Unset,
    }
}

/// The text given, else the one held so far.
fn text_or(given: Option<String>, held: String) -> (text: String)
    ensures
        text@ == crate::transition::effective_text(given.deep_view(), held@),
{
    match given {
        Some(text) => text,
        None => held,
    }
}

/// Goes on with an update once its employee is fetched.
fn go_on_with_update(key: DocumentKey, entry: UpdateEmployee, current: Employee) -> (progress:
    Progress)
    ensures
        progress.deep_view() == update_fetched(key@, entry.deep_view(), current.deep_view()),
{
    let draft = Draft {
        first_name: text_or(entry.first_name, current.first_name),
        last_name: text_or(entry.last_name, current.last_name),
        status: status_or_unset(entry.status),
    };
    let fallback = text_or(current.rank_id, String::new());
    match entry.rank_id {
        Some(candidate) => check_rank(
            candidate,
            AfterRank::Update { key, draft, fallback, candidates: entry.stores },
        ),
        None => {
            let held = fallback.clone();
            rank_checked(
                false,
                held,
                AfterRank::Update { key, draft, fallback, candidates: entry.stores },
            )
        },
    }
}

/// What the reply to a fetch of the operation's target becomes.
fn target_fetched(reply: Reply) -> (progress: Progress)
    ensures
        progress.deep_view() == crate::transition::target_fetched(reply.deep_view()),
{
    match reply {
        Reply::Employee(Some(doc)) => Progress::Finish(Ok(Outcome::Employee(doc))),
        Reply::Employee(None) => Progress::Finish(Err(RepoError::NotFound)),
        _ => Progress::Finish(Err(RepoError::PersistenceFailure)),
    }
}

/// Where `reply` leads from `pending`.
fn advance(pending: Pending, reply: Reply) -> (progress: Progress)
    ensures
        progress.deep_view() == next(pending.deep_view(), reply.deep_view()),
{
    match pending {
        Pending::Idle => Progress::Finish(Err(RepoError::PersistenceFailure)),
        Pending::FetchEmployee(_) => target_fetched(reply),
        Pending::FetchStore(_) => match reply {
            Reply::Store(found) => Progress::Finish(Ok(Outcome::StoreOption(found))),
            _ => Progress::Finish(Err(RepoError::PersistenceFailure)),
        },
        Pending::FetchLocation(_) => match reply {
            Reply::Location(found) => Progress::Finish(Ok(Outcome::LocationOption(found))),
            _ => Progress::Finish(Err(RepoError::PersistenceFailure)),
        },
        Pending::FetchRank(_) => match reply {
            Reply::Rank(found) => Progress::Finish(Ok(Outcome::RankOption(found))),
            _ => Progress::Finish(Err(RepoError::PersistenceFailure)),
        },
        Pending::ListEmployees => match reply {
            Reply::Employees(all) => Progress::Finish(Ok(Outcome::Employees(all))),
            _ => Progress::Finish(Err(RepoError::PersistenceFailure)),
        },
        Pending::ListStores => match reply {
            Reply::Stores(all) => Progress::Finish(Ok(Outcome::Stores(all))),
            _ => Progress::Finish(Err(RepoError::PersistenceFailure)),
        },
        Pending::ListLocations => match reply {
            Reply::Locations(all) => Progress::Finish(Ok(Outcome::Locations(all))),
            _ => Progress::Finish(Err(RepoError::PersistenceFailure)),
        },
        Pending::ListRanks => match reply {
            Reply::Ranks(all) => Progress::Finish(Ok(Outcome::Ranks(all))),
            _ => Progress::Finish(Err(RepoError::PersistenceFailure)),
        },
        Pending::InsertEmployee(doc) => match reply {
            Reply::Inserted(key) => Progress::Finish(
                Ok(
                    Outcome::Employee(
                        Employee {
                            id: Some(key),
                            first_name: doc.first_name,
                            last_name: doc.last_name,
                            status: doc.status,
                            stores: doc.stores,
                            rank_id: doc.rank_id,
                        },
                    ),
                ),
            ),
            _ => Progress::Finish(Err(RepoError::PersistenceFailure)),
        },
        Pending::InsertStore(doc) => match reply {
            Reply::Inserted(key) => Progress::Finish(
                Ok(
                    Outcome::Store(
                        Store { id: Some(key), name: doc.name, location_id: doc.location_id },
                    ),
                ),
            ),
            _ => Progress::Finish(Err(RepoError::PersistenceFailure)),
        },
        Pending::InsertLocation(doc) => match reply {
            Reply::Inserted(key) => Progress::Finish(
                Ok(
                    Outcome::Location(
                        Location { id: Some(key), country: doc.country, state: doc.state },
                    ),
                ),
            ),
            _ => Progress::Finish(Err(RepoError::PersistenceFailure)),
        },
        Pending::InsertRank(doc) => match reply {
            Reply::Inserted(key) => Progress::Finish(
                Ok(
                    Outcome::Rank(
                        Rank { id: Some(key), name: doc.name, description: doc.description },
                    ),
                ),
            ),
            _ => Progress::Finish(Err(RepoError::PersistenceFailure)),
        },
        Pending::StoreLocation { doc, .. } => Progress::Continue(Pending::InsertStore(doc)),
        Pending::CheckLocation(_) => match reply {
            Reply::Location(found) => Progress::Finish(Ok(Outcome::LocationOption(found))),
            _ => Progress::Finish(Ok(Outcome::LocationOption(None))),
        },
        Pending::CheckRank { candidate, after, .. } => {
            let resolved = match reply {
                Reply::Rank(Some(_)) => true,
                _ => false,
            };
            rank_checked(resolved, candidate, after)
        },
        Pending::CheckStores { current, candidates, position, kept, after_all, .. } => {
            let resolved = match reply {
                Reply::Store(Some(_)) => true,
                _ => false,
            };
            let mut kept = kept;
            if resolved {
                let ghost before = kept.deep_view();
                kept.push(current);
                assert(kept.deep_view() =~= before.push(current@));
            }
            check_stores(candidates, position, kept, after_all)
        },
        Pending::UpdateFetch { key, entry } => match reply {
            Reply::Employee(Some(current)) => go_on_with_update(key, entry, current),
            Reply::Employee(None) => Progress::Finish(Err(RepoError::NotFound)),
            _ => Progress::Finish(Err(RepoError::PersistenceFailure)),
        },
        Pending::UpdateWrite { key, .. } => match reply {
            Reply::Updated => Progress::Continue(Pending::UpdateRefetch(key)),
            _ => Progress::Finish(Err(RepoError::PersistenceFailure)),
        },
        Pending::UpdateRefetch(_) => target_fetched(reply),
        Pending::Delete(_) => match reply {
            Reply::Deleted(count) => if count == 0 {
                Progress::Finish(Err(RepoError::NotFound))
            } else {
                Progress::Finish(
                    Ok(
                        Outcome::Employee(
                            Employee {
                                id: None,
                                first_name: String::new(),
                                last_name: String::new(),
                                status: None,
                                stores: None,
                                rank_id: None,
                            },
                        ),
                    ),
                )
            },
            _ => Progress::Finish(Err(RepoError::PersistenceFailure)),
        },
    }
}

/// A session with a MongoDB database, one operation at a time.
///
/// The session holds no connection. Each operation is started by the method
/// of its name, which says what to do next: a request to perform against the
/// database, or the result. The reply to a request goes to
/// [`MongoDB::resume`], which says what to do next in turn. Starting an
/// operation while another waits for a reply abandons the one that waits.
pub struct MongoDB {
    pending: Pending,
}

impl View for MongoDB {
    type V = PendingModel;

    closed spec fn view(&self) -> PendingModel {
        self.pending.deep_view()
    }
}

impl MongoDB {
    /// A session in which no operation is under way.
    pub fn init() -> (db: MongoDB)
        ensures
            db@ == PendingModel::Idle,
    {
        MongoDB { pending: Pending::Idle }
    }

    /// Whether no operation is under way.
    pub fn is_idle(&self) -> (idle: bool)
        ensures
            idle == (self@ == PendingModel::Idle),
    {
        match &self.pending {
            Pending::Idle => true,
            _ => false,
        }
    }

    fn settle(&mut self, progress: Progress) -> (step: Step)
        ensures
            final(self)@ == progress.deep_view().pending(),
            step.deep_view() == progress.deep_view().step(),
    {
        match progress {
            Progress::Continue(pending) => {
                let request = pending.request();
                match request {
                    Some(request) => {
                        self.pending = pending;
                        Step::Ask(request)
                    },
                    None => {
                        self.pending = Pending::Idle;
                        Step::Done(Err(RepoError::PersistenceFailure))
                    },
                }
            },
            Progress::Finish(result) => {
                self.pending = Pending::Idle;
                Step::Done(result)
            },
        }
    }

    /// Takes the reply to the outstanding request and says what to do next.
    pub fn resume(&mut self, reply: Reply) -> (step: Step)
        ensures
            final(self)@ == next(old(self)@, reply.deep_view()).pending(),
            step.deep_view() == next(old(self)@, reply.deep_view()).step(),
    {
        let mut pending = Pending::Idle;
        core::mem::swap(&mut self.pending, &mut pending);
        let progress = advance(pending, reply);
        self.settle(progress)
    }

    /// Starts the deletion of the employee that `delete_entry` names.
    pub fn delete_employee(&mut self, delete_entry: DeleteEmployee) -> (step: Step)
        ensures
            final(self)@ == begin_delete_employee(delete_entry.id@).pending(),
            step.deep_view() == begin_delete_employee(delete_entry.id@).step(),
    {
        let progress = match DocumentKey::parse_str(delete_entry.id.as_str()) {
            Some(key) => Progress::Continue(Pending::Delete(key)),
            None => Progress::Finish(Err(RepoError::InvalidIdentifier)),
        };
        self.settle(progress)
    }

    /// Starts the update of the employee that `update_entry` names.
    pub fn update_employee(&mut self, update_entry: UpdateEmployee) -> (step: Step)
        ensures
            final(self)@ == begin_update_employee(update_entry.deep_view()).pending(),
            step.deep_view() == begin_update_employee(update_entry.deep_view()).step(),
    {
        let progress = match DocumentKey::parse_str(update_entry.id.as_str()) {
            Some(key) => Progress::Continue(Pending::UpdateFetch { key, entry: update_entry }),
            None => Progress::Finish(Err(RepoError::InvalidIdentifier)),
        };
        self.settle(progress)
    }

    /// Starts the creation of an employee.
    pub fn create_employee(&mut self, new_entry: CreateEmployee) -> (step: Step)
        ensures
            final(self)@ == begin_create_employee(new_entry.deep_view()).pending(),
            step.deep_view() == begin_create_employee(new_entry.deep_view()).step(),
    {
        let draft = Draft {
            first_name: new_entry.first_name,
            last_name: new_entry.last_name,
            status: status_or_unset(new_entry.status),
        };
        let kept: Vec<String> = Vec::new();
        assert(kept.deep_view() =~= Seq::<Seq<char>>::empty());
        let candidates = match new_entry.stores {
            Some(stores) => stores,
            None => {
                let none: Vec<String> = Vec::new();
                none
            },
        };
        assert(remaining_from(candidates.deep_view(), 0) =~= candidates.deep_view());
        let progress = check_stores(
            candidates,
            0,
            kept,
            AfterStores::Create { draft, candidate: new_entry.rank_id },
        );
        self.settle(progress)
    }

    /// Starts the listing of all employees.
    pub fn get_all_employees(&mut self) -> (step: Step)
        ensures
            final(self)@ == PendingModel::ListEmployees,
            step.deep_view() == ProgressModel::Continue(PendingModel::ListEmployees).step(),
    {
        self.settle(Progress::Continue(Pending::ListEmployees))
    }

    /// Starts the lookup of the employee under `id`.
    pub fn get_single_employee(&mut self, id: &String) -> (step: Step)
        ensures
            final(self)@ == begin_get_employee(id@).pending(),
            step.deep_view() == begin_get_employee(id@).step(),
    {
        let progress = match DocumentKey::parse_str(id.as_str()) {
            Some(key) => Progress::Continue(Pending::FetchEmployee(key)),
            None => Progress::Finish(Err(RepoError::InvalidIdentifier)),
        };
        self.settle(progress)
    }

    /// Starts the creation of a store.
    pub fn create_store(&mut self, new_entry: CreateStore) -> (step: Step)
        ensures
            final(self)@ == begin_create_store(new_entry.name@, new_entry.location_id@).pending(),
            step.deep_view() == begin_create_store(new_entry.name@, new_entry.location_id@).step(),
    {
        let doc = Store { id: None, name: new_entry.name, location_id: String::new() };
        let progress = match DocumentKey::parse_str(new_entry.location_id.as_str()) {
            Some(key) => Progress::Continue(Pending::StoreLocation { key, doc }),
            None => Progress::Continue(Pending::InsertStore(doc)),
        };
        self.settle(progress)
    }

    /// Starts the listing of all stores.
    pub fn get_all_stores(&mut self) -> (step: Step)
        ensures
            final(self)@ == PendingModel::ListStores,
            step.deep_view() == ProgressModel::Continue(PendingModel::ListStores).step(),
    {
        self.settle(Progress::Continue(Pending::ListStores))
    }

    /// Starts the lookup of the store under `id`.
    pub fn get_single_store(&mut self, id: &String) -> (step: Step)
        ensures
            final(self)@ == begin_get_store(id@).pending(),
            step.deep_view() == begin_get_store(id@).step(),
    {
        let progress = match DocumentKey::parse_str(id.as_str()) {
            Some(key) => Progress::Continue(Pending::FetchStore(key)),
            None => Progress::Finish(Err(RepoError::InvalidIdentifier)),
        };
        self.settle(progress)
    }

    /// Starts the check of a list of store references.
    pub fn validate_store_vec(&mut self, store_vec: &Vec<String>) -> (step: Step)
        ensures
            final(self)@ == begin_validate_store_vec(store_vec.deep_view()).pending(),
            step.deep_view() == begin_validate_store_vec(store_vec.deep_view()).step(),
    {
        let candidates = store_vec.clone();
        let kept: Vec<String> = Vec::new();
        assert(kept.deep_view() =~= Seq::<Seq<char>>::empty());
        assert(remaining_from(candidates.deep_view(), 0) =~= candidates.deep_view());
        let progress = check_stores(candidates, 0, kept, AfterStores::Return);
        self.settle(progress)
    }

    /// Starts the creation of a location.
    pub fn create_location(&mut self, new_entry: CreateLocation) -> (step: Step)
        ensures
            final(self)@ == begin_create_location(new_entry.country@, new_entry.state@).pending(),
            step.deep_view() == begin_create_location(new_entry.country@, new_entry.state@).step(),
    {
        let doc = Location { id: None, country: new_entry.country, state: new_entry.state };
        self.settle(Progress::Continue(Pending::InsertLocation(doc)))
    }

    /// Starts the listing of all locations.
    pub fn get_all_locations(&mut self) -> (step: Step)
        ensures
            final(self)@ == PendingModel::ListLocations,
            step.deep_view() == ProgressModel::Continue(PendingModel::ListLocations).step(),
    {
        self.settle(Progress::Continue(Pending::ListLocations))
    }

    /// Starts the lookup of the location under `id`.
    pub fn get_single_location(&mut self, id: &String) -> (step: Step)
        ensures
            final(self)@ == begin_get_location(id@).pending(),
            step.deep_view() == begin_get_location(id@).step(),
    {
        let progress = match DocumentKey::parse_str(id.as_str()) {
            Some(key) => Progress::Continue(Pending::FetchLocation(key)),
            None => Progress::Finish(Err(RepoError::InvalidIdentifier)),
        };
        self.settle(progress)
    }

    /// Starts the check of a location reference.
    pub fn validate_location(&mut self, location_id: &String) -> (step: Step)
        ensures
            final(self)@ == begin_validate_location(location_id@).pending(),
            step.deep_view() == begin_validate_location(location_id@).step(),
    {
        let progress = match DocumentKey::parse_str(location_id.as_str()) {
            Some(key) => Progress::Continue(Pending::CheckLocation(key)),
            None => Progress::Finish(Ok(Outcome::LocationOption(None))),
        };
        self.settle(progress)
    }

    /// Starts the creation of a rank.
    pub fn create_rank(&mut self, new_entry: CreateRank) -> (step: Step)
        ensures
            final(self)@ == begin_create_rank(new_entry.name@, new_entry.description@).pending(),
            step.deep_view() == begin_create_rank(new_entry.name@, new_entry.description@).step(),
    {
        let doc = Rank { id: None, name: new_entry.name, description: new_entry.description };
        self.settle(Progress::Continue(Pending::InsertRank(doc)))
    }

    /// Starts the listing of all ranks.
    pub fn get_all_ranks(&mut self) -> (step: Step)
        ensures
            final(self)@ == PendingModel::ListRanks,
            step.deep_view() == ProgressModel::Continue(PendingModel::ListRanks).step(),
    {
        self.settle(Progress::Continue(Pending::ListRanks))
    }

    /// Starts the lookup of the rank under `id`.
    pub fn get_single_rank(&mut self, id: &String) -> (step: Step)
        ensures
            final(self)@ == begin_get_rank(id@).pending(),
            step.deep_view() == begin_get_rank(id@).step(),
    {
        let progress = match DocumentKey::parse_str(id.as_str()) {
            Some(key) => Progress::Continue(Pending::FetchRank(key)),
            None => Progress::Finish(Err(RepoError::InvalidIdentifier)),
        };
        self.settle(progress)
    }

    /// Starts the check of a rank reference.
    pub fn validate_rank(&mut self, rank_id: &String) -> (step: Step)
        ensures
            final(self)@ == begin_validate_rank(rank_id@).pending(),
            step.deep_view() == begin_validate_rank(rank_id@).step(),
    {
        let progress = check_rank(rank_id.clone(), AfterRank::Return);
        self.settle(progress)
    }
}

} // verus!
