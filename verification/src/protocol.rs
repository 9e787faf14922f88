//! What passes between a session and whoever talks to the document store
//! for it.

use crate::key::DocumentKey;
use crate::schema::{
    Employee, EmployeeFields, EmployeeFieldsModel, EmployeeModel, Location, LocationModel, Rank,
    RankModel, Store, StoreModel,
};
use vstd::prelude::*;

verus! {

/// Why an operation ended without a result.
#[derive(Clone, Copy, Debug, PartialEq, Eq, Structural)]
pub enum RepoError {
    /// The identifier of the operation's target is not the text of a key.
    InvalidIdentifier,
    /// The target's identifier is a key, but the store holds no document
    /// under it.
    NotFound,
    /// The store did not carry out what it was asked, or answered with
    /// something that is no answer to it.
    PersistenceFailure,
}

/// One operation of the document store.
#[derive(Clone, Debug, PartialEq, Eq)]
pub enum Request {
    FindEmployee(DocumentKey),
    FindStore(DocumentKey),
    FindLocation(DocumentKey),
    FindRank(DocumentKey),
    ListEmployees,
    ListStores,
    ListLocations,
    ListRanks,
    InsertEmployee(Employee),
    InsertStore(Store),
    InsertLocation(Location),
    InsertRank(Rank),
    /// Replace the five fields of the employee under the key.
    UpdateEmployee(DocumentKey, EmployeeFields),
    DeleteEmployee(DocumentKey),
}

/// The value of a [`Request`].
pub enum RequestModel {
    FindEmployee(Seq<u8>),
    FindStore(Seq<u8>),
    FindLocation(Seq<u8>),
    FindRank(Seq<u8>),
    ListEmployees,
    ListStores,
    ListLocations,
    ListRanks,
    InsertEmployee(EmployeeModel),
    InsertStore(StoreModel),
    InsertLocation(LocationModel),
    InsertRank(RankModel),
    UpdateEmployee(Seq<u8>, EmployeeFieldsModel),
    DeleteEmployee(Seq<u8>),
}

impl DeepView for Request {
    type V = RequestModel;

    open spec fn deep_view(&self) -> RequestModel {
        match self {
            Request::FindEmployee(key) => RequestModel::FindEmployee(key@),
            Request::FindStore(key) => RequestModel::FindStore(key@),
            Request::FindLocation(key) => RequestModel::FindLocation(key@),
            Request::FindRank(key) => RequestModel::FindRank(key@),
            Request::ListEmployees => RequestModel::ListEmployees,
            Request::ListStores => RequestModel::ListStores,
            Request::ListLocations => RequestModel::ListLocations,
            Request::ListRanks => RequestModel::ListRanks,
            Request::InsertEmployee(doc) => RequestModel::InsertEmployee(doc.deep_view()),
            Request::InsertStore(doc) => RequestModel::InsertStore(doc.deep_view()),
            Request::InsertLocation(doc) => RequestModel::InsertLocation(doc.deep_view()),
            Request::InsertRank(doc) => RequestModel::InsertRank(doc.deep_view()),
            Request::UpdateEmployee(key, fields) => RequestModel::UpdateEmployee(
                key@,
                fields.deep_view(),
            ),
            Request::DeleteEmployee(key) => RequestModel::DeleteEmployee(key@),
        }
    }
}

/// What the document store answered.
#[derive(Clone, Debug, PartialEq, Eq)]
pub enum Reply {
    /// The answer to `FindEmployee`: the document under the key, if any.
    Employee(Option<Employee>),
    Store(Option<Store>),
    Location(Option<Location>),
    Rank(Option<Rank>),
    /// The answer to `ListEmployees`: every document of the collection.
    Employees(Vec<Employee>),
    Stores(Vec<Store>),
    Locations(Vec<Location>),
    Ranks(Vec<Rank>),
    /// The answer to an insert: the key that the store assigned.
    Inserted(DocumentKey),
    /// The answer to `UpdateEmployee`.
    Updated,
    /// The answer to `DeleteEmployee`: how many documents were removed.
    Deleted(u64),
    /// The store could not carry the request out.
    Failed,
}

/// The value of a [`Reply`].
pub enum ReplyModel {
    Employee(Option<EmployeeModel>),
    Store(Option<StoreModel>),
    Location(Option<LocationModel>),
    Rank(Option<RankModel>),
    Employees(Seq<EmployeeModel>),
    Stores(Seq<StoreModel>),
    Locations(Seq<LocationModel>),
    Ranks(Seq<RankModel>),
    Inserted(Seq<u8>),
    Updated,
    Deleted(u64),
    Failed,
}

impl DeepView for Reply {
    type V = ReplyModel;

    open spec fn deep_view(&self) -> ReplyModel {
        match self {
            Reply::Employee(found) => ReplyModel::Employee(found.deep_view()),
            Reply::Store(found) => ReplyModel::Store(found.deep_view()),
            Reply::Location(found) => ReplyModel::Location(found.deep_view()),
            Reply::Rank(found) => ReplyModel::Rank(found.deep_view()),
            Reply::Employees(all) => ReplyModel::Employees(all.deep_view()),
            Reply::Stores(all) => ReplyModel::Stores(all.deep_view()),
            Reply::Locations(all) => ReplyModel::Locations(all.deep_view()),
            Reply::Ranks(all) => ReplyModel::Ranks(all.deep_view()),
            Reply::Inserted(key) => ReplyModel::Inserted(key@),
            Reply::Updated => ReplyModel::Updated,
            Reply::Deleted(count) => ReplyModel::Deleted(*count),
            Reply::Failed => ReplyModel::Failed,
        }
    }
}

/// What a finished operation hands back.
#[derive(Clone, Debug, PartialEq, Eq)]
pub enum Outcome {
    Employee(Employee),
    Employees(Vec<Employee>),
    Store(Store),
    StoreOption(Option<Store>),
    Stores(Vec<Store>),
    Location(Location),
    LocationOption(Option<Location>),
    Locations(Vec<Location>),
    Rank(Rank),
    RankOption(Option<Rank>),
    Ranks(Vec<Rank>),
    /// A sanitized rank reference: the candidate, or the empty text.
    RankId(String),
    /// A sanitized list of store references.
    StoreIds(Vec<String>),
}

/// The value of an [`Outcome`].
pub enum OutcomeModel {
    Employee(EmployeeModel),
    Employees(Seq<EmployeeModel>),
    Store(StoreModel),
    StoreOption(Option<StoreModel>),
    Stores(Seq<StoreModel>),
    Location(LocationModel),
    LocationOption(Option<LocationModel>),
    Locations(Seq<LocationModel>),
    Rank(RankModel),
    RankOption(Option<RankModel>),
    Ranks(Seq<RankModel>),
    RankId(Seq<char>),
    StoreIds(Seq<Seq<char>>),
}

impl DeepView for Outcome {
    type V = OutcomeModel;

    open spec fn deep_view(&self) -> OutcomeModel {
        match self {
            Outcome::Employee(doc) => OutcomeModel::Employee(doc.deep_view()),
            Outcome::Employees(all) => OutcomeModel::Employees(all.deep_view()),
            Outcome::Store(doc) => OutcomeModel::Store(doc.deep_view()),
            Outcome::StoreOption(found) => OutcomeModel::StoreOption(found.deep_view()),
            Outcome::Stores(all) => OutcomeModel::Stores(all.deep_view()),
            Outcome::Location(doc) => OutcomeModel::Location(doc.deep_view()),
            Outcome::LocationOption(found) => OutcomeModel::LocationOption(found.deep_view()),
            Outcome::Locations(all) => OutcomeModel::Locations(all.deep_view()),
            Outcome::Rank(doc) => OutcomeModel::Rank(doc.deep_view()),
            Outcome::RankOption(found) => OutcomeModel::RankOption(found.deep_view()),
            Outcome::Ranks(all) => OutcomeModel::Ranks(all.deep_view()),
            Outcome::RankId(id) => OutcomeModel::RankId(id@),
            Outcome::StoreIds(ids) => OutcomeModel::StoreIds(ids.deep_view()),
        }
    }
}

/// The value of an operation's result.
pub open spec fn result_model(result: Result<Outcome, RepoError>) -> Result<
    OutcomeModel,
    RepoError,
> {
    match result {
        Ok(outcome) => Ok(outcome.deep_view()),
        Err(error) => Err(error),
    }
}

/// Where an operation stands after a call into its session: it waits for
/// the answer to a request, or it is over.
#[derive(Debug, PartialEq, Eq)]
pub enum Step {
    /// Perform the request against the store and resume with its reply.
    Ask(Request),
    /// The operation is over, with this result.
    Done(Result<Outcome, RepoError>),
}

/// The value of a [`Step`].
pub enum StepModel {
    Ask(RequestModel),
    Done(Result<OutcomeModel, RepoError>),
}

impl DeepView for Step {
    type V = StepModel;

    open spec fn deep_view(&self) -> StepModel {
        match self {
            Step::Ask(request) => StepModel::Ask(request.deep_view()),
            Step::Done(result) => StepModel::Done(result_model(*result)),
        }
    }
}

} // verus!
