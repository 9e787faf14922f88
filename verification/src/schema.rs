//! The documents of the directory and the inputs of its operations, each
//! with the mathematical value that contracts speak of.

use crate::key::DocumentKey;
use vstd::prelude::*;

verus! {

/// What an employee is currently doing. `Unset` is the status of an employee
/// for whom none was given.
#[derive(Clone, Copy, Debug, PartialEq, Eq, Structural)]
pub enum Status {
    Unset,
    Working,
    EmergencyService,
    Vacation,
    Illness,
}

impl Default for Status {
    /// The status of an employee for whom none was given.
    fn default() -> (status: Status)
        ensures
            status == Status::Unset,
    {
        Status::Unset
    }
}

/// An employee as the store holds it.
#[derive(Debug, PartialEq, Eq)]
pub struct Employee {
    pub id: Option<DocumentKey>,
    pub first_name: String,
    pub last_name: String,
    pub status: Option<Status>,
    pub stores: Option<Vec<String>>,
    pub rank_id: Option<String>,
}

/// The value of an [`Employee`].
pub struct EmployeeModel {
    pub id: Option<Seq<u8>>,
    pub first_name: Seq<char>,
    pub last_name: Seq<char>,
    pub status: Option<Status>,
    pub stores: Option<Seq<Seq<char>>>,
    pub rank_id: Option<Seq<char>>,
}

impl DeepView for Employee {
    type V = EmployeeModel;

    open spec fn deep_view(&self) -> EmployeeModel {
        EmployeeModel {
            id: self.id.deep_view(),
            first_name: self.first_name@,
            last_name: self.last_name@,
            status: self.status,
            stores: self.stores.deep_view(),
            rank_id: self.rank_id.deep_view(),
        }
    }
}

/// The input of an employee creation.
#[derive(Clone, Debug, PartialEq, Eq)]
pub struct CreateEmployee {
    pub first_name: String,
    pub last_name: String,
    pub status: Option<Status>,
    pub stores: Option<Vec<String>>,
    pub rank_id: String,
}

/// The value of a [`CreateEmployee`].
pub struct CreateEmployeeModel {
    pub first_name: Seq<char>,
    pub last_name: Seq<char>,
    pub status: Option<Status>,
    pub stores: Option<Seq<Seq<char>>>,
    pub rank_id: Seq<char>,
}

impl DeepView for CreateEmployee {
    type V = CreateEmployeeModel;

    open spec fn deep_view(&self) -> CreateEmployeeModel {
        CreateEmployeeModel {
            first_name: self.first_name@,
            last_name: self.last_name@,
            status: self.status,
            stores: self.stores.deep_view(),
            rank_id: self.rank_id@,
        }
    }
}

/// The input of an employee deletion.
#[derive(Clone, Debug, PartialEq, Eq)]
pub struct DeleteEmployee {
    pub id: String,
}

/// The input of an employee update: the target and, for each field, an
/// override or nothing.
#[derive(Clone, Debug, PartialEq, Eq)]
pub struct UpdateEmployee {
    pub id: String,
    pub first_name: Option<String>,
    pub last_name: Option<String>,
    pub status: Option<Status>,
    pub stores: Option<Vec<String>>,
    pub rank_id: Option<String>,
}

/// The value of an [`UpdateEmployee`].
pub struct UpdateEmployeeModel {
    pub id: Seq<char>,
    pub first_name: Option<Seq<char>>,
    pub last_name: Option<Seq<char>>,
    pub status: Option<Status>,
    pub stores: Option<Seq<Seq<char>>>,
    pub rank_id: Option<Seq<char>>,
}

impl DeepView for UpdateEmployee {
    type V = UpdateEmployeeModel;

    open spec fn deep_view(&self) -> UpdateEmployeeModel {
        UpdateEmployeeModel {
            id: self.id@,
            first_name: self.first_name.deep_view(),
            last_name: self.last_name.deep_view(),
            status: self.status,
            stores: self.stores.deep_view(),
            rank_id: self.rank_id.deep_view(),
        }
    }
}

/// The five fields that an update writes.
#[derive(Debug, PartialEq, Eq)]
pub struct EmployeeFields {
    pub first_name: String,
    pub last_name: String,
    pub status: Status,
    pub stores: Vec<String>,
    pub rank_id: String,
}

/// The value of an [`EmployeeFields`].
pub struct EmployeeFieldsModel {
    pub first_name: Seq<char>,
    pub last_name: Seq<char>,
    pub status: Status,
    pub stores: Seq<Seq<char>>,
    pub rank_id: Seq<char>,
}

impl DeepView for EmployeeFields {
    type V = EmployeeFieldsModel;

    open spec fn deep_view(&self) -> EmployeeFieldsModel {
        EmployeeFieldsModel {
            first_name: self.first_name@,
            last_name: self.last_name@,
            status: self.status,
            stores: self.stores.deep_view(),
            rank_id: self.rank_id@,
        }
    }
}

/// A store as the document store holds it.
#[derive(Debug, PartialEq, Eq)]
pub struct Store {
    pub id: Option<DocumentKey>,
    pub name: String,
    pub location_id: String,
}

/// The value of a [`Store`].
pub struct StoreModel {
    pub id: Option<Seq<u8>>,
    pub name: Seq<char>,
    pub location_id: Seq<char>,
}

impl DeepView for Store {
    type V = StoreModel;

    open spec fn deep_view(&self) -> StoreModel {
        StoreModel { id: self.id.deep_view(), name: self.name@, location_id: self.location_id@ }
    }
}

/// The input of a store creation.
#[derive(Clone, Debug, PartialEq, Eq)]
pub struct CreateStore {
    pub name: String,
    pub location_id: String,
}

/// A location as the document store holds it.
#[derive(Debug, PartialEq, Eq)]
pub struct Location {
    pub id: Option<DocumentKey>,
    pub country: String,
    pub state: String,
}

/// The value of a [`Location`].
pub struct LocationModel {
    pub id: Option<Seq<u8>>,
    pub country: Seq<char>,
    pub state: Seq<char>,
}

impl DeepView for Location {
    type V = LocationModel;

    open spec fn deep_view(&self) -> LocationModel {
        LocationModel { id: self.id.deep_view(), country: self.country@, state: self.state@ }
    }
}

/// The input of a location creation.
#[derive(Clone, Debug, PartialEq, Eq)]
pub struct CreateLocation {
    pub country: String,
    pub state: String,
}

/// A rank as the document store holds it.
#[derive(Debug, PartialEq, Eq)]
pub struct Rank {
    pub id: Option<DocumentKey>,
    pub name: String,
    pub description: String,
}

/// The value of a [`Rank`].
pub struct RankModel {
    pub id: Option<Seq<u8>>,
    pub name: Seq<char>,
    pub description: Seq<char>,
}

impl DeepView for Rank {
    type V = RankModel;

    open spec fn deep_view(&self) -> RankModel {
        RankModel { id: self.id.deep_view(), name: self.name@, description: self.description@ }
    }
}

/// The input of a rank creation.
#[derive(Clone, Debug, PartialEq, Eq)]
pub struct CreateRank {
    pub name: String,
    pub description: String,
}

/// A copy of a list of texts.
fn copy_texts(texts: &Vec<String>) -> (copy: Vec<String>)
    ensures
        copy@ == texts@,
        copy.deep_view() == texts.deep_view(),
{
    let mut copy: Vec<String> = Vec::new();
    let mut i: usize = 0;
    while i < texts.len()
        invariant
            i <= texts.len(),
            copy@ == texts@.take(i as int),
        decreases texts.len() - i,
    {
        copy.push(texts[i].clone());
        i += 1;
    }
    copy
}

impl Clone for Employee {
    fn clone(&self) -> (copy: Employee)
        ensures
            copy.deep_view() == self.deep_view(),
    {
        Employee {
            id: self.id,
            first_name: self.first_name.clone(),
            last_name: self.last_name.clone(),
            status: self.status,
            stores: match &self.stores {
                Some(stores) => Some(copy_texts(stores)),
                None => None,
            },
            rank_id: match &self.rank_id {
                Some(rank_id) => Some(rank_id.clone()),
                None => None,
            },
        }
    }
}

impl Clone for EmployeeFields {
    fn clone(&self) -> (copy: EmployeeFields)
        ensures
            copy.deep_view() == self.deep_view(),
    {
        EmployeeFields {
            first_name: self.first_name.clone(),
            last_name: self.last_name.clone(),
            status: self.status,
            stores: copy_texts(&self.stores),
            rank_id: self.rank_id.clone(),
        }
    }
}

impl Clone for Store {
    fn clone(&self) -> (copy: Store)
        ensures
            copy.deep_view() == self.deep_view(),
    {
        Store { id: self.id, name: self.name.clone(), location_id: self.location_id.clone() }
    }
}

impl Clone for Location {
    fn clone(&self) -> (copy: Location)
        ensures
            copy.deep_view() == self.deep_view(),
    {
        Location { id: self.id, country: self.country.clone(), state: self.state.clone() }
    }
}

impl Clone for Rank {
    fn clone(&self) -> (copy: Rank)
        ensures
            copy.deep_view() == self.deep_view(),
    {
        Rank { id: self.id, name: self.name.clone(), description: self.description.clone() }
    }
}

} // verus!
